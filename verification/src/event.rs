use vstd::prelude::*;

use crate::address::Address;

verus! {

/// A recorded payment event.
#[derive(Debug, PartialEq, Eq)]
pub struct PaymentEvent {
    pub id: u64,
    pub source: Vec<u8>,
    pub payer: Address,
    pub payee: Address,
    pub amount: i128,
    pub tx_hash: Vec<u8>,
    pub timestamp: u64,
}

/// The mathematical model of a [`PaymentEvent`].
pub struct PaymentEventView {
    pub id: u64,
    pub source: Seq<u8>,
    pub payer: Seq<u8>,
    pub payee: Seq<u8>,
    pub amount: i128,
    pub tx_hash: Seq<u8>,
    pub timestamp: u64,
}

impl View for PaymentEvent {
    type V = PaymentEventView;

    open spec fn view(&self) -> PaymentEventView {
        PaymentEventView {
            id: self.id,
            source: self.source@,
            payer: self.payer@,
            payee: self.payee@,
            amount: self.amount,
            tx_hash: self.tx_hash@,
            timestamp: self.timestamp,
        }
    }
}

impl Clone for PaymentEvent {
    fn clone(&self) -> (c: Self)
        ensures
            c@ == self@,
    {
        let source = self.source.clone();
        let tx_hash = self.tx_hash.clone();
        assert(source@ =~= self.source@);
        assert(tx_hash@ =~= self.tx_hash@);
        PaymentEvent {
            id: self.id,
            source,
            payer: self.payer.clone(),
            payee: self.payee.clone(),
            amount: self.amount,
            tx_hash,
            timestamp: self.timestamp,
        }
    }
}

} // verus!
