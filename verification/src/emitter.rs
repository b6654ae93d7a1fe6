use vstd::prelude::*;

use crate::address::{clone_opt, opt_view, Address};
use crate::error::EmitterError;
use crate::event::{PaymentEvent, PaymentEventView};

verus! {

/// Seconds that must pass between proposing an upgrade or an owner and
/// carrying it out.
pub const TIMELOCK_SECS: u64 = 86400;

/// The largest number of event ids one maintenance call looks at.
pub const MAX_BUMP_BATCH: u32 = 50;

/// The version number that `init` reports.
pub const CONTRACT_VERSION: u32 = 0;

/// `a + b`, saturated at `u64::MAX`.
pub open spec fn sat_add(a: u64, b: int) -> u64 {
    if a + b > u64::MAX {
        u64::MAX
    } else {
        (a + b) as u64
    }
}

/// `a - b`, saturated at zero.
pub open spec fn sat_sub(a: u64, b: u64) -> u64 {
    if a < b {
        0
    } else {
        (a - b) as u64
    }
}

/// How many ids a maintenance call with the requested `count` looks at.
pub open spec fn bump_batch(count: u32) -> nat {
    if count < MAX_BUMP_BATCH {
        count as nat
    } else {
        MAX_BUMP_BATCH as nat
    }
}

/// The stored events of a sequence in which the event with id `k` sits at
/// position `k - 1`.
pub open spec fn events_map(s: Seq<PaymentEvent>) -> Map<u64, PaymentEventView> {
    Map::new(|k: u64| 1 <= k <= s.len(), |k: u64| s[k - 1]@)
}

/// The mathematical model of the contract's storage.
pub struct EmitterState {
    /// The owner, once the contract is initialized.
    pub owner: Option<Seq<u8>>,
    /// The id of the last event emitted (zero when none is counted).
    pub event_count: u64,
    /// The stored events, keyed by id.
    pub events: Map<u64, PaymentEventView>,
    /// The source that may emit events besides the owner, if one is set.
    pub allowed_source: Option<Seq<u8>>,
    /// Whether emission is paused.
    pub paused: bool,
    /// A proposed code upgrade and the time from which it may be executed.
    pub pending_upgrade: Option<([u8; 32], u64)>,
    /// A proposed new owner and the time at which it was proposed.
    pub pending_owner: Option<(Seq<u8>, u64)>,
}

impl EmitterState {
    /// The storage of a freshly deployed contract.
    pub open spec fn empty() -> EmitterState {
        EmitterState {
            owner: None,
            event_count: 0,
            events: Map::empty(),
            allowed_source: None,
            paused: false,
            pending_upgrade: None,
            pending_owner: None,
        }
    }

    /// Every stored event carries the id it is stored under.
    pub open spec fn wf(self) -> bool {
        forall|k: u64| #[trigger] self.events.contains_key(k) ==> self.events[k].id == k
    }

    /// The error an owner-only operation fails with when `caller` calls it.
    pub open spec fn owner_gate(self, caller: Seq<u8>) -> Option<EmitterError> {
        match self.owner {
            None => Some(EmitterError::NotInitialized),
            Some(o) => if o == caller {
                None
            } else {
                Some(EmitterError::Unauthorized)
            },
        }
    }

    /// The result of `init` and the storage after it.
    pub open spec fn init(self, owner: Seq<u8>) -> (Result<u32, EmitterError>, EmitterState) {
        if self.owner is Some {
            (Err(EmitterError::AlreadyInitialized), self)
        } else {
            (
                Ok(CONTRACT_VERSION),
                EmitterState { owner: Some(owner), event_count: 0, ..self },
            )
        }
    }

    /// The error `emit_payment` fails with when `caller` calls it.
    pub open spec fn emit_gate(self, caller: Seq<u8>) -> Option<EmitterError> {
        match self.allowed_source {
            Some(allowed) => match self.owner {
                None => Some(EmitterError::NotInitialized),
                Some(o) => if caller != allowed && caller != o {
                    Some(EmitterError::Unauthorized)
                } else if self.paused {
                    Some(EmitterError::ContractPaused)
                } else {
                    None
                },
            },
            None => if self.paused {
                Some(EmitterError::ContractPaused)
            } else {
                None
            },
        }
    }

    /// The event that the next successful `emit_payment` records.
    pub open spec fn next_event(
        self,
        source: Seq<u8>,
        payer: Seq<u8>,
        payee: Seq<u8>,
        amount: i128,
        tx_hash: Seq<u8>,
        now: u64,
    ) -> PaymentEventView {
        PaymentEventView {
            id: (self.event_count + 1) as u64,
            source,
            payer,
            payee,
            amount,
            tx_hash,
            timestamp: now,
        }
    }

    /// The result of `emit_payment` and the storage after it.
    pub open spec fn emit_payment(
        self,
        caller: Seq<u8>,
        source: Seq<u8>,
        payer: Seq<u8>,
        payee: Seq<u8>,
        amount: i128,
        tx_hash: Seq<u8>,
        now: u64,
    ) -> (Result<u64, EmitterError>, EmitterState) {
        match self.emit_gate(caller) {
            Some(e) => (Err(e), self),
            None => {
                let id = (self.event_count + 1) as u64;
                (
                    Ok(id),
                    EmitterState {
                        event_count: id,
                        events: self.events.insert(
                            id,
                            self.next_event(source, payer, payee, amount, tx_hash, now),
                        ),
                        ..self
                    },
                )
            },
        }
    }

    /// The result of `get_event`.
    pub open spec fn get_event(self, event_id: u64) -> Result<PaymentEventView, EmitterError> {
        if self.events.contains_key(event_id) {
            Ok(self.events[event_id])
        } else {
            Err(EmitterError::EventNotFound)
        }
    }

    /// The result of `get_owner`.
    pub open spec fn get_owner(self) -> Result<Seq<u8>, EmitterError> {
        match self.owner {
            Some(o) => Ok(o),
            None => Err(EmitterError::NotInitialized),
        }
    }

    /// The result of `set_allowed_source` and the storage after it.
    pub open spec fn set_allowed_source(self, caller: Seq<u8>, source: Option<Seq<u8>>) -> (
        Result<(), EmitterError>,
        EmitterState,
    ) {
        match self.owner_gate(caller) {
            Some(e) => (Err(e), self),
            None => (Ok(()), EmitterState { allowed_source: source, ..self }),
        }
    }

    /// The result of `propose_upgrade` and the storage after it.
    pub open spec fn propose_upgrade(self, caller: Seq<u8>, hash: [u8; 32], now: u64) -> (
        Result<(), EmitterError>,
        EmitterState,
    ) {
        match self.owner_gate(caller) {
            Some(e) => (Err(e), self),
            None => (
                Ok(()),
                EmitterState {
                    pending_upgrade: Some((hash, (now + TIMELOCK_SECS) as u64)),
                    ..self
                },
            ),
        }
    }

    /// The result of `execute_upgrade` (the code hash to install) and the
    /// storage after it.
    pub open spec fn execute_upgrade(self, now: u64) -> (Result<[u8; 32], EmitterError>, EmitterState) {
        match self.pending_upgrade {
            None => (Err(EmitterError::UpgradeNotProposed), self),
            Some((hash, unlock_at)) => if now < unlock_at {
                (Err(EmitterError::UpgradeTimelockActive), self)
            } else {
                (Ok(hash), EmitterState { pending_upgrade: None, ..self })
            },
        }
    }

    /// The result of `cancel_upgrade` and the storage after it.
    pub open spec fn cancel_upgrade(self, caller: Seq<u8>) -> (Result<(), EmitterError>, EmitterState) {
        match self.owner_gate(caller) {
            Some(e) => (Err(e), self),
            None => (Ok(()), EmitterState { pending_upgrade: None, ..self }),
        }
    }

    /// The result of `transfer_ownership` and the storage after it.
    pub open spec fn transfer_ownership(self, caller: Seq<u8>, new_owner: Seq<u8>, now: u64) -> (
        Result<(), EmitterError>,
        EmitterState,
    ) {
        match self.owner_gate(caller) {
            Some(e) => (Err(e), self),
            None => (Ok(()), EmitterState { pending_owner: Some((new_owner, now)), ..self }),
        }
    }

    /// The result of `accept_ownership` and the storage after it.
    pub open spec fn accept_ownership(self, caller: Seq<u8>, now: u64) -> (
        Result<(), EmitterError>,
        EmitterState,
    ) {
        match self.pending_owner {
            None => (Err(EmitterError::UpgradeNotProposed), self),
            Some((pending, proposed_at)) => if caller != pending {
                (Err(EmitterError::Unauthorized), self)
            } else if sat_sub(now, proposed_at) < TIMELOCK_SECS {
                (Err(EmitterError::UpgradeTimelockActive), self)
            } else {
                (Ok(()), EmitterState { owner: Some(caller), pending_owner: None, ..self })
            },
        }
    }

    /// The result of `pause` (when `flag`) or `unpause` (otherwise) and the
    /// storage after it.
    pub open spec fn set_paused(self, caller: Seq<u8>, flag: bool) -> (
        Result<(), EmitterError>,
        EmitterState,
    ) {
        match self.owner_gate(caller) {
            Some(e) => (Err(e), self),
            None => (Ok(()), EmitterState { paused: flag, ..self }),
        }
    }

    /// The stored ids among the first `n` ids that a maintenance call
    /// starting at `start` looks at, in the order it looks at them (an id
    /// that saturates at `u64::MAX` is looked at once per step).
    pub open spec fn live_ids(self, start: u64, n: nat) -> Seq<u64>
        decreases n,
    {
        if n == 0 {
            Seq::empty()
        } else {
            let prev = self.live_ids(start, (n - 1) as nat);
            let id = sat_add(start, n - 1);
            if self.events.contains_key(id) {
                prev.push(id)
            } else {
                prev
            }
        }
    }

    /// The result of `maintain_storage_bump`.
    pub open spec fn maintain_storage_bump(self, caller: Seq<u8>, start: u64, count: u32) -> Result<
        u32,
        EmitterError,
    > {
        match self.owner_gate(caller) {
            Some(e) => Err(e),
            None => Ok(self.live_ids(start, bump_batch(count)).len() as u32),
        }
    }
}

/// No more ids are live than are looked at.
pub proof fn lemma_live_ids_len(s: EmitterState, start: u64, n: nat)
    ensures
        s.live_ids(start, n).len() <= n,
    decreases n,
{
    if n > 0 {
        lemma_live_ids_len(s, start, (n - 1) as nat);
    }
}

/// The contract's storage.
pub struct PaymentEventEmitter {
    owner: Option<Address>,
    event_count: u64,
    events: Vec<PaymentEvent>,
    allowed_source: Option<Address>,
    paused: bool,
    pending_upgrade: Option<([u8; 32], u64)>,
    pending_owner: Option<(Address, u64)>,
}

/// The view of an optional pending owner.
pub open spec fn pending_view(p: Option<(Address, u64)>) -> Option<(Seq<u8>, u64)> {
    match p {
        Some((a, t)) => Some((a@, t)),
        None => None,
    }
}

/// Whether `events` holds the events with ids `1..=events.len()` in order
/// and `count` is at most their number.
pub open spec fn events_well_placed(count: u64, events: Seq<PaymentEvent>) -> bool {
    &&& count <= events.len()
    &&& forall|i: int| 0 <= i < events.len() ==> #[trigger] events[i].id == i + 1
}

impl View for PaymentEventEmitter {
    type V = EmitterState;

    closed spec fn view(&self) -> EmitterState {
        EmitterState {
            owner: opt_view(self.owner),
            event_count: self.event_count,
            events: events_map(self.events@),
            allowed_source: opt_view(self.allowed_source),
            paused: self.paused,
            pending_upgrade: self.pending_upgrade,
            pending_owner: pending_view(self.pending_owner),
        }
    }
}

impl PaymentEventEmitter {
    /// The internal invariant of the storage.
    pub closed spec fn inv(&self) -> bool {
        events_well_placed(self.event_count, self.events@)
    }

    /// The invariant makes the model well formed.
    pub proof fn lemma_inv_wf(&self)
        requires
            self.inv(),
        ensures
            self@.wf(),
    {
        assert forall|k: u64| #[trigger] self@.events.contains_key(k) implies self@.events[k].id
            == k by {
            assert(self.events@[k - 1].id == k);
        }
    }

    /// The storage of a freshly deployed contract.
    pub fn new() -> (s: PaymentEventEmitter)
        ensures
            s.inv(),
            s@ == EmitterState::empty(),
    {
        let s = PaymentEventEmitter {
            owner: None,
            event_count: 0,
            events: Vec::new(),
            allowed_source: None,
            paused: false,
            pending_upgrade: None,
            pending_owner: None,
        };
        assert(s@.events =~= Map::empty());
        s
    }

    /// The storage made of the given parts, if they are consistent: the
    /// event with id `k` sits at position `k - 1` of `events`, and
    /// `event_count` is at most the number of events.
    pub fn from_parts(
        owner: Option<Address>,
        event_count: u64,
        events: Vec<PaymentEvent>,
        allowed_source: Option<Address>,
        paused: bool,
        pending_upgrade: Option<([u8; 32], u64)>,
        pending_owner: Option<(Address, u64)>,
    ) -> (r: Option<PaymentEventEmitter>)
        ensures
            r is Some <==> events_well_placed(event_count, events@),
            r matches Some(s) ==> {
                &&& s.inv()
                &&& s@ == EmitterState {
                    owner: opt_view(owner),
                    event_count,
                    events: events_map(events@),
                    allowed_source: opt_view(allowed_source),
                    paused,
                    pending_upgrade,
                    pending_owner: pending_view(pending_owner),
                }
            },
    {
        if (events.len() as u64) < event_count {
            return None;
        }
        let mut i: usize = 0;
        while i < events.len()
            invariant
                i <= events.len(),
                forall|j: int| 0 <= j < i ==> #[trigger] events@[j].id == j + 1,
            decreases events.len() - i,
        {
            if events[i].id != i as u64 + 1 {
                return None;
            }
            i = i + 1;
        }
        Some(
            PaymentEventEmitter {
                owner,
                event_count,
                events,
                allowed_source,
                paused,
                pending_upgrade,
                pending_owner,
            },
        )
    }

    /// The proposed upgrade and the time from which it may be executed.
    pub fn get_pending_upgrade(&self) -> (r: Option<([u8; 32], u64)>)
        ensures
            r == self@.pending_upgrade,
    {
        self.pending_upgrade
    }

    /// The proposed owner and the time of the proposal.
    pub fn get_pending_owner(&self) -> (r: Option<(Address, u64)>)
        ensures
            pending_view(r) == self@.pending_owner,
    {
        match &self.pending_owner {
            Some((a, t)) => Some((a.clone(), *t)),
            None => None,
        }
    }

    fn has_event(&self, id: u64) -> (r: bool)
        ensures
            r == self@.events.contains_key(id),
            r == (1 <= id && id <= self.events.len()),
    {
        1 <= id && id <= self.events.len() as u64
    }

    /// The error an owner-only call by `caller` fails with, if any.
    pub fn owner_gate(&self, caller: &Address) -> (r: Option<EmitterError>)
        ensures
            r == self@.owner_gate(caller@),
    {
        match &self.owner {
            None => Some(EmitterError::NotInitialized),
            Some(o) => if o.same_as(caller) {
                None
            } else {
                Some(EmitterError::Unauthorized)
            },
        }
    }

    /// Initialize the emitter with its owner; reports the contract version.
    pub fn init(&mut self, owner: Address) -> (r: Result<u32, EmitterError>)
        requires
            old(self).inv(),
        ensures
            final(self).inv(),
            r == old(self)@.init(owner@).0,
            final(self)@ == old(self)@.init(owner@).1,
    {
        if self.owner.is_some() {
            return Err(EmitterError::AlreadyInitialized);
        }
        self.owner = Some(owner);
        self.event_count = 0;
        Ok(CONTRACT_VERSION)
    }

    /// The error `emit_payment` by `caller` fails with, if any.
    pub fn emit_gate(&self, caller: &Address) -> (r: Option<EmitterError>)
        ensures
            r == self@.emit_gate(caller@),
    {
        match &self.allowed_source {
            Some(allowed) => match &self.owner {
                None => Some(EmitterError::NotInitialized),
                Some(o) => if !caller.same_as(allowed) && !caller.same_as(o) {
                    Some(EmitterError::Unauthorized)
                } else if self.paused {
                    Some(EmitterError::ContractPaused)
                } else {
                    None
                },
            },
            None => if self.paused {
                Some(EmitterError::ContractPaused)
            } else {
                None
            },
        }
    }

    /// Record a payment event emitted by `caller` at ledger time `now`;
    /// returns the new event's id.
    pub fn emit_payment(
        &mut self,
        caller: &Address,
        source: Vec<u8>,
        payer: Address,
        payee: Address,
        amount: i128,
        tx_hash: Vec<u8>,
        now: u64,
    ) -> (r: Result<u64, EmitterError>)
        requires
            old(self).inv(),
            old(self)@.emit_gate(caller@) is None ==> old(self)@.event_count < u64::MAX,
        ensures
            final(self).inv(),
            r == old(self)@.emit_payment(
                caller@,
                source@,
                payer@,
                payee@,
                amount,
                tx_hash@,
                now,
            ).0,
            final(self)@ == old(self)@.emit_payment(
                caller@,
                source@,
                payer@,
                payee@,
                amount,
                tx_hash@,
                now,
            ).1,
    {
        if let Some(e) = self.emit_gate(caller) {
            return Err(e);
        }
        let ghost old_view = self@;
        let ghost ev = self@.next_event(source@, payer@, payee@, amount, tx_hash@, now);
        let id = self.event_count + 1;
        let event = PaymentEvent {
            id,
            source,
            payer,
            payee,
            amount,
            tx_hash,
            timestamp: now,
        };
        assert(event@ == ev);
        let idx = self.event_count as usize;
        if idx < self.events.len() {
            self.events.set(idx, event);
        } else {
            self.events.push(event);
        }
        self.event_count = id;
        assert(self@.events =~= old_view.events.insert(id, ev));
        Ok(id)
    }

    /// The event stored under `event_id`.
    pub fn get_event(&self, event_id: u64) -> (r: Result<PaymentEvent, EmitterError>)
        requires
            self.inv(),
        ensures
            match r {
                Ok(e) => self@.get_event(event_id) == Ok::<PaymentEventView, EmitterError>(e@),
                Err(x) => self@.get_event(event_id) == Err::<PaymentEventView, EmitterError>(x),
            },
    {
        if self.has_event(event_id) {
            let idx = (event_id - 1) as usize;
            assert(idx as int == event_id - 1);
            Ok(self.events[idx].clone())
        } else {
            Err(EmitterError::EventNotFound)
        }
    }

    /// The id of the last event emitted.
    pub fn get_event_count(&self) -> (c: u64)
        ensures
            c == self@.event_count,
    {
        self.event_count
    }

    /// The owner.
    pub fn get_owner(&self) -> (r: Result<Address, EmitterError>)
        ensures
            match r {
                Ok(a) => self@.get_owner() == Ok::<Seq<u8>, EmitterError>(a@),
                Err(x) => self@.get_owner() == Err::<Seq<u8>, EmitterError>(x),
            },
    {
        match &self.owner {
            Some(o) => Ok(o.clone()),
            None => Err(EmitterError::NotInitialized),
        }
    }

    /// Set (or, with `None`, clear) the allow-listed source; owner only.
    pub fn set_allowed_source(&mut self, caller: &Address, source: Option<Address>) -> (r: Result<
        (),
        EmitterError,
    >)
        requires
            old(self).inv(),
        ensures
            final(self).inv(),
            r == old(self)@.set_allowed_source(caller@, opt_view(source)).0,
            final(self)@ == old(self)@.set_allowed_source(caller@, opt_view(source)).1,
    {
        if let Some(e) = self.owner_gate(caller) {
            return Err(e);
        }
        self.allowed_source = source;
        Ok(())
    }

    /// The allow-listed source, if one is set.
    pub fn get_allowed_source(&self) -> (r: Option<Address>)
        ensures
            opt_view(r) == self@.allowed_source,
    {
        clone_opt(&self.allowed_source)
    }

    /// Propose an upgrade to the code with hash `new_wasm_hash` at ledger
    /// time `now`; it may be executed from `now + TIMELOCK_SECS` on. Owner
    /// only.
    pub fn propose_upgrade(&mut self, caller: &Address, new_wasm_hash: [u8; 32], now: u64) -> (r:
        Result<(), EmitterError>)
        requires
            old(self).inv(),
            old(self)@.owner_gate(caller@) is None ==> now + TIMELOCK_SECS <= u64::MAX,
        ensures
            final(self).inv(),
            r == old(self)@.propose_upgrade(caller@, new_wasm_hash, now).0,
            final(self)@ == old(self)@.propose_upgrade(caller@, new_wasm_hash, now).1,
    {
        if let Some(e) = self.owner_gate(caller) {
            return Err(e);
        }
        let unlock_at = now + TIMELOCK_SECS;
        self.pending_upgrade = Some((new_wasm_hash, unlock_at));
        Ok(())
    }

    /// Carry out the proposed upgrade once its timelock has passed; returns
    /// the hash of the code to install.
    pub fn execute_upgrade(&mut self, now: u64) -> (r: Result<[u8; 32], EmitterError>)
        requires
            old(self).inv(),
        ensures
            final(self).inv(),
            r == old(self)@.execute_upgrade(now).0,
            final(self)@ == old(self)@.execute_upgrade(now).1,
    {
        match self.pending_upgrade {
            None => Err(EmitterError::UpgradeNotProposed),
            Some((hash, unlock_at)) => {
                if now < unlock_at {
                    return Err(EmitterError::UpgradeTimelockActive);
                }
                self.pending_upgrade = None;
                Ok(hash)
            },
        }
    }

    /// Drop the proposed upgrade; owner only.
    pub fn cancel_upgrade(&mut self, caller: &Address) -> (r: Result<(), EmitterError>)
        requires
            old(self).inv(),
        ensures
            final(self).inv(),
            r == old(self)@.cancel_upgrade(caller@).0,
            final(self)@ == old(self)@.cancel_upgrade(caller@).1,
    {
        if let Some(e) = self.owner_gate(caller) {
            return Err(e);
        }
        self.pending_upgrade = None;
        Ok(())
    }

    /// Propose `new_owner` as the next owner at ledger time `now`; owner
    /// only. The owner does not change until the proposal is accepted.
    pub fn transfer_ownership(&mut self, caller: &Address, new_owner: Address, now: u64) -> (r:
        Result<(), EmitterError>)
        requires
            old(self).inv(),
        ensures
            final(self).inv(),
            r == old(self)@.transfer_ownership(caller@, new_owner@, now).0,
            final(self)@ == old(self)@.transfer_ownership(caller@, new_owner@, now).1,
    {
        if let Some(e) = self.owner_gate(caller) {
            return Err(e);
        }
        self.pending_owner = Some((new_owner, now));
        Ok(())
    }

    /// Accept a proposed ownership at ledger time `now`, once the timelock
    /// has passed since the proposal.
    pub fn accept_ownership(&mut self, caller: &Address, now: u64) -> (r: Result<(), EmitterError>)
        requires
            old(self).inv(),
        ensures
            final(self).inv(),
            r == old(self)@.accept_ownership(caller@, now).0,
            final(self)@ == old(self)@.accept_ownership(caller@, now).1,
    {
        let proposed_at = match &self.pending_owner {
            None => {
                return Err(EmitterError::UpgradeNotProposed);
            },
            Some((pending, proposed_at)) => {
                if !caller.same_as(pending) {
                    return Err(EmitterError::Unauthorized);
                }
                *proposed_at
            },
        };
        if now.saturating_sub(proposed_at) < TIMELOCK_SECS {
            return Err(EmitterError::UpgradeTimelockActive);
        }
        self.pending_owner = None;
        self.owner = Some(caller.clone());
        Ok(())
    }

    /// Pause event emission; owner only.
    pub fn pause(&mut self, caller: &Address) -> (r: Result<(), EmitterError>)
        requires
            old(self).inv(),
        ensures
            final(self).inv(),
            r == old(self)@.set_paused(caller@, true).0,
            final(self)@ == old(self)@.set_paused(caller@, true).1,
    {
        if let Some(e) = self.owner_gate(caller) {
            return Err(e);
        }
        self.paused = true;
        Ok(())
    }

    /// Resume event emission; owner only.
    pub fn unpause(&mut self, caller: &Address) -> (r: Result<(), EmitterError>)
        requires
            old(self).inv(),
        ensures
            final(self).inv(),
            r == old(self)@.set_paused(caller@, false).0,
            final(self)@ == old(self)@.set_paused(caller@, false).1,
    {
        if let Some(e) = self.owner_gate(caller) {
            return Err(e);
        }
        self.paused = false;
        Ok(())
    }

    /// Whether emission is paused.
    pub fn is_paused(&self) -> (p: bool)
        ensures
            p == self@.paused,
    {
        self.paused
    }

    /// The stored ids among those a maintenance call starting at `start_id`
    /// with requested `count` looks at: the ids whose lifetime it extends.
    pub fn bump_targets(&self, start_id: u64, count: u32) -> (ids: Vec<u64>)
        requires
            self.inv(),
        ensures
            ids@ == self@.live_ids(start_id, bump_batch(count)),
    {
        let batch: u32 = if count < MAX_BUMP_BATCH {
            count
        } else {
            MAX_BUMP_BATCH
        };
        let mut ids: Vec<u64> = Vec::new();
        let mut i: u32 = 0;
        while i < batch
            invariant
                i <= batch,
                batch == bump_batch(count),
                ids@ == self@.live_ids(start_id, i as nat),
            decreases batch - i,
        {
            let id = start_id.saturating_add(i as u64);
            if self.has_event(id) {
                ids.push(id);
            }
            i = i + 1;
        }
        ids
    }

    /// Count the stored events among the (at most `MAX_BUMP_BATCH`) ids
    /// from `start_id` on whose lifetime a maintenance call extends; owner
    /// only.
    pub fn maintain_storage_bump(&self, caller: &Address, start_id: u64, count: u32) -> (r: Result<
        u32,
        EmitterError,
    >)
        requires
            self.inv(),
        ensures
            r == self@.maintain_storage_bump(caller@, start_id, count),
    {
        if let Some(e) = self.owner_gate(caller) {
            return Err(e);
        }
        let ids = self.bump_targets(start_id, count);
        proof {
            lemma_live_ids_len(self@, start_id, bump_batch(count));
        }
        Ok(ids.len() as u32)
    }
}

} // verus!
