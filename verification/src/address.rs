use vstd::prelude::*;

verus! {

/// An account or contract address, identified by the bytes of its textual
/// (strkey) form. Two addresses are the same exactly when their bytes agree.
#[derive(Debug, PartialEq, Eq)]
pub struct Address {
    bytes: Vec<u8>,
}

impl View for Address {
    type V = Seq<u8>;

    closed spec fn view(&self) -> Seq<u8> {
        self.bytes@
    }
}

impl Address {
    /// The address whose textual form has the given bytes.
    pub fn new(bytes: Vec<u8>) -> (a: Address)
        ensures
            a@ == bytes@,
    {
        Address { bytes }
    }

    /// The bytes of the address's textual form.
    pub fn as_bytes(&self) -> (b: &[u8])
        ensures
            b@ == self@,
    {
        self.bytes.as_slice()
    }

    /// Whether `self` and `other` denote the same address.
    pub fn same_as(&self, other: &Address) -> (r: bool)
        ensures
            r == (self@ == other@),
    {
        let r = self.bytes == other.bytes;
        proof {
            if r {
                assert(self.bytes@ =~= other.bytes@);
            }
        }
        r
    }
}

impl Clone for Address {
    fn clone(&self) -> (c: Self)
        ensures
            c@ == self@,
    {
        let bytes = self.bytes.clone();
        assert(bytes@ =~= self.bytes@);
        Address { bytes }
    }
}

/// The view of an optional address.
pub open spec fn opt_view(a: Option<Address>) -> Option<Seq<u8>> {
    match a {
        Some(x) => Some(x@),
        None => None,
    }
}

/// A copy of an optional address.
pub fn clone_opt(a: &Option<Address>) -> (c: Option<Address>)
    ensures
        opt_view(c) == opt_view(*a),
{
    match a {
        Some(x) => Some(x.clone()),
        None => None,
    }
}

} // verus!
