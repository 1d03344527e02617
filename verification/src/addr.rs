//! Account addresses.
//!
//! The engine never interprets an address: it only compares addresses for
//! equality when it looks a position up in a ledger. An address is therefore
//! modelled as the byte string that identifies the account, viewed as a
//! `Seq<u8>`.
use vstd::prelude::*;
use vstd::string::StringSliceAdditionalSpecFns;

verus! {

/// An opaque account identifier: the byte string of the address.
pub struct Addr {
    bytes: Vec<u8>,
}

impl View for Addr {
    type V = Seq<u8>;

    closed spec fn view(&self) -> Seq<u8> {
        self.bytes@
    }
}

impl Addr {
    /// Wrap raw identifier bytes as an address.
    pub fn new(bytes: Vec<u8>) -> (a: Addr)
        ensures
            a@ == bytes@,
    {
        Addr { bytes }
    }

    /// Build an address from its textual form, as the UTF-8 bytes of the text.
    pub fn from_text(s: &str) -> (a: Addr)
        ensures
            a@ == s.spec_bytes(),
    {
        Addr { bytes: vstd::slice::slice_to_vec(s.as_bytes()) }
    }

    /// The identifier bytes of the address.
    pub fn as_bytes(&self) -> (b: &[u8])
        ensures
            b@ == self@,
    {
        self.bytes.as_slice()
    }
}

impl Clone for Addr {
    fn clone(&self) -> (r: Addr)
        ensures
            r@ == self@,
    {
        Addr { bytes: vstd::slice::slice_to_vec(self.bytes.as_slice()) }
    }
}

impl PartialEq for Addr {
    fn eq(&self, other: &Addr) -> (r: bool)
    {
        let r = self.bytes == other.bytes;
        proof {
            if r {
                assert(self.bytes@ =~= other.bytes@);
            }
        }
        r
    }
}

impl vstd::std_specs::cmp::PartialEqSpecImpl for Addr {
    open spec fn obeys_eq_spec() -> bool {
        true
    }

    open spec fn eq_spec(&self, other: &Addr) -> bool {
        self@ == other@
    }
}

} // verus!
