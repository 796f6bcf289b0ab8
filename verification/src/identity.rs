//! Opaque, comparable names of protocol participants.

use vstd::prelude::*;

verus! {

/// An opaque, comparable value uniquely naming a participant in the protocol:
/// a contract instance or an external caller. It is modelled as the bytes of
/// the participant's address; nothing in the protocol reads into them, they
/// are only carried and compared.
pub struct Identity {
    pub bytes: Vec<u8>,
}

impl View for Identity {
    type V = Seq<u8>;

    open spec fn view(&self) -> Seq<u8> {
        self.bytes@
    }
}

impl Identity {
    /// Wraps raw address bytes as an identity.
    pub fn new(bytes: Vec<u8>) -> (id: Identity)
        ensures
            id@ == bytes@,
    {
        Identity { bytes }
    }

    /// Two identities name the same participant exactly when their bytes agree.
    pub fn equals(&self, other: &Identity) -> (r: bool)
        ensures
            r == (self@ == other@),
    {
        let r = self.bytes == other.bytes;
        proof {
            if self.bytes@ =~= other.bytes@ {
                assert(self@ == other@);
            }
        }
        r
    }
}

} // verus!
