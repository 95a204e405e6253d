use vstd::prelude::*;

verus! {

/// A 32-byte account identifier, held as plain bytes so that contracts can
/// speak of it as a `Seq<u8>`.
#[derive(Debug, PartialEq, Eq)]
pub struct Pubkey {
    pub bytes: Vec<u8>,
}

impl View for Pubkey {
    type V = Seq<u8>;

    open spec fn view(&self) -> Seq<u8> {
        self.bytes@
    }
}

impl Pubkey {
    /// A well-formed identifier holds exactly 32 bytes.
    pub open spec fn wf(&self) -> bool {
        self.bytes@.len() == 32
    }

    /// Copies the first 32 bytes of `input` into a fresh identifier.
    pub fn from_slice(input: &[u8]) -> (r: Pubkey)
        requires
            input@.len() >= 32,
        ensures
            r@ == input@.take(32),
            r.wf(),
    {
        let key = vstd::slice::slice_subrange(input, 0, 32);
        Pubkey { bytes: vstd::slice::slice_to_vec(key) }
    }

    /// A fresh identifier holding the same bytes.
    pub fn dup(&self) -> (r: Pubkey)
        ensures
            r@ == self@,
            self.wf() ==> r.wf(),
    {
        Pubkey { bytes: vstd::slice::slice_to_vec(self.bytes.as_slice()) }
    }
}

/// Byte-for-byte equality of two identifiers.
pub fn pubkey_eq(a: &Pubkey, b: &Pubkey) -> (r: bool)
    requires
        a.wf(),
        b.wf(),
    ensures
        r == (a@ == b@),
{
    let mut i: usize = 0;
    while i < 32
        invariant
            a.wf(),
            b.wf(),
            i <= 32,
            forall|j: int| 0 <= j < i ==> a.bytes@[j] == b.bytes@[j],
        decreases 32 - i,
    {
        if a.bytes[i] != b.bytes[i] {
            return false;
        }
        i = i + 1;
    }
    proof {
        assert(a@ =~= b@);
    }
    true
}

} // verus!
