use vstd::prelude::*;

verus! {

/// A 32-byte account or asset identifier.
#[derive(Clone, Copy, Debug)]
pub struct Key {
    pub bytes: [u8; 32],
}

impl View for Key {
    type V = Seq<u8>;

    open spec fn view(&self) -> Seq<u8> {
        self.bytes@
    }
}

impl PartialEq for Key {
    fn eq(&self, o: &Key) -> (r: bool)
        ensures
            r == (self@ == o@),
    {
        let mut i: usize = 0;
        while i < 32
            invariant
                0 <= i <= 32,
                self@.len() == 32,
                o@.len() == 32,
                forall|j: int| 0 <= j < i ==> self@[j] == o@[j],
            decreases 32 - i,
        {
            if self.bytes[i] != o.bytes[i] {
                return false;
            }
            i = i + 1;
        }
        assert(self@ =~= o@);
        true
    }
}

impl vstd::std_specs::cmp::PartialEqSpecImpl for Key {
    open spec fn obeys_eq_spec() -> bool {
        true
    }

    open spec fn eq_spec(&self, o: &Key) -> bool {
        self@ == o@
    }
}

impl Key {
    /// The key made of the given bytes.
    pub fn new(bytes: [u8; 32]) -> (r: Key)
        ensures
            r.bytes == bytes,
    {
        Key { bytes }
    }

    /// The identifier reserved for the primary (settlement) asset: all zero bytes.
    pub open spec fn spec_primary() -> Seq<u8> {
        Seq::new(32, |i: int| 0u8)
    }

    /// The identifier reserved for the primary (settlement) asset.
    pub fn primary() -> (r: Key)
        ensures
            r@ == Key::spec_primary(),
    {
        let r = Key { bytes: [0u8; 32] };
        assert(r@ =~= Key::spec_primary());
        r
    }
}

} // verus!
