use vstd::prelude::*;

verus! {

/// A 32-byte account address.
#[derive(Clone, Copy, Debug)]
pub struct Key {
    pub bytes: [u8; 32],
}

impl View for Key {
    type V = Seq<u8>;

    open spec fn view(&self) -> Seq<u8> {
        self.bytes@
    }
}

/// The program that owns every derived address of a marketplace:
/// `hausS13jsjafwWwGqZTUQRmWyvyxn9EQpqMwV1PBBmk` in base58.
pub open spec fn program_id() -> Seq<u8> {
    seq![
        10, 101, 147, 134, 60, 186, 70, 21, 100, 234, 228, 19, 115, 114, 21, 70,
        235, 1, 81, 201, 48, 130, 118, 187, 212, 173, 42, 28, 58, 66, 16, 123,
    ]
}

/// The owning program's address as a value.
pub fn program_key() -> (r: Key)
    ensures
        r@ == program_id(),
{
    let r = Key {
        bytes: [
            10, 101, 147, 134, 60, 186, 70, 21, 100, 234, 228, 19, 115, 114, 21, 70,
            235, 1, 81, 201, 48, 130, 118, 187, 212, 173, 42, 28, 58, 66, 16, 123,
        ],
    };
    proof {
        assert(r@ =~= program_id());
    }
    r
}

/// The token-metadata program, under which each mint's metadata account is
/// derived: `metaqbxxUerdq28cj1RbAWkYQm3ybzjb6a8bt518x1s` in base58.
pub open spec fn metadata_program_id() -> Seq<u8> {
    seq![
        11, 112, 101, 177, 227, 209, 124, 69, 56, 157, 82, 127, 107, 4, 195, 205,
        88, 184, 108, 115, 26, 160, 253, 181, 73, 182, 209, 188, 3, 248, 41, 70,
    ]
}

/// The token-metadata program's address as a value.
pub fn metadata_program_key() -> (r: Key)
    ensures
        r@ == metadata_program_id(),
{
    let r = Key {
        bytes: [
            11, 112, 101, 177, 227, 209, 124, 69, 56, 157, 82, 127, 107, 4, 195, 205,
            88, 184, 108, 115, 26, 160, 253, 181, 73, 182, 209, 188, 3, 248, 41, 70,
        ],
    };
    proof {
        assert(r@ =~= metadata_program_id());
    }
    r
}

impl Key {
    pub fn new(bytes: [u8; 32]) -> (r: Key)
        ensures
            r@ == bytes@,
    {
        Key { bytes }
    }

    /// Byte-wise comparison of two addresses.
    pub fn equals(&self, other: &Key) -> (r: bool)
        ensures
            r == (self@ == other@),
    {
        let mut i: usize = 0;
        while i < 32
            invariant
                i <= 32,
                self@.len() == 32,
                other@.len() == 32,
                forall|j: int| 0 <= j < i ==> self@[j] == other@[j],
            decreases 32 - i,
        {
            if self.bytes[i] != other.bytes[i] {
                return false;
            }
            i = i + 1;
        }
        proof {
            assert(self@ =~= other@);
        }
        true
    }

    /// The address as a byte vector, as it is fed to a derivation.
    pub fn to_vec(&self) -> (r: Vec<u8>)
        ensures
            r@ == self@,
    {
        let mut r: Vec<u8> = Vec::new();
        let mut i: usize = 0;
        while i < 32
            invariant
                i <= 32,
                self@.len() == 32,
                r@ =~= self@.take(i as int),
            decreases 32 - i,
        {
            r.push(self.bytes[i]);
            i = i + 1;
        }
        proof {
            assert(r@ =~= self@);
        }
        r
    }
}

} // verus!
