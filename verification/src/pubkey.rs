use vstd::prelude::*;

verus! {

/// Number of bytes in an account address.
pub const PUBKEY_BYTES: usize = 32;

/// A 32-byte account address, the identity of every account, program and
/// authority this library speaks about.
#[derive(Clone, Copy)]
pub struct Pubkey {
    pub bytes: [u8; 32],
}

impl View for Pubkey {
    type V = Seq<u8>;

    open spec fn view(&self) -> Seq<u8> {
        self.bytes@
    }
}

/// Compares two addresses byte for byte.
pub fn pubkey_eq(a: &Pubkey, b: &Pubkey) -> (r: bool)
    ensures
        r == (a@ == b@),
{
    let mut i: usize = 0;
    while i < 32
        invariant
            0 <= i <= 32,
            forall|j: int| 0 <= j < i ==> a@[j] == b@[j],
        decreases 32 - i,
    {
        if a.bytes[i] != b.bytes[i] {
            assert(a@[i as int] != b@[i as int]);
            return false;
        }
        i += 1;
    }
    assert(a@ =~= b@);
    true
}

/// Reads an address out of 32 bytes of a buffer.
pub fn pubkey_from_slice(data: &Vec<u8>, start: usize) -> (r: Pubkey)
    requires
        start + 32 <= data@.len(),
    ensures
        r@ =~= data@.subrange(start as int, start + 32),
{
    let n: usize = data.len();
    let mut bytes: [u8; 32] = [0u8; 32];
    let mut i: usize = 0;
    while i < 32
        invariant
            0 <= i <= 32,
            start + 32 <= n == data@.len(),
            bytes@.len() == 32,
            forall|j: int| 0 <= j < i ==> bytes@[j] == data@[start + j],
        decreases 32 - i,
    {
        bytes[i] = data[start + i];
        i += 1;
    }
    Pubkey { bytes }
}

/// Copies an address into a growable byte vector.
pub fn pubkey_to_vec(k: &Pubkey) -> (r: Vec<u8>)
    ensures
        r@ =~= k@,
{
    let mut r: Vec<u8> = Vec::new();
    let mut i: usize = 0;
    while i < 32
        invariant
            0 <= i <= 32,
            r@.len() == i,
            forall|j: int| 0 <= j < i ==> r@[j] == k@[j],
        decreases 32 - i,
    {
        r.push(k.bytes[i]);
        i += 1;
    }
    r
}

/// Appends an address to the end of a byte vector.
pub fn push_pubkey(out: &mut Vec<u8>, k: &Pubkey)
    ensures
        final(out)@ =~= old(out)@ + k@,
{
    let mut i: usize = 0;
    while i < 32
        invariant
            0 <= i <= 32,
            out@.len() == old(out)@.len() + i,
            out@.subrange(0, old(out)@.len() as int) =~= old(out)@,
            forall|j: int| 0 <= j < i ==> out@[old(out)@.len() + j] == k@[j],
        decreases 32 - i,
    {
        out.push(k.bytes[i]);
        i += 1;
    }
}

} // verus!
