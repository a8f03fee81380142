use vstd::prelude::*;

verus! {

/// Number of bytes in the encoding of one field element.
pub const ELEMENT_BYTES: usize = 16;

/// Number of bytes in a program digest.
pub const DIGEST_BYTES: usize = 32;

/// The `n` low-order bytes of `v`, least significant first.
pub open spec fn le_bytes(v: nat, n: nat) -> Seq<u8>
    decreases n,
{
    if n == 0 {
        Seq::empty()
    } else {
        seq![(v % 256) as u8] + le_bytes(v / 256, (n - 1) as nat)
    }
}

/// The digest made of two field elements, each written as sixteen bytes,
/// least significant first.
pub open spec fn digest_of(e0: u128, e1: u128) -> Seq<u8> {
    le_bytes(e0 as nat, 16) + le_bytes(e1 as nat, 16)
}

proof fn lemma_le_bytes_len(v: nat, n: nat)
    ensures
        le_bytes(v, n).len() == n,
    decreases n,
{
    if n > 0 {
        lemma_le_bytes_len(v / 256, (n - 1) as nat);
    }
}

/// Writes the sixteen bytes of `v` at `offset`, leaving the other bytes alone.
fn write_element(out: &mut [u8; 32], offset: usize, v: u128)
    requires
        offset + 16 <= 32,
    ensures
        forall|j: int|
            0 <= j < 32 ==> #[trigger] final(out)@[j] == if offset <= j < offset + 16 {
                le_bytes(v as nat, 16)[j - offset]
            } else {
                old(out)@[j]
            },
{
    let mut x: u128 = v;
    let mut i: usize = 0;
    proof {
        lemma_le_bytes_len(v as nat, 16);
    }
    while i < 16
        invariant
            offset + 16 <= 32,
            0 <= i <= 16,
            le_bytes(v as nat, 16).len() == 16,
            le_bytes(v as nat, 16) == le_bytes(v as nat, 16).subrange(0, i as int) + le_bytes(
                x as nat,
                (16 - i) as nat,
            ),
            forall|j: int|
                0 <= j < 32 ==> #[trigger] out@[j] == if offset <= j < offset + i {
                    le_bytes(v as nat, 16)[j - offset]
                } else {
                    old(out)@[j]
                },
        decreases 16 - i,
    {
        let b: u8 = (x % 256) as u8;
        proof {
            let rest = le_bytes((x / 256) as nat, (16 - i - 1) as nat);
            assert(le_bytes(x as nat, (16 - i) as nat) == seq![b] + rest);
            assert(le_bytes(v as nat, 16)[i as int] == b);
            assert(le_bytes(v as nat, 16).subrange(0, i + 1) =~= le_bytes(v as nat, 16).subrange(
                0,
                i as int,
            ).push(b));
            assert(le_bytes(v as nat, 16) =~= le_bytes(v as nat, 16).subrange(0, i + 1) + rest);
        }
        out[offset + i] = b;
        x = x / 256;
        i = i + 1;
    }
}

/// The digest held by two field elements.
pub fn digest_from_elements(e0: u128, e1: u128) -> (r: [u8; 32])
    ensures
        r@ == digest_of(e0, e1),
{
    let mut out: [u8; 32] = [0u8; 32];
    write_element(&mut out, 0, e0);
    write_element(&mut out, 16, e1);
    proof {
        lemma_le_bytes_len(e0 as nat, 16);
        lemma_le_bytes_len(e1 as nat, 16);
        assert(out@ =~= digest_of(e0, e1));
    }
    out
}

/// Whether two digests hold the same bytes.
pub fn digests_equal(a: &[u8; 32], b: &[u8; 32]) -> (r: bool)
    ensures
        r == (a@ == b@),
{
    let mut i: usize = 0;
    while i < 32
        invariant
            0 <= i <= 32,
            forall|j: int| 0 <= j < i ==> a@[j] == b@[j],
        decreases 32 - i,
    {
        if a[i] != b[i] {
            return false;
        }
        i = i + 1;
    }
    assert(a@ =~= b@);
    true
}

/// A copy of `v`.
pub fn copy_values(v: &[u128]) -> (r: Vec<u128>)
    ensures
        r@ == v@,
{
    let mut out: Vec<u128> = Vec::new();
    let mut i: usize = 0;
    while i < v.len()
        invariant
            0 <= i <= v@.len(),
            out@ == v@.subrange(0, i as int),
        decreases v@.len() - i,
    {
        out.push(v[i]);
        i = i + 1;
        assert(out@ =~= v@.subrange(0, i as int));
    }
    assert(out@ =~= v@);
    out
}

} // verus!
