//! Byte-string models shared by every backend: little- and big-endian
//! integer values of byte strings, the all-zero string, concatenation of a
//! list of input parts, and the lemmas relating them.

use vstd::prelude::*;

verus! {

/// The integer value of a byte string read little-endian (first byte least
/// significant).
pub open spec fn le_val(s: Seq<u8>) -> nat
    decreases s.len(),
{
    if s.len() == 0 {
        0
    } else {
        (s[0] + 256 * le_val(s.skip(1))) as nat
    }
}

/// The integer value of a byte string read big-endian (last byte least
/// significant).
pub open spec fn be_val(s: Seq<u8>) -> nat
    decreases s.len(),
{
    if s.len() == 0 {
        0
    } else {
        (s.last() + 256 * be_val(s.drop_last())) as nat
    }
}

/// The all-zero byte string of length `n`.
pub open spec fn zeros_seq(n: nat) -> Seq<u8> {
    Seq::new(n, |i: int| 0u8)
}

/// The concatenation of a list of byte strings, in order.
pub open spec fn flatten_views(parts: Seq<Vec<u8>>) -> Seq<u8>
    decreases parts.len(),
{
    if parts.len() == 0 {
        Seq::empty()
    } else {
        parts[0]@ + flatten_views(parts.skip(1))
    }
}

/// A byte string has value zero exactly when every byte is zero.
pub proof fn lemma_le_val_zero(s: Seq<u8>)
    ensures
        le_val(s) == 0 <==> s == zeros_seq(s.len()),
    decreases s.len(),
{
    if s.len() == 0 {
        assert(s =~= zeros_seq(s.len()));
    } else {
        lemma_le_val_zero(s.skip(1));
        if le_val(s) == 0 {
            assert(s[0] == 0);
            assert(le_val(s.skip(1)) == 0);
            assert(s.skip(1) == zeros_seq(s.skip(1).len()));
            assert forall|i: int| 0 <= i < s.len() implies s[i] == 0u8 by {
                if i > 0 {
                    assert(s.skip(1)[i - 1] == 0u8);
                }
            }
            assert(s =~= zeros_seq(s.len()));
        } else {
            if s == zeros_seq(s.len()) {
                assert(s[0] == 0);
                assert forall|i: int| 0 <= i < s.skip(1).len() implies s.skip(1)[i] == 0u8 by {
                    assert(s[i + 1] == 0u8);
                }
                assert(s.skip(1) =~= zeros_seq(s.skip(1).len()));
                assert(le_val(s) == 0);
            }
        }
    }
}

/// Equal-length byte strings with the same little-endian value are equal.
pub proof fn lemma_le_val_injective(a: Seq<u8>, b: Seq<u8>)
    requires
        a.len() == b.len(),
        le_val(a) == le_val(b),
    ensures
        a == b,
    decreases a.len(),
{
    if a.len() == 0 {
        assert(a =~= b);
    } else {
        let x = le_val(a.skip(1));
        let y = le_val(b.skip(1));
        assert(a[0] + 256 * x == b[0] + 256 * y);
        vstd::arithmetic::div_mod::lemma_mod_multiples_vanish(x as int, a[0] as int, 256);
        vstd::arithmetic::div_mod::lemma_mod_multiples_vanish(y as int, b[0] as int, 256);
        vstd::arithmetic::div_mod::lemma_small_mod(a[0] as nat, 256);
        vstd::arithmetic::div_mod::lemma_small_mod(b[0] as nat, 256);
        assert(a[0] == (a[0] + 256 * x) % 256);
        assert(b[0] == (b[0] + 256 * y) % 256);
        assert(a[0] == b[0]);
        assert(x == y);
        lemma_le_val_injective(a.skip(1), b.skip(1));
        assert forall|i: int| 0 <= i < a.len() implies a[i] == b[i] by {
            if i > 0 {
                assert(a.skip(1)[i - 1] == b.skip(1)[i - 1]);
            }
        }
        assert(a =~= b);
    }
}

/// Equal-length byte strings with the same big-endian value are equal.
pub proof fn lemma_be_val_injective(a: Seq<u8>, b: Seq<u8>)
    requires
        a.len() == b.len(),
        be_val(a) == be_val(b),
    ensures
        a == b,
    decreases a.len(),
{
    if a.len() == 0 {
        assert(a =~= b);
    } else {
        let x = be_val(a.drop_last());
        let y = be_val(b.drop_last());
        assert(a.last() + 256 * x == b.last() + 256 * y);
        vstd::arithmetic::div_mod::lemma_mod_multiples_vanish(x as int, a.last() as int, 256);
        vstd::arithmetic::div_mod::lemma_mod_multiples_vanish(y as int, b.last() as int, 256);
        vstd::arithmetic::div_mod::lemma_small_mod(a.last() as nat, 256);
        vstd::arithmetic::div_mod::lemma_small_mod(b.last() as nat, 256);
        assert(a.last() == b.last());
        assert(x == y);
        lemma_be_val_injective(a.drop_last(), b.drop_last());
        assert forall|i: int| 0 <= i < a.len() implies a[i] == b[i] by {
            if i < a.len() - 1 {
                assert(a.drop_last()[i] == b.drop_last()[i]);
            }
        }
        assert(a =~= b);
    }
}

/// A byte string has big-endian value zero exactly when every byte is zero.
pub proof fn lemma_be_val_zero(s: Seq<u8>)
    ensures
        be_val(s) == 0 <==> s == zeros_seq(s.len()),
    decreases s.len(),
{
    if s.len() == 0 {
        assert(s =~= zeros_seq(s.len()));
    } else {
        lemma_be_val_zero(s.drop_last());
        if be_val(s) == 0 {
            assert(s.last() == 0);
            assert(s.drop_last() == zeros_seq(s.drop_last().len()));
            assert forall|i: int| 0 <= i < s.len() implies s[i] == 0u8 by {
                if i < s.len() - 1 {
                    assert(s.drop_last()[i] == 0u8);
                }
            }
            assert(s =~= zeros_seq(s.len()));
        } else {
            if s == zeros_seq(s.len()) {
                assert forall|i: int| 0 <= i < s.drop_last().len() implies s.drop_last()[i]
                    == 0u8 by {
                    assert(s[i] == 0u8);
                }
                assert(s.drop_last() =~= zeros_seq(s.drop_last().len()));
                assert(be_val(s) == 0);
            }
        }
    }
}

/// A fresh vector holding `n` zero bytes.
pub fn zeros_vec(n: usize) -> (r: Vec<u8>)
    ensures
        r@ == zeros_seq(n as nat),
{
    let mut r: Vec<u8> = Vec::new();
    let mut i: usize = 0;
    while i < n
        invariant
            i <= n,
            r@ =~= zeros_seq(i as nat),
        decreases n - i,
    {
        r.push(0u8);
        assert(r@ =~= zeros_seq((i + 1) as nat));
        i = i + 1;
    }
    assert(r@ =~= zeros_seq(n as nat));
    r
}

/// A copy of a byte vector.
pub fn copy_bytes(b: &Vec<u8>) -> (r: Vec<u8>)
    ensures
        r@ == b@,
{
    let mut r: Vec<u8> = Vec::new();
    let mut i: usize = 0;
    while i < b.len()
        invariant
            i <= b.len(),
            r@ =~= b@.take(i as int),
        decreases b.len() - i,
    {
        r.push(b[i]);
        assert(r@ =~= b@.take((i + 1) as int));
        i = i + 1;
    }
    assert(r@ =~= b@);
    r
}

/// Appends every byte of `src` to `dst`.
pub fn append_bytes(dst: &mut Vec<u8>, src: &Vec<u8>)
    ensures
        final(dst)@ == old(dst)@ + src@,
{
    let ghost base = dst@;
    let mut i: usize = 0;
    while i < src.len()
        invariant
            i <= src.len(),
            dst@ =~= base + src@.take(i as int),
        decreases src.len() - i,
    {
        dst.push(src[i]);
        assert(dst@ =~= base + src@.take((i + 1) as int));
        i = i + 1;
    }
    assert(dst@ =~= base + src@);
}

/// Concatenates a list of byte strings into one message.
pub fn concat_parts(parts: &Vec<Vec<u8>>) -> (r: Vec<u8>)
    ensures
        r@ == flatten_views(parts@),
{
    let mut r: Vec<u8> = Vec::new();
    let mut i: usize = 0;
    proof {
        assert(parts@.skip(0) =~= parts@);
        assert(Seq::<u8>::empty() + flatten_views(parts@) =~= flatten_views(parts@));
    }
    while i < parts.len()
        invariant
            i <= parts.len(),
            flatten_views(parts@) == r@ + flatten_views(parts@.skip(i as int)),
        decreases parts.len() - i,
    {
        let ghost rest = parts@.skip(i as int);
        proof {
            assert(rest.len() > 0);
            assert(rest[0] == parts@[i as int]);
            assert(rest.skip(1) =~= parts@.skip(i as int + 1));
            assert(flatten_views(rest) == parts@[i as int]@ + flatten_views(
                parts@.skip(i as int + 1),
            ));
        }
        let ghost before = r@;
        append_bytes(&mut r, &parts[i]);
        proof {
            assert(r@ == before + parts@[i as int]@);
            assert(r@ + flatten_views(parts@.skip(i as int + 1)) =~= before + flatten_views(
                parts@.skip(i as int),
            ));
        }
        i = i + 1;
    }
    proof {
        assert(parts@.skip(parts@.len() as int) =~= Seq::<Vec<u8>>::empty());
        assert(r@ + Seq::<u8>::empty() =~= r@);
    }
    r
}

} // verus!
