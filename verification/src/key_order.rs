//! The order of string keys: strings are ordered by their UTF-8 bytes, lexicographically.
use vstd::prelude::*;
use vstd::utf8::{encode_utf8, encode_utf8_decode_utf8};

verus! {

/// Whether the bytes `a` come before the bytes `b`: at the first position where they differ
/// the byte of `a` is smaller, or `a` is a proper prefix of `b`.
pub open spec fn bytes_before(a: Seq<u8>, b: Seq<u8>) -> bool
    decreases a.len(),
{
    if b.len() == 0 {
        false
    } else if a.len() == 0 {
        true
    } else if a[0] != b[0] {
        a[0] < b[0]
    } else {
        bytes_before(a.drop_first(), b.drop_first())
    }
}

/// Whether the key `a` comes before the key `b`, in the order of strings: by their bytes.
pub open spec fn key_before(a: Seq<char>, b: Seq<char>) -> bool {
    bytes_before(encode_utf8(a), encode_utf8(b))
}

/// No bytes come before themselves.
pub proof fn lemma_bytes_before_irreflexive(a: Seq<u8>)
    ensures
        !bytes_before(a, a),
    decreases a.len(),
{
    if a.len() > 0 {
        lemma_bytes_before_irreflexive(a.drop_first());
    }
}

/// The order of bytes is transitive.
pub proof fn lemma_bytes_before_transitive(a: Seq<u8>, b: Seq<u8>, c: Seq<u8>)
    requires
        bytes_before(a, b),
        bytes_before(b, c),
    ensures
        bytes_before(a, c),
    decreases a.len(),
{
    if a.len() > 0 && a[0] == b[0] && b[0] == c[0] {
        lemma_bytes_before_transitive(a.drop_first(), b.drop_first(), c.drop_first());
    }
}

/// Of two different byte sequences, one comes before the other.
pub proof fn lemma_bytes_before_total(a: Seq<u8>, b: Seq<u8>)
    requires
        a != b,
    ensures
        bytes_before(a, b) || bytes_before(b, a),
    decreases a.len(),
{
    if a.len() == 0 {
        assert(b.len() != 0) by {
            if b.len() == 0 {
                assert(a =~= b);
            }
        }
    } else if b.len() > 0 && a[0] == b[0] {
        if a.drop_first() == b.drop_first() {
            assert(a =~= seq![a[0]] + a.drop_first());
            assert(b =~= seq![b[0]] + b.drop_first());
        }
        lemma_bytes_before_total(a.drop_first(), b.drop_first());
    }
}

/// No key comes before itself; the order of keys is transitive; of two different keys, one
/// comes before the other.
pub proof fn lemma_key_order(a: Seq<char>, b: Seq<char>, c: Seq<char>)
    ensures
        !key_before(a, a),
        key_before(a, b) && key_before(b, c) ==> key_before(a, c),
        a != b ==> key_before(a, b) || key_before(b, a),
{
    lemma_bytes_before_irreflexive(encode_utf8(a));
    if key_before(a, b) && key_before(b, c) {
        lemma_bytes_before_transitive(encode_utf8(a), encode_utf8(b), encode_utf8(c));
    }
    if a != b {
        encode_utf8_decode_utf8(a);
        encode_utf8_decode_utf8(b);
        lemma_bytes_before_total(encode_utf8(a), encode_utf8(b));
    }
}

/// Whether the string `a` comes before the string `b`.
pub fn str_before(a: &str, b: &str) -> (r: bool)
    ensures
        r == key_before(a@, b@),
{
    let x = a.as_bytes();
    let y = b.as_bytes();
    assert(x@ == encode_utf8(a@));
    assert(y@ == encode_utf8(b@));
    assert(x@.skip(0) =~= x@);
    assert(y@.skip(0) =~= y@);
    let mut i: usize = 0;
    while i < x.len() && i < y.len()
        invariant
            i <= x@.len(),
            i <= y@.len(),
            x@ == encode_utf8(a@),
            y@ == encode_utf8(b@),
            bytes_before(x@, y@) == bytes_before(x@.skip(i as int), y@.skip(i as int)),
        decreases x@.len() - i,
    {
        assert(x@.skip(i as int).len() > 0 && x@.skip(i as int)[0] == x@[i as int]);
        assert(y@.skip(i as int).len() > 0 && y@.skip(i as int)[0] == y@[i as int]);
        if x[i] != y[i] {
            assert(bytes_before(x@.skip(i as int), y@.skip(i as int)) == (x@[i as int] < y@[i as int]));
            return x[i] < y[i];
        }
        assert(x@.skip(i as int).drop_first() =~= x@.skip(i + 1));
        assert(y@.skip(i as int).drop_first() =~= y@.skip(i + 1));
        i = i + 1;
    }
    assert(x@.skip(i as int).len() == x@.len() - i);
    i < y.len()
}

} // verus!

verus! {

/// Whether keys come in the order of strings (and so each at most once).
pub open spec fn keys_in_order(ks: Seq<Seq<char>>) -> bool {
    forall|i: int, j: int| #![trigger ks[i], ks[j]] 0 <= i < j < ks.len() ==> key_before(ks[i], ks[j])
}

/// Keys in order occur each at most once.
pub proof fn lemma_keys_in_order_distinct(ks: Seq<Seq<char>>)
    requires
        keys_in_order(ks),
    ensures
        ks.no_duplicates(),
{
    assert forall|i: int, j: int| 0 <= i < ks.len() && 0 <= j < ks.len() && i != j implies ks[i] != ks[j] by {
        if i < j {
            assert(key_before(ks[i], ks[j]));
        } else {
            assert(key_before(ks[j], ks[i]));
        }
        lemma_key_order(ks[i], ks[i], ks[i]);
    }
}

/// Inserting a key at the position where it belongs keeps the keys in order.
pub proof fn lemma_keys_in_order_insert(ks: Seq<Seq<char>>, p: int, k: Seq<char>)
    requires
        keys_in_order(ks),
        0 <= p <= ks.len(),
        forall|j: int| 0 <= j < p ==> key_before(#[trigger] ks[j], k),
        p < ks.len() ==> key_before(k, ks[p]),
    ensures
        keys_in_order(ks.insert(p, k)),
{
    let after = ks.insert(p, k);
    assert forall|a: int, b: int| #![trigger after[a], after[b]] 0 <= a < b < after.len() implies key_before(
        after[a],
        after[b],
    ) by {
        if a < p && b == p {
        } else if a < p && b > p {
            assert(key_before(ks[a], ks[b - 1]));
        } else if a == p && b > p {
            if b - 1 > p {
                assert(key_before(ks[p], ks[b - 1]));
                lemma_key_order(k, ks[p], ks[b - 1]);
            }
        } else if a > p {
            assert(key_before(ks[a - 1], ks[b - 1]));
        } else {
            assert(key_before(ks[a], ks[b]));
        }
    }
}

} // verus!
