//! Resource identifiers: random names, and names that no other resource has.
use vstd::prelude::*;
use std::hash::BuildHasher;
use std::collections::hash_map::RandomState;
use crate::text_out::push_char;

verus! {

/// `RandomState::new`: a hasher builder keyed at random. Nothing is stated of its keys.
#[verifier::external_body]
fn new_random_state() -> RandomState {
    RandomState::new()
}

/// `BuildHasher::hash_one` of a byte under a `RandomState`. Its value depends on the random
/// keys, so nothing is stated of it.
#[verifier::external_body]
fn hash_one_byte(state: &RandomState, value: u8) -> u64 {
    state.hash_one(value)
}

/// A random 64-bit value: the hash of a constant under a freshly, randomly keyed
/// `RandomState`.
fn random_seed() -> u64 {
    let state = new_random_state();
    hash_one_byte(&state, 0u8)
}

/// Whether `c` is an ASCII letter or digit.
pub open spec fn is_alphanumeric(c: char) -> bool {
    ('0' <= c <= '9') || ('A' <= c <= 'Z') || ('a' <= c <= 'z')
}

/// The alphanumeric character with number `d` (below 62): digits, then upper-case,
/// then lower-case letters.
fn alphanumeric(d: u64) -> (c: char)
    requires
        d < 62,
    ensures
        is_alphanumeric(c),
{
    if d < 10 {
        ((48 + d) as u8) as char
    } else if d < 36 {
        ((55 + d) as u8) as char
    } else {
        ((61 + d) as u8) as char
    }
}

/// A random string of `len` ASCII letters and digits.
pub fn random_character_string(len: usize) -> (r: String)
    ensures
        r@.len() == len,
        forall|i: int| 0 <= i < len ==> is_alphanumeric(#[trigger] r@[i]),
{
    let mut state: u64 = random_seed() | 1;
    let mut s = String::new();
    let mut i: usize = 0;
    while i < len
        invariant
            i <= len,
            s@.len() == i,
            forall|k: int| 0 <= k < i ==> is_alphanumeric(#[trigger] s@[k]),
        decreases len - i,
    {
        state = state ^ (state << 13u64);
        state = state ^ (state >> 7u64);
        state = state ^ (state << 17u64);
        let c = alphanumeric(state % 62);
        push_char(&mut s, c);
        i = i + 1;
    }
    s
}

/// Whether some key equals `name`.
pub open spec fn name_taken(keys: Seq<Seq<char>>, name: Seq<char>) -> bool {
    keys.contains(name)
}

/// Whether one of the strings equals `name`.
fn contains_name(keys: &Vec<String>, name: &str) -> (r: bool)
    ensures
        r == name_taken(keys@.map_values(|k: String| k@), name@),
{
    let ghost view = keys@.map_values(|k: String| k@);
    let mut i: usize = 0;
    while i < keys.len()
        invariant
            i <= keys.len(),
            view == keys@.map_values(|k: String| k@),
            forall|j: int| 0 <= j < i ==> view[j] != name@,
        decreases keys.len() - i,
    {
        if crate::text_out::str_eq(keys[i].as_str(), name) {
            assert(view[i as int] == name@);
            return true;
        }
        i = i + 1;
    }
    false
}

/// `base` followed by `k` characters `0`.
pub open spec fn padded(base: Seq<char>, k: nat) -> Seq<char> {
    base + Seq::new(k, |i: int| '0')
}

proof fn lemma_not_all_taken(keys: Seq<Seq<char>>, base: Seq<char>, n: nat)
    requires
        n == keys.len() + 1,
    ensures
        exists|k: nat| k < n && !keys.contains(#[trigger] padded(base, k)),
{
    if forall|k: nat| k < n ==> keys.contains(#[trigger] padded(base, k)) {
        lemma_all_taken_impossible(keys, base, n);
    }
}

proof fn lemma_all_taken_impossible(keys: Seq<Seq<char>>, base: Seq<char>, n: nat)
    requires
        n == keys.len() + 1,
        forall|k: nat| k < n ==> keys.contains(#[trigger] padded(base, k)),
    ensures
        n <= keys.len(),
{
    let tried = Seq::new(n, |k: int| padded(base, k as nat));
    assert(tried.no_duplicates()) by {
        assert forall|a: int, b: int| 0 <= a < tried.len() && 0 <= b < tried.len() && a != b implies tried[a] != tried[b] by {
            assert(tried[a].len() == base.len() + a);
            assert(tried[b].len() == base.len() + b);
        }
    }
    tried.unique_seq_to_set();
    keys.lemma_cardinality_of_set();
    assert(tried.to_set().subset_of(keys.to_set())) by {
        assert forall|x: Seq<char>| tried.to_set().contains(x) implies keys.to_set().contains(x) by {
            let k = choose|k: int| 0 <= k < tried.len() && tried[k] == x;
            assert(keys.contains(padded(base, k as nat)));
        }
    }
    vstd::set_lib::lemma_len_subset(tried.to_set(), keys.to_set());
}

/// `base` if no key equals it; otherwise `base` followed by the fewest characters `0`
/// that make a name no key equals.
pub fn fresh_name(keys: &Vec<String>, base: String) -> (r: String)
    ensures
        !name_taken(keys@.map_values(|k: String| k@), r@),
        exists|k: nat| r@ == padded(base@, k) && forall|j: nat| j < k ==> name_taken(
            keys@.map_values(|k: String| k@),
            #[trigger] padded(base@, j),
        ),
{
    let ghost view = keys@.map_values(|k: String| k@);
    let mut name = base;
    let ghost b = name@;
    let ghost mut k: nat = 0;
    assert(name@ =~= padded(b, 0));
    while contains_name(keys, name.as_str())
        invariant
            view == keys@.map_values(|k: String| k@),
            name@ == padded(b, k),
            forall|j: nat| j < k ==> name_taken(view, #[trigger] padded(b, j)),
        decreases keys.len() + 1 - k,
    {
        proof {
            if k >= keys.len() + 1 {
                assert(name_taken(view, padded(b, k)));
                lemma_not_all_taken(view, b, (keys.len() + 1) as nat);
                let j = choose|j: nat| j < keys.len() + 1 && !view.contains(#[trigger] padded(b, j));
                assert(name_taken(view, padded(b, j)));
            }
        }
        push_char(&mut name, '0');
        proof {
            assert(name@ =~= padded(b, k + 1));
            k = k + 1;
        }
    }
    name
}

} // verus!
