use vstd::prelude::*;
use vstd::std_specs::iter::IteratorSpec;

verus! {

broadcast use vstd::string::axiom_spec_iter;

/// Copies the characters of `s` into a vector, one element per `char`.
pub fn chars_of(s: &str) -> (r: Vec<char>)
    ensures
        r@ == s@,
{
    let mut r: Vec<char> = Vec::new();
    for c in it: s.chars()
        invariant
            r@ == it.seq().take(it.index() as int),
            it.seq() == s@,
    {
        r.push(c);
    }
    r
}

} // verus!

verus! {

/// Number of characters from `i` up to (not including) the next newline or
/// the end of `s`.
pub open spec fn line_len_from(s: Seq<char>, i: int) -> nat
    decreases s.len() - i,
{
    if 0 <= i < s.len() && s[i] != '\n' {
        1 + line_len_from(s, i + 1)
    } else {
        0
    }
}

/// A line stays inside `s`, and ends at a newline or at the end of `s`.
pub proof fn lemma_line_len_bound(s: Seq<char>, i: int)
    requires
        0 <= i <= s.len(),
    ensures
        i + line_len_from(s, i) <= s.len(),
        i + line_len_from(s, i) < s.len() ==> s[i + line_len_from(s, i)] == '\n',
        forall|k: int| i <= k < i + line_len_from(s, i) ==> s[k] != '\n',
    decreases s.len() - i,
{
    if i < s.len() && s[i] != '\n' {
        lemma_line_len_bound(s, i + 1);
    }
}

/// Whether `key` occurs in `s` starting at position `i`.
pub open spec fn occurs_at(s: Seq<char>, i: int, key: Seq<char>) -> bool {
    0 <= i && i + key.len() <= s.len() && s.subrange(i, i + key.len()) == key
}

/// Position of the last occurrence of `c` among the first `n` characters of
/// `s`, or -1 when there is none.
pub open spec fn last_index_in(s: Seq<char>, c: char, n: int) -> int
    decreases n,
{
    if n <= 0 {
        -1
    } else if s[n - 1] == c {
        n - 1
    } else {
        last_index_in(s, c, n - 1)
    }
}

pub open spec fn last_index(s: Seq<char>, c: char) -> int {
    last_index_in(s, c, s.len() as int)
}

pub open spec fn is_digit(c: char) -> bool {
    '0' <= c && c <= '9'
}

pub open spec fn all_digits(s: Seq<char>) -> bool {
    forall|k: int| 0 <= k < s.len() ==> is_digit(#[trigger] s[k])
}

/// The number written by a string of decimal digits.
pub open spec fn decimal_value(s: Seq<char>) -> int
    decreases s.len(),
{
    if s.len() == 0 {
        0
    } else {
        decimal_value(s.drop_last()) * 10 + (s.last() as int - '0' as int)
    }
}

/// A non-negative decimal integer that fits in `u64`: one or more digits and
/// nothing else.
pub open spec fn number_of(s: Seq<char>) -> Option<u64> {
    if s.len() > 0 && all_digits(s) && decimal_value(s) <= u64::MAX {
        Some(decimal_value(s) as u64)
    } else {
        None
    }
}

/// End (exclusive) of the line that starts at `i`.
pub fn line_end(cs: &Vec<char>, i: usize) -> (e: usize)
    requires
        i <= cs@.len(),
    ensures
        e == i + line_len_from(cs@, i as int),
        e <= cs@.len(),
{
    let mut e: usize = i;
    while e < cs.len() && cs[e] != '\n'
        invariant
            i <= e <= cs@.len(),
            line_len_from(cs@, i as int) == (e - i) + line_len_from(cs@, e as int),
        decreases cs@.len() - e,
    {
        e = e + 1;
    }
    e
}

/// Whether `key` occurs in `cs` at position `i`.
pub fn occurs_at_exec(cs: &Vec<char>, i: usize, key: &Vec<char>) -> (r: bool)
    ensures
        r == occurs_at(cs@, i as int, key@),
{
    if i > cs.len() || key.len() > cs.len() - i {
        return false;
    }
    let end: usize = i + key.len();
    let mut k: usize = 0;
    while k < key.len()
        invariant
            end == i + key@.len(),
            end <= cs@.len(),
            0 <= k <= key@.len(),
            forall|j: int| 0 <= j < k ==> cs@[i + j] == key@[j],
        decreases key@.len() - k,
    {
        if cs[i + k] != key[k] {
            assert(cs@.subrange(i as int, i + key@.len())[k as int] != key@[k as int]);
            return false;
        }
        k = k + 1;
    }
    assert(cs@.subrange(i as int, i + key@.len()) =~= key@);
    true
}

/// Position of the last `c` in `cs`, or `None`.
pub fn last_index_exec(cs: &Vec<char>, c: char) -> (r: Option<usize>)
    ensures
        match r {
            Some(p) => p as int == last_index(cs@, c) && p < cs@.len(),
            None => last_index(cs@, c) == -1,
        },
{
    let mut r: Option<usize> = None;
    let mut i: usize = 0;
    while i < cs.len()
        invariant
            0 <= i <= cs@.len(),
            match r {
                Some(p) => p as int == last_index_in(cs@, c, i as int) && p < i,
                None => last_index_in(cs@, c, i as int) == -1,
            },
        decreases cs@.len() - i,
    {
        if cs[i] == c {
            r = Some(i);
        }
        i = i + 1;
    }
    r
}

proof fn lemma_decimal_nonneg(s: Seq<char>)
    requires
        all_digits(s),
    ensures
        decimal_value(s) >= 0,
    decreases s.len(),
{
    if s.len() > 0 {
        assert(is_digit(s[s.len() - 1]));
        assert(all_digits(s.drop_last()));
        lemma_decimal_nonneg(s.drop_last());
    }
}

/// A string of digits is worth at least as much as any of its prefixes.
proof fn lemma_decimal_prefix(s: Seq<char>, n: int)
    requires
        all_digits(s),
        0 <= n <= s.len(),
    ensures
        decimal_value(s) >= decimal_value(s.take(n)),
    decreases s.len(),
{
    if n < s.len() {
        assert(is_digit(s[s.len() - 1]));
        assert(all_digits(s.drop_last()));
        lemma_decimal_nonneg(s.drop_last());
        assert(s.drop_last().take(n) =~= s.take(n));
        lemma_decimal_prefix(s.drop_last(), n);
    } else {
        assert(s.take(n) =~= s);
    }
}

/// Reads a non-negative decimal integer that fits in `u64`.
pub fn parse_number(cs: &Vec<char>) -> (r: Option<u64>)
    ensures
        r == number_of(cs@),
{
    if cs.len() == 0 {
        return None;
    }
    let mut v: u64 = 0;
    let mut i: usize = 0;
    while i < cs.len()
        invariant
            0 <= i <= cs@.len(),
            all_digits(cs@.take(i as int)),
            v == decimal_value(cs@.take(i as int)),
        decreases cs@.len() - i,
    {
        let c = cs[i];
        if !('0' <= c && c <= '9') {
            assert(!is_digit(cs@[i as int]));
            return None;
        }
        let d: u64 = (c as u64) - ('0' as u64);
        assert(cs@.take(i + 1).drop_last() =~= cs@.take(i as int));
        assert(all_digits(cs@.take(i + 1)));
        match v.checked_mul(10) {
            None => {
                proof { lemma_prefix_overflow(cs@, i + 1); }
                return None;
            },
            Some(t) => match t.checked_add(d) {
                None => {
                    proof { lemma_prefix_overflow(cs@, i + 1); }
                    return None;
                },
                Some(w) => {
                    v = w;
                },
            },
        }
        i = i + 1;
    }
    assert(cs@.take(cs@.len() as int) =~= cs@);
    Some(v)
}

/// Once a prefix of digits exceeds `u64::MAX`, the whole string is no number.
proof fn lemma_prefix_overflow(s: Seq<char>, n: int)
    requires
        0 <= n <= s.len(),
        all_digits(s.take(n)),
        decimal_value(s.take(n)) > u64::MAX,
    ensures
        number_of(s) is None,
{
    if all_digits(s) {
        lemma_decimal_prefix(s, n);
    }
}

} // verus!
