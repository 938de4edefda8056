//! Character-sequence helpers shared by the field validators: decimal
//! fields, searching for a separator, splitting on a separator, and
//! substring containment.

use vstd::prelude::*;

verus! {

/// An ASCII decimal digit.
pub open spec fn is_dec_digit(c: char) -> bool {
    '0' as int <= c as int && c as int <= '9' as int
}

/// Numeric value of a single decimal digit.
pub open spec fn digit_val(c: char) -> nat {
    ((c as int) - ('0' as int)) as nat
}

/// Every character of `s` is a decimal digit.
pub open spec fn all_dec_digits(s: Seq<char>) -> bool {
    forall|i: int| 0 <= i < s.len() ==> is_dec_digit(#[trigger] s[i])
}

/// Value of a decimal digit string, most significant digit first.
pub open spec fn dec_val(s: Seq<char>) -> nat
    decreases s.len(),
{
    if s.len() == 0 {
        0
    } else {
        dec_val(s.drop_last()) * 10 + digit_val(s.last())
    }
}

/// Ten to the `n`-th power.
pub open spec fn pow10(n: nat) -> nat
    decreases n,
{
    if n == 0 {
        1
    } else {
        10 * pow10((n - 1) as nat)
    }
}

pub proof fn lemma_pow10_mono(a: nat, b: nat)
    requires
        a <= b,
    ensures
        pow10(a) <= pow10(b),
    decreases b,
{
    if a < b {
        lemma_pow10_mono(a, (b - 1) as nat);
        assert(pow10(b) == 10 * pow10((b - 1) as nat));
    }
}

/// A decimal field as the validators accept it: non-empty, digits only,
/// no leading zero, and value at most `max`.
pub open spec fn valid_dec_field(s: Seq<char>, max: nat) -> bool {
    &&& s.len() > 0
    &&& all_dec_digits(s)
    &&& (s.len() > 1 ==> s[0] != '0')
    &&& dec_val(s) <= max
}

pub proof fn lemma_dec_val_upper(s: Seq<char>)
    requires
        all_dec_digits(s),
    ensures
        dec_val(s) < pow10(s.len()),
    decreases s.len(),
{
    if s.len() > 0 {
        lemma_dec_val_upper(s.drop_last());
    }
}

pub proof fn lemma_dec_val_lower(s: Seq<char>)
    requires
        all_dec_digits(s),
        s.len() > 0,
        s[0] != '0',
    ensures
        dec_val(s) >= pow10((s.len() - 1) as nat),
    decreases s.len(),
{
    if s.len() > 1 {
        assert(s.drop_last()[0] == s[0]);
        lemma_dec_val_lower(s.drop_last());
    } else {
        assert(s.drop_last().len() == 0);
        assert(is_dec_digit(s[0]) && s[0] != '0');
        assert(digit_val(s.last()) >= 1);
    }
}

/// Index of the first occurrence of `c` in `s`, or -1 when absent.
pub open spec fn find_ch(s: Seq<char>, c: char) -> int
    decreases s.len(),
{
    if s.len() == 0 {
        -1
    } else if s[0] == c {
        0
    } else {
        let r = find_ch(s.subrange(1, s.len() as int), c);
        if r < 0 {
            -1
        } else {
            r + 1
        }
    }
}

pub proof fn lemma_find_ch(s: Seq<char>, c: char)
    ensures
        find_ch(s, c) == -1 ==> (forall|j: int| 0 <= j < s.len() ==> #[trigger] s[j] != c),
        find_ch(s, c) != -1 ==> {
            let i = find_ch(s, c);
            &&& 0 <= i < s.len()
            &&& s[i] == c
            &&& (forall|j: int| 0 <= j < i ==> #[trigger] s[j] != c)
        },
    decreases s.len(),
{
    if s.len() > 0 && s[0] != c {
        let t = s.subrange(1, s.len() as int);
        lemma_find_ch(t, c);
        assert(forall|j: int| 1 <= j < s.len() ==> #[trigger] s[j] == t[j - 1]);
    }
}

/// The first occurrence determines `find_ch`.
pub proof fn lemma_find_ch_at(s: Seq<char>, c: char, i: int)
    requires
        0 <= i < s.len(),
        s[i] == c,
        forall|j: int| 0 <= j < i ==> #[trigger] s[j] != c,
    ensures
        find_ch(s, c) == i,
{
    lemma_find_ch(s, c);
    let r = find_ch(s, c);
    if r == -1 {
        assert(s[i] != c);
    } else if r < i {
        assert(s[r] != c);
    } else if r > i {
        assert(s[i] != c);
    }
}

pub proof fn lemma_find_ch_none(s: Seq<char>, c: char)
    requires
        forall|j: int| 0 <= j < s.len() ==> #[trigger] s[j] != c,
    ensures
        find_ch(s, c) == -1,
{
    lemma_find_ch(s, c);
    let r = find_ch(s, c);
    if r != -1 {
        assert(s[r] != c);
    }
}

/// `s` split on every occurrence of `c`; a sequence of `n` separators
/// yields `n + 1` chunks, in order, none containing `c`.
pub open spec fn split_ch(s: Seq<char>, c: char) -> Seq<Seq<char>>
    decreases s.len(),
{
    let i = find_ch(s, c);
    if 0 <= i < s.len() {
        seq![s.subrange(0, i)] + split_ch(s.subrange(i + 1, s.len() as int), c)
    } else {
        seq![s]
    }
}

pub proof fn lemma_split_no_sep(s: Seq<char>, c: char)
    requires
        forall|j: int| 0 <= j < s.len() ==> #[trigger] s[j] != c,
    ensures
        split_ch(s, c) == seq![s],
{
    lemma_find_ch_none(s, c);
}

pub proof fn lemma_split_at_first(s: Seq<char>, c: char, i: int)
    requires
        0 <= i < s.len(),
        s[i] == c,
        forall|j: int| 0 <= j < i ==> #[trigger] s[j] != c,
    ensures
        split_ch(s, c) == seq![s.subrange(0, i)] + split_ch(
            s.subrange(i + 1, s.len() as int),
            c,
        ),
{
    lemma_find_ch_at(s, c, i);
}

pub proof fn lemma_split_len_ge1(s: Seq<char>, c: char)
    ensures
        split_ch(s, c).len() >= 1,
{
    let i = find_ch(s, c);
    if 0 <= i < s.len() {
        assert(split_ch(s, c) == seq![s.subrange(0, i)] + split_ch(
            s.subrange(i + 1, s.len() as int),
            c,
        ));
    } else {
        assert(split_ch(s, c) == seq![s]);
    }
}

pub proof fn lemma_split_with_sep_len(s: Seq<char>, c: char)
    requires
        find_ch(s, c) != -1,
    ensures
        split_ch(s, c).len() >= 2,
{
    lemma_find_ch(s, c);
    let i = find_ch(s, c);
    let rest = s.subrange(i + 1, s.len() as int);
    assert(split_ch(s, c) == seq![s.subrange(0, i)] + split_ch(rest, c));
    lemma_split_len_ge1(rest, c);
}

/// `needle` occurs contiguously inside `hay`.
pub open spec fn has_substring(hay: Seq<char>, needle: Seq<char>) -> bool {
    exists|i: int|
        0 <= i <= hay.len() - needle.len() && #[trigger] hay.subrange(
            i,
            i + needle.len(),
        ) == needle
}

/// Whether `hay` contains `needle` as a contiguous run of characters.
pub fn contains_str(hay: &str, needle: &str) -> (r: bool)
    ensures
        r == has_substring(hay@, needle@),
{
    let hn = hay.unicode_len();
    let nn = needle.unicode_len();
    if nn == 0 {
        proof {
            assert(hay@.subrange(0, 0 + needle@.len() as int) =~= needle@);
        }
        return true;
    }
    if nn > hn {
        proof {
            if has_substring(hay@, needle@) {
                let i = choose|i: int|
                    0 <= i <= hay@.len() - needle@.len() && #[trigger] hay@.subrange(
                        i,
                        i + needle@.len(),
                    ) == needle@;
                assert(i >= 0 && i < 0);
            }
        }
        return false;
    }
    let mut i: usize = 0;
    while i <= hn - nn
        invariant
            1 <= nn <= hn,
            hn == hay@.len(),
            nn == needle@.len(),
            0 <= i <= hn - nn + 1,
            forall|k: int|
                0 <= k < i ==> #[trigger] hay@.subrange(k, k + needle@.len()) != needle@,
        decreases hn - nn + 1 - i,
    {
        let mut j: usize = 0;
        let mut matched = true;
        while j < nn
            invariant
                nn <= hn,
                hn == hay@.len(),
                nn == needle@.len(),
                0 <= i <= hn - nn,
                0 <= j <= nn,
                matched ==> (forall|t: int| 0 <= t < j ==> hay@[i + t] == #[trigger] needle@[t]),
                !matched ==> hay@.subrange(i as int, i + needle@.len()) != needle@,
            decreases nn - j,
        {
            if matched {
                let hc = hay.get_char(i + j);
                let nc = needle.get_char(j);
                if hc != nc {
                    proof {
                        let sub = hay@.subrange(i as int, i + needle@.len());
                        assert(sub[j as int] == hay@[i + j]);
                    }
                    matched = false;
                }
            }
            j = j + 1;
        }
        if matched {
            proof {
                let sub = hay@.subrange(i as int, i + needle@.len());
                assert forall|t: int| 0 <= t < needle@.len() implies sub[t] == needle@[t] by {
                    assert(hay@[i + t] == needle@[t]);
                }
                assert(sub =~= needle@);
            }
            return true;
        }
        i = i + 1;
    }
    proof {
        assert forall|k: int| 0 <= k <= hay@.len() - needle@.len() implies #[trigger] hay@.subrange(
            k,
            k + needle@.len(),
        ) != needle@ by {}
    }
    false
}

} // verus!
