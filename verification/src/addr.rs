//! Validation of the node address field: a dotted-quad IPv4 address
//! followed by `:` and a port number, e.g. `127.0.0.1:18332`.

use vstd::prelude::*;

use crate::text::{
    all_dec_digits, dec_val, find_ch, is_dec_digit, lemma_dec_val_lower, lemma_dec_val_upper,
    lemma_find_ch, lemma_pow10_mono, lemma_split_at_first, lemma_split_no_sep,
    lemma_split_with_sep_len, pow10, split_ch, valid_dec_field,
};

verus! {

/// An IPv4 octet: decimal, no leading zero, at most 255.
pub open spec fn valid_octet(s: Seq<char>) -> bool {
    valid_dec_field(s, 255)
}

/// A port number: decimal, no leading zero, at most 65535.
pub open spec fn valid_port(s: Seq<char>) -> bool {
    valid_dec_field(s, 65535)
}

/// A dotted-quad IPv4 address: exactly four octets separated by `.`.
pub open spec fn valid_ipv4(s: Seq<char>) -> bool {
    let parts = split_ch(s, '.');
    parts.len() == 4 && (forall|k: int| 0 <= k < 4 ==> valid_octet(#[trigger] parts[k]))
}

/// A socket address as the node step accepts it: IPv4 address, `:`, port.
pub open spec fn valid_socket_addr(s: Seq<char>) -> bool {
    let parts = split_ch(s, ':');
    parts.len() == 2 && valid_ipv4(parts[0]) && valid_port(parts[1])
}

/// First position of `c` within `s@[from..to]`, scanning left to right.
fn find_char_range(s: &str, from: usize, to: usize, c: char) -> (r: Option<usize>)
    requires
        from <= to <= s@.len(),
    ensures
        match r {
            Some(i) => from <= i < to && s@[i as int] == c && (forall|j: int|
                from <= j < i ==> #[trigger] s@[j] != c),
            None => forall|j: int| from <= j < to ==> #[trigger] s@[j] != c,
        },
{
    let mut i = from;
    while i < to
        invariant
            from <= i <= to <= s@.len(),
            forall|j: int| from <= j < i ==> #[trigger] s@[j] != c,
        decreases to - i,
    {
        if s.get_char(i) == c {
            return Some(i);
        }
        i = i + 1;
    }
    None
}

/// Checks that `s@[from..to]` is a decimal field with value at most `max`.
fn check_dec_field(s: &str, from: usize, to: usize, max: u32) -> (r: bool)
    requires
        from <= to <= s@.len(),
        max <= 65535,
    ensures
        r == valid_dec_field(s@.subrange(from as int, to as int), max as nat),
{
    let ghost w = s@.subrange(from as int, to as int);
    if to == from {
        return false;
    }
    if to - from > 5 {
        proof {
            if valid_dec_field(w, max as nat) {
                lemma_dec_val_lower(w);
                lemma_pow10_mono(5, (w.len() - 1) as nat);
                reveal_with_fuel(pow10, 7);
                assert(pow10(5) == 100000);
            }
        }
        return false;
    }
    let mut acc: u32 = 0;
    let mut i = from;
    while i < to
        invariant
            from <= i <= to <= s@.len(),
            to - from <= 5,
            w == s@.subrange(from as int, to as int),
            all_dec_digits(w.subrange(0, i - from)),
            acc == dec_val(w.subrange(0, i - from)),
            acc < 100000,
        decreases to - i,
    {
        let c = s.get_char(i);
        let v = c as u32;
        proof {
            assert(c as u32 == c as int);
        }
        if v < '0' as u32 || v > '9' as u32 {
            proof {
                assert(w[i - from] == s@[i as int]);
                assert(!is_dec_digit(w[i - from]));
            }
            return false;
        }
        let ghost pre = w.subrange(0, i - from);
        let ghost pre1 = w.subrange(0, i + 1 - from);
        proof {
            lemma_dec_val_upper(pre);
            lemma_pow10_mono(pre.len(), 4);
            reveal_with_fuel(pow10, 7);
            assert(pre1.drop_last() =~= pre);
            assert(pre1.last() == s@[i as int]);
        }
        acc = acc * 10 + (v - '0' as u32);
        i = i + 1;
    }
    proof {
        assert(w.subrange(0, to - from) =~= w);
    }
    if to - from > 1 {
        if s.get_char(from) == '0' {
            proof {
                assert(w[0] == s@[from as int]);
            }
            return false;
        }
    }
    acc <= max
}

/// Checks that `s@[from..to]` is a dotted-quad IPv4 address.
fn check_ipv4(s: &str, from: usize, to: usize) -> (r: bool)
    requires
        from <= to <= s@.len(),
    ensures
        r == valid_ipv4(s@.subrange(from as int, to as int)),
{
    let ghost t = s@.subrange(from as int, to as int);
    let d1 = match find_char_range(s, from, to, '.') {
        None => {
            proof {
                assert forall|j: int| 0 <= j < t.len() implies #[trigger] t[j] != '.' by {
                    assert(t[j] == s@[from + j]);
                }
                lemma_split_no_sep(t, '.');
            }
            return false;
        },
        Some(i) => i,
    };
    let ghost a = s@.subrange(from as int, d1 as int);
    let ghost rest1 = s@.subrange(d1 + 1, to as int);
    proof {
        assert(t[d1 - from] == s@[d1 as int]);
        assert forall|j: int| 0 <= j < d1 - from implies #[trigger] t[j] != '.' by {
            assert(t[j] == s@[from + j]);
        }
        lemma_split_at_first(t, '.', d1 - from);
        assert(t.subrange(0, d1 - from) =~= a);
        assert(t.subrange(d1 - from + 1, t.len() as int) =~= rest1);
    }
    let d2 = match find_char_range(s, d1 + 1, to, '.') {
        None => {
            proof {
                assert forall|j: int| 0 <= j < rest1.len() implies #[trigger] rest1[j] != '.' by {
                    assert(rest1[j] == s@[d1 + 1 + j]);
                }
                lemma_split_no_sep(rest1, '.');
                assert(split_ch(t, '.').len() == 2);
            }
            return false;
        },
        Some(i) => i,
    };
    let ghost b = s@.subrange(d2 + 1, to as int);
    let ghost bpart = s@.subrange(d1 + 1, d2 as int);
    proof {
        assert(rest1[d2 - (d1 + 1)] == s@[d2 as int]);
        assert forall|j: int| 0 <= j < d2 - (d1 + 1) implies #[trigger] rest1[j] != '.' by {
            assert(rest1[j] == s@[d1 + 1 + j]);
        }
        lemma_split_at_first(rest1, '.', d2 - (d1 + 1));
        assert(rest1.subrange(0, d2 - (d1 + 1)) =~= bpart);
        assert(rest1.subrange(d2 - (d1 + 1) + 1, rest1.len() as int) =~= b);
    }
    let ghost rest2 = s@.subrange(d2 + 1, to as int);
    let d3 = match find_char_range(s, d2 + 1, to, '.') {
        None => {
            proof {
                assert forall|j: int| 0 <= j < rest2.len() implies #[trigger] rest2[j] != '.' by {
                    assert(rest2[j] == s@[d2 + 1 + j]);
                }
                lemma_split_no_sep(rest2, '.');
                assert(split_ch(t, '.').len() == 3);
            }
            return false;
        },
        Some(i) => i,
    };
    let ghost cpart = s@.subrange(d2 + 1, d3 as int);
    let ghost rest3 = s@.subrange(d3 + 1, to as int);
    proof {
        assert(rest2[d3 - (d2 + 1)] == s@[d3 as int]);
        assert forall|j: int| 0 <= j < d3 - (d2 + 1) implies #[trigger] rest2[j] != '.' by {
            assert(rest2[j] == s@[d2 + 1 + j]);
        }
        lemma_split_at_first(rest2, '.', d3 - (d2 + 1));
        assert(rest2.subrange(0, d3 - (d2 + 1)) =~= cpart);
        assert(rest2.subrange(d3 - (d2 + 1) + 1, rest2.len() as int) =~= rest3);
    }
    match find_char_range(s, d3 + 1, to, '.') {
        Some(i) => {
            proof {
                assert(rest3[i - (d3 + 1)] == s@[i as int]);
                lemma_find_ch(rest3, '.');
                if find_ch(rest3, '.') == -1 {
                    assert(rest3[i - (d3 + 1)] != '.');
                }
                lemma_split_with_sep_len(rest3, '.');
                assert(split_ch(t, '.').len() >= 5);
            }
            return false;
        },
        None => {
            proof {
                assert forall|j: int| 0 <= j < rest3.len() implies #[trigger] rest3[j] != '.' by {
                    assert(rest3[j] == s@[d3 + 1 + j]);
                }
                lemma_split_no_sep(rest3, '.');
            }
        },
    }
    let ghost parts = split_ch(t, '.');
    proof {
        assert(parts.len() == 4);
        assert(parts[0] == a);
        assert(parts[1] == bpart);
        assert(parts[2] == cpart);
        assert(parts[3] == rest3);
    }
    let oa = check_dec_field(s, from, d1, 255);
    let ob = check_dec_field(s, d1 + 1, d2, 255);
    let oc = check_dec_field(s, d2 + 1, d3, 255);
    let od = check_dec_field(s, d3 + 1, to, 255);
    let r = oa && ob && oc && od;
    proof {
        if r {
            assert forall|k: int| 0 <= k < 4 implies valid_octet(#[trigger] parts[k]) by {
                if k == 0 {
                } else if k == 1 {
                } else if k == 2 {
                } else {
                }
            }
        }
    }
    r
}

/// Whether the address field holds a well-formed `IPv4:port` socket address.
pub fn is_valid_socket_addr(s: &str) -> (r: bool)
    ensures
        r == valid_socket_addr(s@),
{
    let n = s.unicode_len();
    let ci = match find_char_range(s, 0, n, ':') {
        None => {
            proof {
                lemma_split_no_sep(s@, ':');
            }
            return false;
        },
        Some(i) => i,
    };
    let ghost ip = s@.subrange(0, ci as int);
    let ghost rest = s@.subrange(ci + 1, n as int);
    proof {
        lemma_split_at_first(s@, ':', ci as int);
        assert(s@.subrange(ci + 1, s@.len() as int) =~= rest);
    }
    let ip_ok = check_ipv4(s, 0, ci);
    let port_ok = check_dec_field(s, ci + 1, n, 65535);
    proof {
        let parts = split_ch(s@, ':');
        if port_ok {
            assert forall|j: int| 0 <= j < rest.len() implies #[trigger] rest[j] != ':' by {
                assert(is_dec_digit(rest[j]));
            }
            lemma_split_no_sep(rest, ':');
            assert(parts.len() == 2 && parts[0] == ip && parts[1] == rest);
        } else {
            lemma_find_ch(rest, ':');
            if find_ch(rest, ':') == -1 {
                lemma_split_no_sep(rest, ':');
                assert(parts.len() == 2 && parts[1] == rest);
            } else {
                lemma_split_with_sep_len(rest, ':');
                assert(parts.len() >= 3);
            }
        }
    }
    ip_ok && port_ok
}

} // verus!
