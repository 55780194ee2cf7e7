use vstd::prelude::*;
use vstd::string::StringExecFns;
use vstd::string::StrSliceExecFns;

verus! {

/// c is a decimal digit.
pub open spec fn is_digit(c: char) -> bool {
    48 <= c as int && c as int <= 57
}

/// Every character of s is a decimal digit.
pub open spec fn all_digits(s: Seq<char>) -> bool {
    forall|i: int| 0 <= i < s.len() ==> is_digit(s[i])
}

/// The number the digit string s writes, most significant digit first.
pub open spec fn digits_val(s: Seq<char>) -> int
    decreases s.len(),
{
    if s.len() == 0 {
        0
    } else {
        digits_val(s.drop_last()) * 10 + (s.last() as int - 48)
    }
}

/// v clamped into [1, 500].
pub open spec fn clamped(v: int) -> int {
    if v < 1 {
        1
    } else if v > 500 {
        500
    } else {
        v
    }
}

/// The index of the first occurrence of c in s, or s.len() where there is
/// none.
pub open spec fn first_at(s: Seq<char>, c: char) -> nat
    decreases s.len(),
{
    if s.len() == 0 {
        0
    } else if s[0] == c {
        0
    } else {
        1 + first_at(s.drop_first(), c)
    }
}

/// first_at is pinned down by its characterization: nothing before it is
/// c, and it is either c or the end.
proof fn lemma_first_at_is(s: Seq<char>, c: char, i: int)
    requires
        0 <= i <= s.len(),
        forall|j: int| 0 <= j < i ==> s[j] != c,
        i < s.len() ==> s[i] == c,
    ensures
        first_at(s, c) == i,
    decreases s.len(),
{
    if s.len() > 0 && i > 0 {
        lemma_first_at_is(s.drop_first(), c, i - 1);
    }
}

/// The value of the first '&'-separated `count=...` pair of the query
/// string, if any.
pub open spec fn count_value(q: Seq<char>) -> Option<Seq<char>>
    decreases q.len(),
{
    let amp: nat = first_at(q, '&');
    let pair = q.take(amp as int);
    let eq: nat = first_at(pair, '=');
    if eq < pair.len() && pair.take(eq as int) == "count"@ {
        Some(pair.subrange(eq as int + 1, pair.len() as int))
    } else if amp >= q.len() {
        None
    } else {
        count_value(q.subrange(amp as int + 1, q.len() as int))
    }
}

/// The effective count for a bulk-lookup request with query string q: the
/// value of the `count` parameter read as a number and clamped into
/// [1, 500]; 1 where the parameter is missing, empty or not a number.
pub open spec fn count_of_query(q: Option<Seq<char>>) -> int {
    match q {
        Option::None => 1,
        Option::Some(s) => match count_value(s) {
            Option::None => 1,
            Option::Some(v) => if v.len() > 0 && all_digits(v) {
                clamped(digits_val(v))
            } else {
                1
            },
        },
    }
}

/// The effective count is always in [1, 500], whatever the query string
/// holds: negative, zero, huge, non-numeric and missing values are all
/// silently normalized, never an error.
pub proof fn lemma_count_in_range(q: Option<Seq<char>>)
    ensures
        1 <= count_of_query(q) <= 500,
{
}

/// The view of an optional query string.
pub open spec fn query_view(q: Option<String>) -> Option<Seq<char>> {
    match q {
        Option::None => Option::None,
        Option::Some(s) => Option::Some(s@),
    }
}

/// The first index in [from, to) where c stands, or to where none does.
fn scan_until(s: &str, from: usize, to: usize, c: char) -> (idx: usize)
    requires
        from <= to <= s@.len(),
    ensures
        from <= idx <= to,
        forall|j: int| from <= j < idx ==> s@[j] != c,
        idx < to ==> s@[idx as int] == c,
{
    let mut i: usize = from;
    while i < to
        invariant
            from <= i <= to <= s@.len(),
            forall|j: int| from <= j < i ==> s@[j] != c,
        decreases to - i,
    {
        if s.get_char(i) == c {
            return i;
        }
        i += 1;
    }
    to
}

/// digits_val over a prefix, capped at 501, as the parsing loop tracks it.
spec fn capped_501(v: int) -> int {
    if v > 501 {
        501
    } else {
        v
    }
}

/// Read a digit string as a number clamped into [1, 500]; 1 where it is
/// empty or holds a non-digit.
fn parse_clamped(v: &str) -> (n: u16)
    ensures
        n as int == if v@.len() > 0 && all_digits(v@) {
            clamped(digits_val(v@))
        } else {
            1
        },
{
    let m: usize = v.unicode_len();
    if m == 0 {
        return 1;
    }
    let mut acc: u32 = 0;
    let mut i: usize = 0;
    while i < m
        invariant
            0 < m,
            m as nat == v@.len(),
            i <= m,
            all_digits(v@.take(i as int)),
            0 <= digits_val(v@.take(i as int)),
            acc as int == capped_501(digits_val(v@.take(i as int))),
        decreases m - i,
    {
        let c = v.get_char(i);
        let u: u32 = c as u32;
        if u < 48 || u > 57 {
            proof {
                assert(!is_digit(v@[i as int]));
            }
            return 1;
        }
        let d: u32 = u - 48;
        let raw: u32 = acc * 10 + d;
        acc = if raw > 501 {
            501
        } else {
            raw
        };
        proof {
            let t = v@.take(i as int + 1);
            assert(t.drop_last() =~= v@.take(i as int));
            assert(t.last() == v@[i as int]);
        }
        i += 1;
    }
    proof {
        assert(v@.take(m as int) =~= v@);
    }
    if acc < 1 {
        1
    } else if acc > 500 {
        500
    } else {
        acc as u16
    }
}

/// Find the `count` parameter among the '&'-separated pairs of qs and read
/// it, clamped; 1 where it is missing or malformed.
fn count_in(qs: &str) -> (n: u16)
    ensures
        n as int == count_of_query(Option::Some(qs@)),
{
    let len: usize = qs.unicode_len();
    let mut start: usize = 0;
    proof {
        assert(qs@.subrange(0, len as int) =~= qs@);
    }
    loop
        invariant
            start <= len,
            len == qs@.len(),
            count_value(qs@) == count_value(qs@.subrange(start as int, len as int)),
        decreases len - start,
    {
        let ghost sub = qs@.subrange(start as int, len as int);
        let amp: usize = scan_until(qs, start, len, '&');
        let eq: usize = scan_until(qs, start, amp, '=');
        proof {
            assert forall|j: int| 0 <= j < amp - start implies sub[j] != '&' by {
                assert(sub[j] == qs@[start + j]);
            }
            if amp < len {
                assert(sub[amp - start] == qs@[amp as int]);
            }
            lemma_first_at_is(sub, '&', amp - start);
            assert(sub.take(amp - start) =~= qs@.subrange(start as int, amp as int));
            let pair = sub.take(amp - start);
            assert forall|j: int| 0 <= j < eq - start implies pair[j] != '=' by {
                assert(pair[j] == qs@[start + j]);
            }
            if eq < amp {
                assert(pair[eq - start] == qs@[eq as int]);
            }
            lemma_first_at_is(pair, '=', eq - start);
        }
        if eq < amp {
            let key = qs.substring_char(start, eq);
            let key_owned = key.to_owned();
            let count_name = String::from_str("count");
            if key_owned == count_name {
                let v = qs.substring_char(eq + 1, amp);
                proof {
                    let pair = sub.take(amp - start);
                    assert(pair.take(eq - start) =~= qs@.subrange(start as int, eq as int));
                    assert(pair.take(eq - start) == "count"@);
                    assert(pair.subrange(eq - start + 1, pair.len() as int) =~= qs@.subrange(
                        eq as int + 1,
                        amp as int,
                    ));
                    assert(count_value(sub) == Option::Some(v@));
                }
                return parse_clamped(v);
            }
            proof {
                let pair = sub.take(amp - start);
                assert(pair.take(eq - start) =~= qs@.subrange(start as int, eq as int));
                assert(pair.take(eq - start) != "count"@);
            }
        }
        if amp == len {
            proof {
                assert(count_value(sub) is None);
            }
            return 1;
        }
        proof {
            assert(sub.subrange(amp - start + 1, sub.len() as int) =~= qs@.subrange(
                amp as int + 1,
                len as int,
            ));
            assert(count_value(sub) == count_value(
                qs@.subrange(amp as int + 1, len as int),
            ));
        }
        start = amp + 1;
    }
}

/// The effective count for a bulk-lookup request: the `count` query
/// parameter clamped into [1, 500], with missing and malformed values
/// silently defaulted to 1.
pub fn parse_count(query: &Option<String>) -> (n: u16)
    ensures
        1 <= n <= 500,
        n as int == count_of_query(query_view(*query)),
{
    let n: u16 = match query {
        Option::None => 1u16,
        Option::Some(q) => count_in(q.as_str()),
    };
    proof {
        lemma_count_in_range(query_view(*query));
    }
    n
}

} // verus!
