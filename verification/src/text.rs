//! Text toolkit for the citation buffer: splitting an accumulated buffer at
//! blank-line separators, locating the suffix that follows the per-citation
//! entries, and rendering an unsigned integer in decimal.

use vstd::prelude::*;
use crate::value::spec_decimal;
use crate::value::spec_digit;

verus! {

/// The parts of `s` split at every (non-overlapping, leftmost) occurrence of
/// the two-character blank-line separator. There is always at least one part;
/// a trailing separator yields a trailing empty part.
pub open spec fn spec_split(s: Seq<char>) -> Seq<Seq<char>>
    decreases s.len(),
{
    if s.len() < 2 {
        seq![s]
    } else if s[0] == '\n' && s[1] == '\n' {
        seq![Seq::<char>::empty()] + spec_split(s.skip(2))
    } else {
        let rest = spec_split(s.skip(1));
        rest.update(0, seq![s[0]] + rest[0])
    }
}

/// The suffix of `s` that starts where its `n`-th part starts: part `n`
/// together with every later separator and part. Meaningful only while
/// `n < spec_split(s).len()`.
pub open spec fn spec_after_parts(s: Seq<char>, n: int) -> Seq<char>
    decreases s.len(),
{
    if n <= 0 {
        s
    } else if s.len() < 2 {
        s
    } else if s[0] == '\n' && s[1] == '\n' {
        spec_after_parts(s.skip(2), n - 1)
    } else {
        spec_after_parts(s.skip(1), n)
    }
}

/// Splitting yields at least one part.
pub proof fn lemma_split_len(s: Seq<char>)
    ensures
        spec_split(s).len() >= 1,
    decreases s.len(),
{
    if s.len() < 2 {
    } else if s[0] == '\n' && s[1] == '\n' {
        lemma_split_len(s.skip(2));
    } else {
        lemma_split_len(s.skip(1));
    }
}

/// The suffix that starts at part `n` splits into exactly the parts from
/// `n` on: locating text "after the first `n` entries" and locating an
/// entry by ordinal index agree on where every boundary lies. This is what
/// lets the references aggregator slice off everything that follows the
/// per-citation entries while each entry is still addressable by its index.
pub proof fn lemma_after_parts_split(s: Seq<char>, n: int)
    requires
        0 <= n < spec_split(s).len(),
    ensures
        spec_split(spec_after_parts(s, n)) == spec_split(s).skip(n),
    decreases s.len(),
{
    if n == 0 {
        assert(spec_split(s).skip(0) =~= spec_split(s));
    } else if s.len() < 2 {
        // spec_split(s) has one part, so no n > 0 satisfies the bound.
        assert(false);
    } else if s[0] == '\n' && s[1] == '\n' {
        lemma_split_len(s.skip(2));
        lemma_after_parts_split(s.skip(2), n - 1);
        assert((seq![Seq::<char>::empty()] + spec_split(s.skip(2))).skip(n) =~= spec_split(
            s.skip(2),
        ).skip(n - 1));
    } else {
        let r = spec_split(s.skip(1));
        lemma_split_len(s.skip(1));
        lemma_after_parts_split(s.skip(1), n);
        assert(r.update(0, seq![s[0]] + r[0]).skip(n) =~= r.skip(n));
    }
}

/// The views of a sequence of owned strings.
pub open spec fn seq_views(parts: Seq<String>) -> Seq<Seq<char>> {
    parts.map_values(|p: String| p@)
}

/// Prepend `c` to the first element of `r`.
pub open spec fn cons_first(c: Seq<char>, r: Seq<Seq<char>>) -> Seq<Seq<char>> {
    r.update(0, c + r[0])
}

/// Relies on `String::push`: appends exactly the one character.
#[verifier::external_body]
pub(crate) fn push_char(s: &mut String, c: char)
    ensures
        final(s)@ == old(s)@.push(c),
{
    s.push(c)
}

/// Relies on `<str as PartialEq>::eq`: two string slices are equal exactly
/// when their character sequences are.
#[verifier::external_body]
pub(crate) fn str_eq(a: &str, b: &str) -> (r: bool)
    ensures
        r == (a@ == b@),
{
    a == b
}

/// Split `s` at every blank-line separator, leftmost first.
pub fn split_double_newline(s: &str) -> (parts: Vec<String>)
    ensures
        parts@.len() == spec_split(s@).len(),
        forall|j: int| 0 <= j < parts@.len() ==> parts@[j]@ == spec_split(s@)[j],
{
    let n = s.unicode_len();
    let mut parts: Vec<String> = Vec::new();
    let mut cur = String::new();
    let mut i: usize = 0;
    proof {
        lemma_split_len(s@);
        assert(s@.skip(0) =~= s@);
        assert(seq_views(parts@) =~= Seq::<Seq<char>>::empty());
        assert(cons_first(cur@, spec_split(s@)) =~~= spec_split(s@));
    }
    loop
        invariant
            n == s@.len(),
            i <= n,
            spec_split(s@) == seq_views(parts@) + cons_first(cur@, spec_split(s@.skip(i as int))),
        decreases n - i,
    {
        let ghost tail = s@.skip(i as int);
        proof {
            lemma_split_len(tail);
        }
        if i < n && i + 1 < n && s.get_char(i) == '\n' && s.get_char(i + 1) == '\n' {
            proof {
                assert(tail.len() >= 2);
                assert(tail[0] == '\n' && tail[1] == '\n');
                assert(tail.skip(2) =~= s@.skip(i + 2));
                lemma_split_len(s@.skip(i + 2));
                let r = spec_split(s@.skip(i + 2));
                assert(spec_split(tail) == seq![Seq::<char>::empty()] + r);
                assert(cons_first(cur@, spec_split(tail)) =~~= seq![cur@] + r);
                assert(cons_first(Seq::<char>::empty(), r) =~~= r);
            }
            let prev = cur;
            cur = String::new();
            parts.push(prev);
            proof {
                assert(seq_views(parts@) =~= seq_views(parts@.drop_last()).push(prev@));
                assert(spec_split(s@) =~~= seq_views(parts@) + cons_first(
                    cur@,
                    spec_split(s@.skip(i as int + 2)),
                ));
            }
            i = i + 2;
        } else if i < n {
            let c = s.get_char(i);
            proof {
                assert(tail[0] == c);
                if tail.len() < 2 {
                    assert(i + 1 == n);
                    assert(s@.skip(i as int + 1) =~= Seq::<char>::empty());
                    assert(spec_split(tail) == seq![tail]);
                    assert(spec_split(s@.skip(i as int + 1)) == seq![Seq::<char>::empty()]);
                    assert(cons_first(cur@, seq![tail]) =~~= seq![cur@ + tail]);
                    assert(tail =~= seq![c]);
                    assert(cons_first(cur@.push(c), spec_split(s@.skip(i as int + 1))) =~~= seq![
                        cur@.push(c),
                    ]);
                    assert(cur@ + tail =~= cur@.push(c));
                } else {
                    assert(!(tail[0] == '\n' && tail[1] == '\n'));
                    assert(tail.skip(1) =~= s@.skip(i as int + 1));
                    let r = spec_split(s@.skip(i as int + 1));
                    lemma_split_len(s@.skip(i as int + 1));
                    assert(spec_split(tail) == r.update(0, seq![c] + r[0]));
                    assert(cons_first(cur@, spec_split(tail)) =~~= r.update(
                        0,
                        cur@ + (seq![c] + r[0]),
                    ));
                    assert(cur@ + (seq![c] + r[0]) =~= cur@.push(c) + r[0]);
                    assert(cons_first(cur@.push(c), r) =~~= r.update(0, cur@.push(c) + r[0]));
                }
            }
            push_char(&mut cur, c);
            i = i + 1;
        } else {
            proof {
                assert(tail =~= Seq::<char>::empty());
                assert(spec_split(tail) == seq![tail]);
                assert(cons_first(cur@, spec_split(tail)) =~~= seq![cur@]);
            }
            parts.push(cur);
            proof {
                assert(seq_views(parts@) =~= seq_views(parts@.drop_last()).push(
                    parts@[parts@.len() - 1]@,
                ));
                assert(spec_split(s@) =~~= seq_views(parts@));
            }
            return parts;
        }
    }
}

/// The suffix of `s` starting at the start of its `n`-th part, or `None` when
/// `s` has no more than `n` parts.
pub fn text_after_parts(s: &str, n: usize) -> (r: Option<String>)
    ensures
        match r {
            Some(t) => n < spec_split(s@).len() && t@ == spec_after_parts(s@, n as int),
            None => n >= spec_split(s@).len(),
        },
{
    let len = s.unicode_len();
    let mut i: usize = 0;
    let mut rem: usize = n;
    proof {
        assert(s@.skip(0) =~= s@);
    }
    loop
        invariant
            len == s@.len(),
            i <= len,
            spec_after_parts(s@, n as int) == spec_after_parts(s@.skip(i as int), rem as int),
            rem < spec_split(s@.skip(i as int)).len() <==> n < spec_split(s@).len(),
        decreases len - i + rem,
    {
        let ghost tail = s@.skip(i as int);
        proof {
            lemma_split_len(tail);
        }
        if rem == 0 {
            let t = s.substring_char(i, len);
            proof {
                assert(t@ =~= tail);
            }
            return Some(String::from_str(t));
        }
        if i < len && i + 1 < len && s.get_char(i) == '\n' && s.get_char(i + 1) == '\n' {
            proof {
                assert(tail.len() >= 2 && tail[0] == '\n' && tail[1] == '\n');
                assert(tail.skip(2) =~= s@.skip(i as int + 2));
                lemma_split_len(s@.skip(i as int + 2));
                assert(spec_split(tail) == seq![Seq::<char>::empty()] + spec_split(
                    s@.skip(i as int + 2),
                ));
                assert(spec_after_parts(tail, rem as int) == spec_after_parts(
                    s@.skip(i as int + 2),
                    rem as int - 1,
                ));
            }
            i = i + 2;
            rem = rem - 1;
        } else if i < len && i + 1 < len {
            proof {
                assert(tail.len() >= 2);
                assert(tail[0] == s@[i as int] && tail[1] == s@[i as int + 1]);
                assert(!(tail[0] == '\n' && tail[1] == '\n'));
                assert(tail.skip(1) =~= s@.skip(i as int + 1));
                lemma_split_len(s@.skip(i as int + 1));
                assert(spec_after_parts(tail, rem as int) == spec_after_parts(
                    s@.skip(i as int + 1),
                    rem as int,
                ));
                let r = spec_split(s@.skip(i as int + 1));
                assert(spec_split(tail) == r.update(0, seq![tail[0]] + r[0]));
                assert(spec_split(tail).len() == r.len());
            }
            i = i + 1;
        } else {
            proof {
                assert(tail.len() < 2);
                assert(spec_split(tail) == seq![tail]);
                assert(spec_split(tail).len() == 1);
                assert(rem >= 1);
            }
            return None;
        }
    }
}

/// The `n`-th part of `s` under blank-line splitting, or `None` when `s` has
/// no more than `n` parts.
pub fn nth_part(s: &str, n: usize) -> (r: Option<String>)
    ensures
        match r {
            Some(t) => n < spec_split(s@).len() && t@ == spec_split(s@)[n as int],
            None => n >= spec_split(s@).len(),
        },
{
    let parts = split_double_newline(s);
    if n < parts.len() {
        Some(parts[n].clone())
    } else {
        None
    }
}

/// The decimal digit character for `d`.
fn digit_char(d: usize) -> (c: char)
    requires
        d < 10,
    ensures
        c == spec_digit(d as int),
{
    match d {
        0 => '0',
        1 => '1',
        2 => '2',
        3 => '3',
        4 => '4',
        5 => '5',
        6 => '6',
        7 => '7',
        8 => '8',
        _ => '9',
    }
}

/// Render `x` in decimal, most significant digit first.
pub fn usize_to_string(x: usize) -> (s: String)
    ensures
        s@ == spec_decimal(x as nat),
{
    let mut digits: Vec<char> = Vec::new();
    let mut n = x;
    loop
        invariant_except_break
            spec_decimal(x as nat) == spec_decimal(n as nat) + digits@,
        ensures
            spec_decimal(x as nat) == digits@,
        decreases n,
    {
        let d = digit_char(n % 10);
        digits.insert(0, d);
        if n < 10 {
            proof {
                assert(spec_decimal(n as nat) =~= seq![spec_digit(n as int)]);
                assert(seq![d] + digits@.drop_first() =~= digits@);
                assert(spec_decimal(x as nat) =~= digits@);
            }
            break;
        }
        proof {
            assert(spec_decimal(n as nat) == spec_decimal(n as nat / 10).push(
                spec_digit(n as int % 10),
            ));
            assert(spec_decimal(n as nat / 10).push(d) + digits@.drop_first() =~= spec_decimal(
                n as nat / 10,
            ) + digits@);
        }
        n = n / 10;
    }
    let mut out = String::new();
    let mut i: usize = 0;
    while i < digits.len()
        invariant
            i <= digits.len(),
            out@ == digits@.take(i as int),
        decreases digits.len() - i,
    {
        push_char(&mut out, digits[i]);
        proof {
            assert(digits@.take(i as int).push(digits@[i as int]) =~= digits@.take(i as int + 1));
        }
        i = i + 1;
    }
    proof {
        assert(digits@.take(digits@.len() as int) =~= digits@);
    }
    out
}

} // verus!
