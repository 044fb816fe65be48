//! Normalization of Brazilian-locale decimal text.
//!
//! Price cells arrive as strings such as `"1.234,56"`: `.` separates
//! thousands groups and `,` is the decimal mark.  Normalization strips the
//! thousands separators, turns the decimal comma into a dot, trims
//! surrounding whitespace and parses the remainder as a plain base-10
//! decimal number.  The parsed value is kept exactly, as a fixed-point
//! [`Decimal`]; a text that does not parse yields the value zero together
//! with a cleared `parsed` flag, so that a caller can report the failure
//! while the pipeline keeps going.

use vstd::prelude::*;

verus! {

/// A base-10 fixed-point number: the value represented is
/// `mantissa / 10^scale`, negated when `neg` is set.
#[derive(Clone, Copy, Debug, PartialEq, Eq, Structural)]
pub struct Decimal {
    pub neg: bool,
    pub mantissa: u64,
    pub scale: usize,
}

/// The outcome of normalizing one text field: the numeric value, and
/// whether the text actually parsed (`parsed` cleared means the value
/// fell back to zero).
#[derive(Clone, Copy, Debug, PartialEq, Eq, Structural)]
pub struct Normalized {
    pub value: Decimal,
    pub parsed: bool,
}

pub open spec fn zero_decimal() -> Decimal {
    Decimal { neg: false, mantissa: 0, scale: 0 }
}

pub open spec fn is_space(c: char) -> bool {
    c == ' ' || c == '\t' || c == '\n' || c == '\r'
}

pub open spec fn is_digit(c: char) -> bool {
    '0' <= c && c <= '9'
}

pub open spec fn digit_val(c: char) -> nat {
    (c as int - '0' as int) as nat
}

/// The separator rewrite: every `.` is removed and every `,` becomes `.`.
pub open spec fn clean(s: Seq<char>) -> Seq<char>
    decreases s.len(),
{
    if s.len() == 0 {
        Seq::empty()
    } else {
        let rest = clean(s.subrange(1, s.len() as int));
        if s[0] == '.' {
            rest
        } else if s[0] == ',' {
            seq!['.'] + rest
        } else {
            seq![s[0]] + rest
        }
    }
}

pub open spec fn trim_front(s: Seq<char>) -> Seq<char>
    decreases s.len(),
{
    if s.len() > 0 && is_space(s[0]) {
        trim_front(s.subrange(1, s.len() as int))
    } else {
        s
    }
}

pub open spec fn trim_back(s: Seq<char>) -> Seq<char>
    decreases s.len(),
{
    if s.len() > 0 && is_space(s[s.len() - 1]) {
        trim_back(s.subrange(0, s.len() - 1))
    } else {
        s
    }
}

pub open spec fn trimmed(s: Seq<char>) -> Seq<char> {
    trim_back(trim_front(s))
}

/// One step of the decimal grammar, scanning left to right with the
/// digits read so far folded into `m` and the count of fraction digits
/// in `sc`.  The grammar accepts an optional run of digits, at most one
/// dot, and requires at least one digit somewhere.
pub open spec fn parse_step(
    s: Seq<char>,
    seen_digit: bool,
    seen_dot: bool,
    m: nat,
    sc: nat,
) -> Option<(nat, nat)>
    decreases s.len(),
{
    if s.len() == 0 {
        if seen_digit {
            Some((m, sc))
        } else {
            None
        }
    } else if is_digit(s[0]) {
        parse_step(
            s.subrange(1, s.len() as int),
            true,
            seen_dot,
            m * 10 + digit_val(s[0]),
            if seen_dot {
                sc + 1
            } else {
                sc
            },
        )
    } else if s[0] == '.' && !seen_dot {
        parse_step(s.subrange(1, s.len() as int), seen_digit, true, m, sc)
    } else {
        None
    }
}

pub open spec fn has_sign(s: Seq<char>) -> bool {
    s.len() > 0 && (s[0] == '-' || s[0] == '+')
}

pub open spec fn sign_is_neg(s: Seq<char>) -> bool {
    s.len() > 0 && s[0] == '-'
}

pub open spec fn unsigned_body(s: Seq<char>) -> Seq<char> {
    if has_sign(s) {
        s.subrange(1, s.len() as int)
    } else {
        s
    }
}

/// Packs a scanned sign and mantissa/scale pair into the result of a
/// normalization: the zero fallback when the scan failed or the mantissa
/// does not fit the machine word.
pub open spec fn finish(neg: bool, o: Option<(nat, nat)>) -> Normalized {
    match o {
        Some(p) => {
            if p.0 <= u64::MAX && p.1 <= usize::MAX {
                Normalized {
                    value: Decimal { neg, mantissa: p.0 as u64, scale: p.1 as usize },
                    parsed: true,
                }
            } else {
                Normalized { value: zero_decimal(), parsed: false }
            }
        },
        None => Normalized { value: zero_decimal(), parsed: false },
    }
}

/// What [`normalize`] returns on a given text: the decimal read from the
/// cleaned and trimmed text when it parses and fits the machine word,
/// and zero with a cleared flag otherwise.
pub open spec fn norm_result(s: Seq<char>) -> Normalized {
    let t = trimmed(clean(s));
    finish(sign_is_neg(t), parse_step(unsigned_body(t), false, false, 0, 0))
}

/// `clean` distributes over concatenation.
proof fn lemma_clean_concat(a: Seq<char>, b: Seq<char>)
    ensures
        clean(a + b) == clean(a) + clean(b),
    decreases a.len(),
{
    if a.len() == 0 {
        assert(a + b =~= b);
        assert(clean(a) + clean(b) =~= clean(b));
    } else {
        let t = a.subrange(1, a.len() as int);
        assert((a + b).subrange(1, (a + b).len() as int) =~= t + b);
        lemma_clean_concat(t, b);
        assert((a + b)[0] == a[0]);
        if a[0] == '.' {
        } else if a[0] == ',' {
            assert(seq!['.'] + (clean(t) + clean(b)) =~= (seq!['.'] + clean(t)) + clean(b));
        } else {
            assert(seq![a[0]] + (clean(t) + clean(b)) =~= (seq![a[0]] + clean(t)) + clean(b));
        }
    }
}

/// A successful scan never shrinks the mantissa accumulator.
proof fn lemma_parse_step_mono(s: Seq<char>, seen_digit: bool, seen_dot: bool, m: nat, sc: nat)
    ensures
        parse_step(s, seen_digit, seen_dot, m, sc) matches Some(p) ==> p.0 >= m,
    decreases s.len(),
{
    if s.len() == 0 {
    } else if is_digit(s[0]) {
        lemma_parse_step_mono(
            s.subrange(1, s.len() as int),
            true,
            seen_dot,
            m * 10 + digit_val(s[0]),
            if seen_dot {
                sc + 1
            } else {
                sc
            },
        );
    } else if s[0] == '.' && !seen_dot {
        lemma_parse_step_mono(s.subrange(1, s.len() as int), seen_digit, true, m, sc);
    }
}

/// Largest mantissa that can still take one more digit.
pub const MANTISSA_CAP: u64 = u64::MAX / 10;

/// Converts locale-formatted decimal text ("1.234,56") to a fixed-point
/// number: thousands dots are stripped, the decimal comma becomes a dot,
/// surrounding whitespace is ignored, and the remainder is read as a
/// base-10 decimal.  A text that does not parse (or whose digits exceed
/// the machine word) yields zero with the `parsed` flag cleared, never
/// an error: normalization must not abort the extraction pipeline.
pub fn normalize(text: &str) -> (r: Normalized)
    ensures
        r == norm_result(text@),
{
    let n: usize = text.unicode_len();

    // Rewrite separators into a scratch buffer.
    let mut v: Vec<char> = Vec::new();
    let mut i: usize = 0;
    while i < n
        invariant
            n == text@.len(),
            i <= n,
            v@ == clean(text@.subrange(0, i as int)),
        decreases n - i,
    {
        let c = text.get_char(i);
        proof {
            let pre = text@.subrange(0, i as int);
            assert(text@.subrange(0, i as int + 1) =~= pre + seq![c]);
            lemma_clean_concat(pre, seq![c]);
            assert(seq![c].subrange(1, 1) =~= Seq::<char>::empty());
            assert(clean(Seq::<char>::empty()) =~= Seq::<char>::empty());
            if c == '.' {
                assert(clean(seq![c]) =~= Seq::<char>::empty());
            } else if c == ',' {
                assert(clean(seq![c]) =~= seq!['.']);
            } else {
                assert(clean(seq![c]) =~= seq![c]);
            }
        }
        if c == '.' {
        } else if c == ',' {
            v.push('.');
        } else {
            v.push(c);
        }
        i = i + 1;
    }
    proof {
        assert(text@.subrange(0, n as int) =~= text@);
    }

    // Trim surrounding whitespace by index.
    let len: usize = v.len();
    proof {
        assert(v@.subrange(0, len as int) =~= v@);
    }
    let mut lo: usize = 0;
    while lo < len && (v[lo] == ' ' || v[lo] == '\t' || v[lo] == '\n' || v[lo] == '\r')
        invariant
            len == v@.len(),
            lo <= len,
            trim_front(v@) == trim_front(v@.subrange(lo as int, len as int)),
        decreases len - lo,
    {
        proof {
            let cur = v@.subrange(lo as int, len as int);
            assert(cur.subrange(1, cur.len() as int) =~= v@.subrange(lo as int + 1, len as int));
        }
        lo = lo + 1;
    }
    proof {
        let cur = v@.subrange(lo as int, len as int);
        if lo < len {
            assert(!is_space(cur[0]));
        }
        assert(trim_front(v@) == cur);
    }

    let mut hi: usize = len;
    while hi > lo && (v[hi - 1] == ' ' || v[hi - 1] == '\t' || v[hi - 1] == '\n' || v[hi - 1]
        == '\r')
        invariant
            len == v@.len(),
            lo <= hi <= len,
            trim_front(v@) == v@.subrange(lo as int, len as int),
            trimmed(clean(text@)) == trim_back(v@.subrange(lo as int, hi as int)),
            v@ == clean(text@),
        decreases hi,
    {
        proof {
            let cur = v@.subrange(lo as int, hi as int);
            assert(cur.subrange(0, cur.len() - 1) =~= v@.subrange(lo as int, hi as int - 1));
        }
        hi = hi - 1;
    }
    proof {
        let cur = v@.subrange(lo as int, hi as int);
        if hi > lo {
            assert(!is_space(cur[cur.len() - 1]));
        }
        assert(trimmed(clean(text@)) == cur);
    }

    let ghost t = trimmed(clean(text@));

    // Optional sign.
    let mut neg: bool = false;
    let mut b_lo: usize = lo;
    if hi > lo && (v[lo] == '-' || v[lo] == '+') {
        neg = v[lo] == '-';
        b_lo = lo + 1;
        proof {
            assert(has_sign(t));
            assert(sign_is_neg(t) == neg);
            assert(unsigned_body(t) =~= v@.subrange(b_lo as int, hi as int));
        }
    } else {
        proof {
            assert(!has_sign(t));
            assert(!sign_is_neg(t));
            assert(unsigned_body(t) =~= v@.subrange(b_lo as int, hi as int));
        }
    }

    // Scan digits and at most one dot.
    proof {
        assert(norm_result(text@) == finish(
            neg,
            parse_step(v@.subrange(b_lo as int, hi as int), false, false, 0, 0),
        ));
    }
    let mut seen_digit: bool = false;
    let mut seen_dot: bool = false;
    let mut m: u64 = 0;
    let mut sc: usize = 0;
    let mut j: usize = b_lo;
    while j < hi
        invariant
            len == v@.len(),
            b_lo <= j <= hi <= len,
            sc <= j - b_lo,
            norm_result(text@) == finish(
                neg,
                parse_step(
                    v@.subrange(j as int, hi as int),
                    seen_digit,
                    seen_dot,
                    m as nat,
                    sc as nat,
                ),
            ),
        decreases hi - j,
    {
        let c = v[j];
        proof {
            let cur = v@.subrange(j as int, hi as int);
            assert(cur[0] == c);
            assert(cur.subrange(1, cur.len() as int) =~= v@.subrange(j as int + 1, hi as int));
        }
        if c >= '0' && c <= '9' {
            let d: u64 = (c as u32 - '0' as u32) as u64;
            proof {
                assert(is_digit(c));
                assert(d as nat == digit_val(c));
            }
            if m < MANTISSA_CAP || (m == MANTISSA_CAP && d <= 5) {
                m = m * 10 + d;
            } else {
                // The mantissa would overflow the machine word; the
                // grammar itself may still accept the text, but then its
                // mantissa is beyond `u64`, so the result is the zero
                // fallback either way.
                proof {
                    assert((m as nat) * 10 + d as nat > u64::MAX);
                    lemma_parse_step_mono(
                        v@.subrange(j as int + 1, hi as int),
                        true,
                        seen_dot,
                        m as nat * 10 + digit_val(c),
                        if seen_dot {
                            sc as nat + 1
                        } else {
                            sc as nat
                        },
                    );
                }
                return Normalized { value: Decimal { neg: false, mantissa: 0, scale: 0 }, parsed: false };
            }
            if seen_dot {
                sc = sc + 1;
            }
            seen_digit = true;
        } else if c == '.' && !seen_dot {
            seen_dot = true;
        } else {
            proof {
                assert(!is_digit(c));
                assert(parse_step(
                    v@.subrange(j as int, hi as int),
                    seen_digit,
                    seen_dot,
                    m as nat,
                    sc as nat,
                ) is None);
            }
            return Normalized { value: Decimal { neg: false, mantissa: 0, scale: 0 }, parsed: false };
        }
        j = j + 1;
    }
    proof {
        assert(v@.subrange(j as int, hi as int) =~= Seq::<char>::empty());
    }
    if seen_digit {
        Normalized { value: Decimal { neg, mantissa: m, scale: sc }, parsed: true }
    } else {
        Normalized { value: Decimal { neg: false, mantissa: 0, scale: 0 }, parsed: false }
    }
}

} // verus!
