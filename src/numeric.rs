//! Decimal and integer text as it travels on the wire.

use vstd::prelude::*;
use vstd::std_specs::iter::IteratorSpec;

verus! {

pub open spec fn is_digit(c: char) -> bool {
    '0' <= c && c <= '9'
}

pub open spec fn all_digits(s: Seq<char>) -> bool {
    forall|i: int| 0 <= i < s.len() ==> is_digit(#[trigger] s[i])
}

/// The number that a run of decimal digits spells, most significant first.
pub open spec fn digits_value(s: Seq<char>) -> nat
    decreases s.len(),
{
    if s.len() == 0 {
        0
    } else {
        digits_value(s.drop_last()) * 10 + ((s.last() as u32) - ('0' as u32)) as nat
    }
}

/// What an unsigned integer reads as: one or more digits whose value fits.
pub open spec fn usize_of(s: Seq<char>) -> Option<usize> {
    if s.len() > 0 && all_digits(s) && digits_value(s) <= usize::MAX {
        Some(digits_value(s) as usize)
    } else {
        None
    }
}

/// Digits, optionally followed by a point and more digits.
pub open spec fn is_unsigned_decimal(b: Seq<char>) -> bool {
    (b.len() > 0 && all_digits(b)) || exists|p: int|
        0 < p < b.len() - 1 && b[p] == '.' && all_digits(#[trigger] b.take(p)) && all_digits(
            b.skip(p + 1),
        )
}

/// The wire form of a decimal number: an optional minus sign, then digits
/// with an optional fractional part (`"1.12000000"`, `"-0.5"`, `"10"`).
pub open spec fn is_decimal_text(s: Seq<char>) -> bool {
    if s.len() > 0 && s[0] == '-' {
        is_unsigned_decimal(s.skip(1))
    } else {
        is_unsigned_decimal(s)
    }
}

/// `s` is the shortest decimal spelling of `n`.
pub open spec fn usize_text_of(s: Seq<char>, n: usize) -> bool {
    s.len() > 0 && all_digits(s) && digits_value(s) == n as nat && (s.len() > 1 ==> s[0] != '0')
}

/// The characters of a string, in order.
pub fn chars_of(s: &str) -> (r: Vec<char>)
    ensures
        r@ == s@,
{
    broadcast use vstd::string::axiom_spec_iter, vstd::string::next_postcondition;

    let mut v: Vec<char> = Vec::new();
    let mut it = s.chars();
    loop
        invariant
            v@ + it.remaining() == s@,
            it.obeys_prophetic_iter_laws(),
            it.decrease() is Some,
        ensures
            v@ == s@,
        decreases it.decrease()->0,
    {
        match it.next() {
            Some(c) => {
                assert(v@.push(c) + it.remaining() =~= s@);
                v.push(c);
            },
            None => {
                assert(v@ =~= s@);
                break;
            },
        }
    }
    v
}

/// Relies on `usize`'s `Display`: the shortest decimal spelling of the value.
#[verifier::external_body]
pub(crate) fn usize_text(n: usize) -> (r: String)
    ensures
        usize_text_of(r@, n),
{
    n.to_string()
}

proof fn lemma_digits_value_grows(s: Seq<char>, k: int)
    requires
        0 <= k <= s.len(),
    ensures
        digits_value(s.take(k)) <= digits_value(s),
    decreases s.len() - k,
{
    if k < s.len() {
        lemma_digits_value_grows(s, k + 1);
        assert(s.take(k + 1).drop_last() =~= s.take(k));
    } else {
        assert(s.take(k) =~= s);
    }
}

/// Reads an unsigned integer written as decimal digits (a trade identifier,
/// a ledger entry number). `None` on anything else, or when it does not fit.
pub fn parse_usize(s: &str) -> (r: Option<usize>)
    ensures
        r == usize_of(s@),
{
    let cs = chars_of(s);
    let n = cs.len();
    if n == 0 {
        return None;
    }
    let mut acc: usize = 0;
    let mut i: usize = 0;
    while i < n
        invariant
            n == cs@.len(),
            cs@ == s@,
            i <= n,
            all_digits(cs@.take(i as int)),
            acc as nat == digits_value(cs@.take(i as int)),
        decreases n - i,
    {
        let c = cs[i];
        if !('0' <= c && c <= '9') {
            assert(!all_digits(cs@));
            return None;
        }
        let d = (c as u32 - '0' as u32) as usize;
        assert(cs@.take(i + 1).drop_last() =~= cs@.take(i as int));
        if acc > (usize::MAX - d) / 10 {
            proof {
                lemma_digits_value_grows(cs@, i + 1);
            }
            return None;
        }
        acc = acc * 10 + d;
        i = i + 1;
    }
    assert(cs@.take(n as int) =~= cs@);
    Some(acc)
}

/// Whether a string is the wire form of a decimal number.
pub fn is_decimal(s: &str) -> (r: bool)
    ensures
        r == is_decimal_text(s@),
{
    let cs = chars_of(s);
    let n = cs.len();
    let start: usize = if n > 0 && cs[0] == '-' { 1 } else { 0 };
    let ghost b = cs@.skip(start as int);
    assert(cs@.skip(0) =~= cs@);
    assert(is_decimal_text(s@) == is_unsigned_decimal(b));
    let mut i: usize = start;
    while i < n && '0' <= cs[i] && cs[i] <= '9'
        invariant
            cs@ == s@,
            n == cs@.len(),
            start <= i <= n,
            b == cs@.skip(start as int),
            all_digits(b.take(i - start)),
        decreases n - i,
    {
        assert(b.take(i + 1 - start) =~= b.take(i - start).push(cs[i as int]));
        i = i + 1;
    }
    let p: usize = i - start;
    if p == 0 {
        assert forall|q: int| 0 < q < b.len() - 1 && b[q] == '.' implies !all_digits(
            #[trigger] b.take(q),
        ) by {
            assert(b.take(q)[0] == b[0]);
        }
        assert(!all_digits(b) || b.len() == 0) by {
            if b.len() > 0 {
                assert(b[0] == cs[start as int]);
            }
        }
        return false;
    }
    if i == n {
        assert(b.take(p as int) =~= b);
        return true;
    }
    assert(!all_digits(b)) by {
        assert(b[p as int] == cs[i as int]);
    }
    if cs[i] != '.' {
        assert forall|q: int| 0 < q < b.len() - 1 && b[q] == '.' implies !all_digits(
            #[trigger] b.take(q),
        ) by {
            assert(b[p as int] == cs[i as int]);
            if q > p {
                assert(b.take(q)[p as int] == b[p as int]);
            } else if q < p {
                assert(b.take(p as int)[q] == b[q]);
            }
        }
        return false;
    }
    let f: usize = i + 1;
    let mut j: usize = f;
    let ghost frac = b.skip(p + 1);
    while j < n && '0' <= cs[j] && cs[j] <= '9'
        invariant
            cs@ == s@,
            n == cs@.len(),
            start < f <= j <= n,
            f == start + p + 1,
            b == cs@.skip(start as int),
            frac == b.skip(p + 1),
            all_digits(frac.take(j - f)),
        decreases n - j,
    {
        assert(frac.take(j + 1 - f) =~= frac.take(j - f).push(cs[j as int]));
        j = j + 1;
    }
    let ok = j == n && j > f;
    proof {
        assert(b[p as int] == '.');
        if ok {
            assert(frac.take(j - f) =~= frac);
            assert(0 < p < b.len() - 1 && b[p as int] == '.' && all_digits(b.take(p as int))
                && all_digits(b.skip(p + 1)));
        } else {
            assert forall|q: int| 0 < q < b.len() - 1 && b[q] == '.' && #[trigger] all_digits(
                b.take(q),
            ) implies !all_digits(b.skip(q + 1)) by {
                if q > p {
                    assert(b.take(q)[p as int] == b[p as int]);
                } else if q < p {
                    assert(b.take(p as int)[q] == b[q]);
                } else {
                    if j < n {
                        assert(b.skip(q + 1)[j - f] == cs[j as int]);
                    }
                }
            }
        }
    }
    ok
}

/// A decimal number in its exact wire form. The text is kept as received,
/// so no precision is lost and encoding gives back the same digits.
#[derive(Debug)]
pub struct Decimal {
    text: String,
}

impl Decimal {
    #[verifier::type_invariant]
    spec fn inv(&self) -> bool {
        is_decimal_text(self.text@)
    }
}

impl View for Decimal {
    type V = Seq<char>;

    closed spec fn view(&self) -> Seq<char> {
        self.text@
    }
}

impl Decimal {
    pub open spec fn wf(&self) -> bool {
        is_decimal_text(self@)
    }

    /// Reads a decimal from its wire form; `None` when `s` is not one.
    pub fn parse(s: &str) -> (r: Option<Decimal>)
        ensures
            r is Some <==> is_decimal_text(s@),
            r matches Some(d) ==> d@ == s@ && d.wf(),
    {
        if is_decimal(s) {
            Some(Decimal { text: s.to_owned() })
        } else {
            None
        }
    }

    /// The wire form.
    pub fn as_str(&self) -> (r: &str)
        ensures
            r@ == self@,
            self.wf(),
    {
        proof {
            use_type_invariant(self);
        }
        self.text.as_str()
    }

    pub fn clone(&self) -> (r: Decimal)
        ensures
            r@ == self@,
    {
        proof {
            use_type_invariant(self);
        }
        Decimal { text: self.text.clone() }
    }
}

} // verus!
