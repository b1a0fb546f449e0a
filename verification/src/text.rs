//! Small text utilities: comparison, decimal rendering and decimal parsing.

use vstd::prelude::*;
use vstd::string::*;
use vstd::utf8::*;

verus! {

/// Whether two string slices hold the same characters.
pub fn text_eq(a: &str, b: &str) -> (r: bool)
    ensures
        r == (a@ == b@),
{
    let x = a.as_bytes();
    let y = b.as_bytes();
    proof {
        encode_utf8_decode_utf8(a@);
        encode_utf8_decode_utf8(b@);
    }
    if x.len() != y.len() {
        return false;
    }
    let n = x.len();
    let mut i: usize = 0;
    while i < n
        invariant
            i <= n,
            n == x@.len(),
            n == y@.len(),
            x@ == encode_utf8(a@),
            y@ == encode_utf8(b@),
            forall|k: int| 0 <= k < i ==> x@[k] == y@[k],
        decreases n - i,
    {
        if x[i] != y[i] {
            return false;
        }
        i = i + 1;
    }
    assert(x@ =~= y@);
    true
}

/// The character that writes the decimal digit `d`.
pub open spec fn digit_char(d: nat) -> char {
    if d == 0 {
        '0'
    } else if d == 1 {
        '1'
    } else if d == 2 {
        '2'
    } else if d == 3 {
        '3'
    } else if d == 4 {
        '4'
    } else if d == 5 {
        '5'
    } else if d == 6 {
        '6'
    } else if d == 7 {
        '7'
    } else if d == 8 {
        '8'
    } else {
        '9'
    }
}

/// The decimal numeral of `n`, without sign and without leading zeros.
pub open spec fn decimal(n: nat) -> Seq<char>
    decreases n,
{
    if n < 10 {
        seq![digit_char(n)]
    } else {
        decimal(n / 10).push(digit_char(n % 10))
    }
}

/// `n` zeros.
pub open spec fn zeros(n: nat) -> Seq<char> {
    Seq::new(n, |i: int| '0')
}

/// The decimal numeral of `n`, with zeros in front up to `width` characters.
pub open spec fn padded(n: nat, width: nat) -> Seq<char> {
    let d = decimal(n);
    if d.len() >= width {
        d
    } else {
        zeros((width - d.len()) as nat) + d
    }
}

/// `n` spaces.
pub open spec fn spaces(n: nat) -> Seq<char> {
    Seq::new(n, |i: int| ' ')
}

/// The text of a truth value.
pub open spec fn truth(b: bool) -> Seq<char> {
    if b {
        "true"@
    } else {
        "false"@
    }
}

fn digit_text(d: u64) -> (r: &'static str)
    requires
        d < 10,
    ensures
        r@ == seq![digit_char(d as nat)],
{
    proof {
        reveal_strlit("0");
        reveal_strlit("1");
        reveal_strlit("2");
        reveal_strlit("3");
        reveal_strlit("4");
        reveal_strlit("5");
        reveal_strlit("6");
        reveal_strlit("7");
        reveal_strlit("8");
        reveal_strlit("9");
    }
    let r = if d == 0 {
        "0"
    } else if d == 1 {
        "1"
    } else if d == 2 {
        "2"
    } else if d == 3 {
        "3"
    } else if d == 4 {
        "4"
    } else if d == 5 {
        "5"
    } else if d == 6 {
        "6"
    } else if d == 7 {
        "7"
    } else if d == 8 {
        "8"
    } else {
        "9"
    };
    assert(r@ =~= seq![digit_char(d as nat)]);
    r
}

/// The decimal numeral of `n`.
pub fn decimal_text(n: u64) -> (r: String)
    ensures
        r@ == decimal(n as nat),
    decreases n,
{
    if n < 10 {
        String::from_str(digit_text(n))
    } else {
        let mut r = decimal_text(n / 10);
        r.append(digit_text(n % 10));
        assert(r@ =~= decimal(n as nat));
        r
    }
}

/// Appends the decimal numeral of `n`.
pub fn push_decimal(out: &mut String, n: u64)
    ensures
        final(out)@ == old(out)@ + decimal(n as nat),
{
    let d = decimal_text(n);
    out.append(d.as_str());
}

/// Appends the decimal numeral of `n`, with zeros in front up to `width`
/// characters.
pub fn push_padded(out: &mut String, n: u64, width: usize)
    ensures
        final(out)@ == old(out)@ + padded(n as nat, width as nat),
{
    let d = decimal_text(n);
    let len = d.as_str().unicode_len();
    let ghost start = out@;
    let mut i: usize = len;
    while i < width
        invariant
            len <= i,
            i <= width || i == len,
            out@ == start + zeros((i - len) as nat),
        decreases width - i,
    {
        out.append("0");
        i = i + 1;
        proof {
            reveal_strlit("0");
        }
        assert(out@ =~= start + zeros((i - len) as nat));
    }
    out.append(d.as_str());
    assert(out@ =~= start + padded(n as nat, width as nat));
}

/// Appends `n` spaces.
pub fn push_spaces(out: &mut String, n: usize)
    ensures
        final(out)@ == old(out)@ + spaces(n as nat),
{
    let ghost start = out@;
    let mut i: usize = 0;
    while i < n
        invariant
            i <= n,
            out@ == start + spaces(i as nat),
        decreases n - i,
    {
        out.append(" ");
        i = i + 1;
        proof {
            reveal_strlit(" ");
        }
        assert(out@ =~= start + spaces(i as nat));
    }
}

/// Whether `c` is one of the ten decimal digits.
pub open spec fn is_digit(c: char) -> bool {
    '0' <= c && c <= '9'
}

/// The value of the digit `c`.
pub open spec fn digit_of(c: char) -> nat {
    (c as nat - '0' as nat) as nat
}

/// The end of the longest run of digits of `s` that starts at `from`.
pub open spec fn digits_end(s: Seq<char>, from: int) -> int
    decreases s.len() - from,
{
    if 0 <= from < s.len() && is_digit(s[from]) {
        digits_end(s, from + 1)
    } else {
        from
    }
}

/// The number that the digits `s` write in decimal.
pub open spec fn digits_value(s: Seq<char>) -> nat
    decreases s.len(),
{
    if s.len() == 0 {
        0
    } else {
        digits_value(s.drop_last()) * 10 + digit_of(s.last())
    }
}

/// One number read from a text: where its digits end, and its value if
/// there is at least one digit and the value is at most the limit asked for.
pub struct Numeral {
    pub end: usize,
    pub value: Option<u64>,
}

/// The value of the digit run of `s` from `from`, if it is not empty and
/// writes at most `max`.
pub open spec fn numeral_value(s: Seq<char>, from: int, max: nat) -> Option<u64> {
    let end = digits_end(s, from);
    let v = digits_value(s.subrange(from, end));
    if end > from && v <= max {
        Some(v as u64)
    } else {
        None
    }
}

/// A run of digits ends within the text, holds digits only, and is not
/// followed by a digit.
pub proof fn lemma_digits_end_bounds(s: Seq<char>, from: int)
    requires
        0 <= from <= s.len(),
    ensures
        from <= digits_end(s, from) <= s.len(),
        forall|k: int| from <= k < digits_end(s, from) ==> is_digit(#[trigger] s[k]),
        digits_end(s, from) < s.len() ==> !is_digit(s[digits_end(s, from)]),
    decreases s.len() - from,
{
    if from < s.len() && is_digit(s[from]) {
        lemma_digits_end_bounds(s, from + 1);
    }
}

proof fn lemma_digits_end_step(s: Seq<char>, from: int, i: int)
    requires
        0 <= from <= i <= s.len(),
        forall|k: int| from <= k < i ==> is_digit(#[trigger] s[k]),
    ensures
        digits_end(s, from) == digits_end(s, i),
    decreases i - from,
{
    if from < i {
        lemma_digits_end_step(s, from + 1, i);
    }
}

/// Reads the run of digits of `s` that starts at the character `from`.
pub fn read_numeral(s: &str, from: usize, max: u64) -> (r: Numeral)
    requires
        from <= s@.len(),
        max <= 0xffff_ffff,
    ensures
        r.end == digits_end(s@, from as int),
        r.value == numeral_value(s@, from as int, max as nat),
{
    let len = s.unicode_len();
    let mut i: usize = from;
    let mut acc: u64 = 0;
    let mut over = false;
    let mut going = true;
    assert(s@.subrange(from as int, from as int) =~= Seq::<char>::empty());
    while going && i < len
        invariant
            from <= i <= len,
            len == s@.len(),
            max <= 0xffff_ffff,
            forall|k: int| from <= k < i ==> is_digit(#[trigger] s@[k]),
            !going ==> i < len && !is_digit(s@[i as int]),
            over ==> digits_value(s@.subrange(from as int, i as int)) > max,
            !over ==> acc == digits_value(s@.subrange(from as int, i as int)) && acc <= max,
        decreases (if going { 1int } else { 0int }) + len - i,
    {
        let c = s.get_char(i);
        if '0' <= c && c <= '9' {
            let d: u64 = (c as u64) - ('0' as u64);
            proof {
                let next = s@.subrange(from as int, i as int + 1);
                assert(next.drop_last() =~= s@.subrange(from as int, i as int));
                assert(next.last() == c);
                assert(digits_value(next) == digits_value(next.drop_last()) * 10 + digit_of(c));
            }
            if !over {
                acc = acc * 10 + d;
                if acc > max {
                    over = true;
                }
            }
            i = i + 1;
        } else {
            going = false;
        }
    }
    proof {
        lemma_digits_end_step(s@, from as int, i as int);
        assert(digits_end(s@, i as int) == i);
    }
    let value = if i > from && !over {
        Some(acc)
    } else {
        None
    };
    Numeral { end: i, value }
}

/// Whether a text holds digits only.
pub open spec fn all_digits(s: Seq<char>) -> bool {
    forall|i: int| 0 <= i < s.len() ==> is_digit(#[trigger] s[i])
}

/// A run of digits that is followed by no digit ends where it ends.
pub proof fn lemma_run_ends(s: Seq<char>, from: int, end: int)
    requires
        0 <= from <= end <= s.len(),
        forall|k: int| from <= k < end ==> is_digit(#[trigger] s[k]),
        end == s.len() || !is_digit(s[end]),
    ensures
        digits_end(s, from) == end,
{
    lemma_digits_end_step(s, from, end);
}

/// One more digit behind a text of digits: ten times the number, and the
/// digit.
pub proof fn lemma_value_push(s: Seq<char>, c: char)
    ensures
        digits_value(s.push(c)) == digits_value(s) * 10 + digit_of(c),
{
    assert(s.push(c).drop_last() =~= s);
    assert(s.push(c).last() == c);
}

/// A numeral holds digits only, at least one, and writes its number.
pub proof fn lemma_decimal_value(n: nat)
    ensures
        all_digits(decimal(n)),
        decimal(n).len() >= 1,
        digits_value(decimal(n)) == n,
    decreases n,
{
    if n < 10 {
        lemma_value_push(Seq::empty(), digit_char(n));
        assert(decimal(n) =~= Seq::<char>::empty().push(digit_char(n)));
        assert(digits_value(Seq::<char>::empty()) == 0);
    } else {
        lemma_decimal_value(n / 10);
        lemma_value_push(decimal(n / 10), digit_char(n % 10));
    }
}

/// Zeros in front of a text of digits do not change the number.
pub proof fn lemma_zeros_value(k: nat, s: Seq<char>)
    ensures
        digits_value(zeros(k) + s) == digits_value(s),
    decreases s.len(), k,
{
    let t = zeros(k) + s;
    if s.len() > 0 {
        assert(t.drop_last() =~= zeros(k) + s.drop_last());
        assert(t.last() == s.last());
        lemma_zeros_value(k, s.drop_last());
    } else if k > 0 {
        assert(t.drop_last() =~= zeros((k - 1) as nat) + s);
        assert(t.last() == '0');
        lemma_zeros_value((k - 1) as nat, s);
    } else {
        assert(t =~= s);
    }
}

/// A padded numeral holds digits only, at least one, and writes its number.
pub proof fn lemma_padded_value(n: nat, width: nat)
    ensures
        all_digits(padded(n, width)),
        padded(n, width).len() >= 1,
        digits_value(padded(n, width)) == n,
{
    lemma_decimal_value(n);
    let d = decimal(n);
    if d.len() < width {
        lemma_zeros_value((width - d.len()) as nat, d);
        let z = zeros((width - d.len()) as nat);
        assert forall|i: int| 0 <= i < (z + d).len() implies is_digit(#[trigger] (z + d)[i]) by {
            if i < z.len() {
                assert((z + d)[i] == '0');
            } else {
                assert((z + d)[i] == d[i - z.len()]);
            }
        }
    }
}

} // verus!
