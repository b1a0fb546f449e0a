//! Calendar dates as the feed writes them.

use vstd::prelude::*;
use vstd::string::*;
use crate::error::{ClassificationError, Scalar};
use crate::text::{
    digits_end, is_digit, lemma_digits_end_bounds, lemma_padded_value, lemma_run_ends,
    numeral_value, padded, push_padded, read_numeral,
};

verus! {

/// The day on which a game was played.
#[derive(Clone, Copy, Debug, PartialEq, Eq, Structural)]
pub struct Date {
    pub year: u16,
    pub month: u8,
    pub day: u8,
}

/// The date that `s` writes as year, month and day in decimal digits with a
/// hyphen between them, if it writes one: three runs of at least one digit
/// each, the year at most 65535, month and day at most 255, nothing else.
pub open spec fn date_of(s: Seq<char>) -> Option<Date> {
    let e1 = digits_end(s, 0);
    let e2 = digits_end(s, e1 + 1);
    let e3 = digits_end(s, e2 + 1);
    let year = numeral_value(s, 0, 0xffff);
    let month = numeral_value(s, e1 + 1, 0xff);
    let day = numeral_value(s, e2 + 1, 0xff);
    if e1 < s.len() && s[e1] == '-' && e2 < s.len() && s[e2] == '-' && e3 == s.len()
        && year is Some && month is Some && day is Some {
        Some(Date { year: year->0 as u16, month: month->0 as u8, day: day->0 as u8 })
    } else {
        None
    }
}

/// How a date is written: four digits at least for the year, two at least
/// for month and day.
pub open spec fn date_text(d: Date) -> Seq<char> {
    padded(d.year as nat, 4) + "-"@ + padded(d.month as nat, 2) + "-"@ + padded(d.day as nat, 2)
}

/// A date that is written and read again is the same date.
pub proof fn lemma_date_round_trip(d: Date)
    ensures
        date_of(date_text(d)) == Some(d),
{
    reveal_strlit("-");
    assert("-"@.len() == 1);
    assert("-"@[0] == '-');
    let y = padded(d.year as nat, 4);
    let m = padded(d.month as nat, 2);
    let dd = padded(d.day as nat, 2);
    lemma_padded_value(d.year as nat, 4);
    lemma_padded_value(d.month as nat, 2);
    lemma_padded_value(d.day as nat, 2);
    let t = date_text(d);
    let e1 = y.len() as int;
    let e2 = e1 + 1 + m.len();
    let e3 = e2 + 1 + dd.len();
    assert(t.len() == e3);
    assert forall|k: int| 0 <= k < e1 implies is_digit(#[trigger] t[k]) by {
        assert(t[k] == y[k]);
    }
    assert(t[e1] == '-');
    assert forall|k: int| e1 + 1 <= k < e2 implies is_digit(#[trigger] t[k]) by {
        assert(t[k] == m[k - e1 - 1]);
    }
    assert(t[e2] == '-');
    assert forall|k: int| e2 + 1 <= k < e3 implies is_digit(#[trigger] t[k]) by {
        assert(t[k] == dd[k - e2 - 1]);
    }
    lemma_run_ends(t, 0, e1);
    lemma_run_ends(t, e1 + 1, e2);
    lemma_run_ends(t, e2 + 1, e3);
    assert(t.subrange(0, e1) =~= y);
    assert(t.subrange(e1 + 1, e2) =~= m);
    assert(t.subrange(e2 + 1, e3) =~= dd);
}

impl Date {
    /// Reads a date written as `YYYY-MM-DD`.
    pub fn parse(s: &str) -> (r: Result<Date, ClassificationError>)
        ensures
            match date_of(s@) {
                Some(d) => r == Ok::<Date, ClassificationError>(d),
                None => r == Err::<Date, ClassificationError>(
                    ClassificationError::MalformedScalar(Scalar::Date),
                ),
            },
    {
        let bad = Err(ClassificationError::MalformedScalar(Scalar::Date));
        let len = s.unicode_len();
        let year = read_numeral(s, 0, 0xffff);
        proof {
            lemma_digits_end_bounds(s@, 0);
        }
        if year.end >= len || s.get_char(year.end) != '-' {
            return bad;
        }
        let month = read_numeral(s, year.end + 1, 0xff);
        proof {
            lemma_digits_end_bounds(s@, year.end + 1);
        }
        if month.end >= len || s.get_char(month.end) != '-' {
            return bad;
        }
        let day = read_numeral(s, month.end + 1, 0xff);
        proof {
            lemma_digits_end_bounds(s@, month.end + 1);
        }
        if day.end != len {
            return bad;
        }
        match (year.value, month.value, day.value) {
            (Some(y), Some(m), Some(d)) => Ok(Date { year: y as u16, month: m as u8, day: d as u8 }),
            _ => bad,
        }
    }

    /// Writes the date as `YYYY-MM-DD`.
    pub fn to_string(&self) -> (r: String)
        ensures
            r@ == date_text(*self),
    {
        let mut r = String::new();
        push_padded(&mut r, self.year as u64, 4);
        r.append("-");
        push_padded(&mut r, self.month as u64, 2);
        r.append("-");
        push_padded(&mut r, self.day as u64, 2);
        assert(r@ =~= date_text(*self));
        r
    }
}

} // verus!
