//! Reading the flat-field encoding back: values that differ are written
//! differently, as long as no name holds a character that the encoding
//! parts its sections and its lists with.

use vstd::prelude::*;
use crate::flat::{
    base_digits, base_text, context_flat, game_flat, joined, list_section, listed,
    movement_flat, movement_items, movement_texts, out_text, play_flat, play_head, plays_flat,
    section, Preprocess,
};
use crate::game::GameModel;
use crate::inning::{half_text, inning_text, Inning};
use crate::movement::MovementModel;
use crate::play::{Play, PlayKind, PlayModel};
use crate::text::{decimal, digit_char, is_digit};

verus! {

/// Whether a text holds the character `c` nowhere.
pub open spec fn lacks(s: Seq<char>, c: char) -> bool {
    forall|i: int| 0 <= i < s.len() ==> s[i] != c
}

/// A text is parted at the first `c` in one way only.
pub proof fn lemma_first_split(a1: Seq<char>, b1: Seq<char>, a2: Seq<char>, b2: Seq<char>, c: char)
    requires
        lacks(a1, c),
        lacks(a2, c),
        a1.push(c) + b1 == a2.push(c) + b2,
    ensures
        a1 == a2,
        b1 == b2,
{
    let t1 = a1.push(c) + b1;
    let t2 = a2.push(c) + b2;
    if a1.len() < a2.len() {
        assert(t1[a1.len() as int] == c);
        assert(t2[a1.len() as int] == a2[a1.len() as int]);
    } else if a2.len() < a1.len() {
        assert(t2[a2.len() as int] == c);
        assert(t1[a2.len() as int] == a1[a2.len() as int]);
    }
    assert(a1.len() == a2.len());
    assert forall|i: int| 0 <= i < a1.len() implies a1[i] == a2[i] by {
        assert(t1[i] == a1[i]);
        assert(t2[i] == a2[i]);
    }
    assert(a1 =~= a2);
    assert(t1.len() == t2.len());
    assert forall|i: int| 0 <= i < b1.len() implies b1[i] == b2[i] by {
        assert(t1[a1.len() + 1 + i] == b1[i]);
        assert(t2[a2.len() + 1 + i] == b2[i]);
    }
    assert(b1 =~= b2);
}

/// A text is parted at the last `c` in one way only.
pub proof fn lemma_last_split(a1: Seq<char>, b1: Seq<char>, a2: Seq<char>, b2: Seq<char>, c: char)
    requires
        lacks(b1, c),
        lacks(b2, c),
        a1.push(c) + b1 == a2.push(c) + b2,
    ensures
        a1 == a2,
        b1 == b2,
{
    let t1 = a1.push(c) + b1;
    let t2 = a2.push(c) + b2;
    assert(t1.len() == t2.len());
    if a1.len() < a2.len() {
        assert(t2[a2.len() as int] == c);
        assert(t1[a2.len() as int] == b1[a2.len() - a1.len() - 1]);
    } else if a2.len() < a1.len() {
        assert(t1[a1.len() as int] == c);
        assert(t2[a1.len() as int] == b2[a1.len() - a2.len() - 1]);
    }
    assert(a1.len() == a2.len());
    assert forall|i: int| 0 <= i < a1.len() implies a1[i] == a2[i] by {
        assert(t1[i] == a1[i]);
        assert(t2[i] == a2[i]);
    }
    assert(a1 =~= a2);
    assert forall|i: int| 0 <= i < b1.len() implies b1[i] == b2[i] by {
        assert(t1[a1.len() + 1 + i] == b1[i]);
        assert(t2[a2.len() + 1 + i] == b2[i]);
    }
    assert(b1 =~= b2);
}

/// What stands in front of two equal texts can be taken away.
pub proof fn lemma_cancel_front(p: Seq<char>, x: Seq<char>, y: Seq<char>)
    requires
        p + x == p + y,
    ensures
        x == y,
{
    assert((p + x).len() == p.len() + x.len());
    assert((p + y).len() == p.len() + y.len());
    assert(x.len() == y.len());
    assert forall|i: int| 0 <= i < x.len() implies x[i] == y[i] by {
        assert((p + x)[p.len() + i] == x[i]);
        assert((p + y)[p.len() + i] == y[i]);
    }
    assert(x =~= y);
}

/// What stands behind two equal texts can be taken away.
pub proof fn lemma_cancel_back(x: Seq<char>, y: Seq<char>, s: Seq<char>)
    requires
        x + s == y + s,
    ensures
        x == y,
{
    assert((x + s).len() == x.len() + s.len());
    assert((y + s).len() == y.len() + s.len());
    assert(x.len() == y.len());
    assert forall|i: int| 0 <= i < x.len() implies x[i] == y[i] by {
        assert((x + s)[i] == x[i]);
        assert((y + s)[i] == y[i]);
    }
    assert(x =~= y);
}

/// Whether a text is empty or begins a bracketed section: a space, then an
/// opening bracket.
pub open spec fn opens(t: Seq<char>) -> bool {
    t.len() == 0 || (t.len() >= 2 && t[0] == ' ' && t[1] == '[')
}

/// One section after another is empty or begins a section.
pub proof fn lemma_opens_join(a: Seq<char>, b: Seq<char>)
    requires
        opens(a),
        opens(b),
    ensures
        opens(a + b),
{
    if a.len() == 0 {
        assert(a + b =~= b);
    } else {
        assert((a + b)[0] == a[0]);
        assert((a + b)[1] == a[1]);
    }
}

/// A value without an opening bracket is read back from in front of the
/// sections that follow it.
pub proof fn lemma_value_split(v1: Seq<char>, t1: Seq<char>, v2: Seq<char>, t2: Seq<char>)
    requires
        lacks(v1, '['),
        lacks(v2, '['),
        opens(t1),
        opens(t2),
        v1 + t1 == v2 + t2,
    ensures
        v1 == v2,
        t1 == t2,
{
    let x1 = v1 + t1;
    let x2 = v2 + t2;
    let n1 = v1.len() as int;
    let n2 = v2.len() as int;
    assert(x1.len() == x2.len());
    if n1 < n2 {
        assert(t1.len() >= 2);
        assert(x1[n1 + 1] == t1[1]);
        if n1 + 1 < n2 {
            assert(x2[n1 + 1] == v2[n1 + 1]);
        } else {
            assert(t2.len() >= 2);
            assert(x2[n1 + 1] == t2[0]);
        }
    } else if n2 < n1 {
        assert(t2.len() >= 2);
        assert(x2[n2 + 1] == t2[1]);
        if n2 + 1 < n1 {
            assert(x1[n2 + 1] == v1[n2 + 1]);
        } else {
            assert(t1.len() >= 2);
            assert(x1[n2 + 1] == t1[0]);
        }
    }
    assert(v1.len() == v2.len());
    assert forall|i: int| 0 <= i < v1.len() implies v1[i] == v2[i] by {
        assert(x1[i] == v1[i]);
        assert(x2[i] == v2[i]);
    }
    assert(v1 =~= v2);
    lemma_cancel_front(v1, t1, t2);
}

/// A numeral holds digits only, and at least one.
pub proof fn lemma_decimal_digits(n: nat)
    ensures
        decimal(n).len() >= 1,
        forall|i: int| 0 <= i < decimal(n).len() ==> is_digit(#[trigger] decimal(n)[i]),
    decreases n,
{
    if n >= 10 {
        lemma_decimal_digits(n / 10);
    }
}

/// Numbers that differ are written differently.
pub proof fn lemma_decimal_one_to_one(a: nat, b: nat)
    requires
        decimal(a) == decimal(b),
    ensures
        a == b,
    decreases a,
{
    lemma_decimal_digits(a / 10);
    lemma_decimal_digits(b / 10);
    if a < 10 && b < 10 {
        assert(decimal(a)[0] == digit_char(a));
        assert(decimal(b)[0] == digit_char(b));
    } else if a >= 10 && b >= 10 {
        let x = decimal(a / 10);
        let y = decimal(b / 10);
        assert(x.push(digit_char(a % 10)).last() == digit_char(a % 10));
        assert(y.push(digit_char(b % 10)).last() == digit_char(b % 10));
        assert(x.push(digit_char(a % 10)).drop_last() =~= x);
        assert(y.push(digit_char(b % 10)).drop_last() =~= y);
        lemma_decimal_one_to_one(a / 10, b / 10);
    } else if a < 10 {
        assert(decimal(a).len() == 1);
        assert(decimal(b).len() == decimal(b / 10).len() + 1);
    } else {
        assert(decimal(b).len() == 1);
        assert(decimal(a).len() == decimal(a / 10).len() + 1);
    }
}

/// Two texts without `c`, one after the other, are without `c`.
pub proof fn lemma_lacks_join(a: Seq<char>, b: Seq<char>, c: char)
    requires
        lacks(a, c),
        lacks(b, c),
    ensures
        lacks(a + b, c),
{
    assert forall|i: int| 0 <= i < (a + b).len() implies (a + b)[i] != c by {
        if i < a.len() {
            assert((a + b)[i] == a[i]);
        } else {
            assert((a + b)[i] == b[i - a.len()]);
        }
    }
}

/// Whether `c` is none of the characters that a base is written with: a
/// digit or a letter of `home`.
pub open spec fn apart(c: char) -> bool {
    !is_digit(c) && c != 'h' && c != 'o' && c != 'm' && c != 'e'
}

/// A base is written with digits or as `home`, and with at least one
/// character.
pub proof fn lemma_base_text_plain(b: Option<u8>, c: char)
    requires
        apart(c),
    ensures
        base_text(b).len() >= 1,
        lacks(base_text(b), c),
        base_text(b).last() != c,
{
    match b {
        Some(n) => {
            lemma_decimal_digits(n as nat);
            assert(is_digit(decimal(n as nat)[decimal(n as nat).len() - 1]));
        },
        None => {
            reveal_strlit("home");
            assert("home"@.len() == 4);
            assert("home"@[0] == 'h');
            assert("home"@[1] == 'o');
            assert("home"@[2] == 'm');
            assert("home"@[3] == 'e');
        },
    }
}

/// Bases that differ are written differently.
pub proof fn lemma_base_text_one_to_one(a: Option<u8>, b: Option<u8>)
    requires
        base_text(a) == base_text(b),
    ensures
        a == b,
{
    reveal_strlit("home");
    assert("home"@[0] == 'h');
    match (a, b) {
        (Some(x), Some(y)) => {
            lemma_decimal_one_to_one(x as nat, y as nat);
        },
        (Some(x), None) => {
            lemma_decimal_digits(x as nat);
            assert(is_digit(decimal(x as nat)[0]));
        },
        (None, Some(y)) => {
            lemma_decimal_digits(y as nat);
            assert(is_digit(decimal(y as nat)[0]));
        },
        (None, None) => {},
    }
}

/// A movement without its out mark: the runner, the start, the arrow and
/// the end.
pub open spec fn movement_stem(m: MovementModel) -> Seq<char> {
    m.runner + " "@ + base_text(m.start_base) + " -> "@ + base_text(m.end_base)
}

/// Movements that differ are written differently, whatever the runner is
/// called.
pub proof fn lemma_movement_one_to_one(m1: MovementModel, m2: MovementModel)
    requires
        movement_flat(m1) == movement_flat(m2),
    ensures
        m1 == m2,
{
    reveal_strlit(" [out]");
    reveal_strlit(" -> ");
    reveal_strlit(" ");
    assert(" [out]"@.len() == 6);
    assert(" [out]"@[5] == ']');
    assert(" -> "@.len() == 4);
    assert(" -> "@[0] == ' ');
    assert(" -> "@[1] == '-');
    assert(" -> "@[2] == '>');
    assert(" -> "@[3] == ' ');
    assert(" "@.len() == 1);
    assert(" "@[0] == ' ');
    let t1 = movement_flat(m1);
    let t2 = movement_flat(m2);
    let x1 = movement_stem(m1);
    let x2 = movement_stem(m2);
    assert(t1 == x1 + out_text(m1.is_out));
    assert(t2 == x2 + out_text(m2.is_out));
    lemma_base_text_plain(m1.start_base, ' ');
    lemma_base_text_plain(m2.start_base, ' ');
    lemma_base_text_plain(m1.end_base, '>');
    lemma_base_text_plain(m2.end_base, '>');
    lemma_base_text_plain(m1.end_base, ']');
    lemma_base_text_plain(m2.end_base, ']');
    // the out mark
    assert(x1.len() >= 1 && x1.last() == base_text(m1.end_base).last());
    assert(x2.len() >= 1 && x2.last() == base_text(m2.end_base).last());
    if m1.is_out {
        assert(t1.last() == ']');
    } else {
        assert(t1 =~= x1);
    }
    if m2.is_out {
        assert(t2.last() == ']');
    } else {
        assert(t2 =~= x2);
    }
    assert(m1.is_out == m2.is_out);
    lemma_cancel_back(x1, x2, out_text(m1.is_out));
    // the end
    let y1 = m1.runner + " "@ + base_text(m1.start_base);
    let y2 = m2.runner + " "@ + base_text(m2.start_base);
    let a1 = y1 + seq![' ', '-'];
    let a2 = y2 + seq![' ', '-'];
    let b1 = seq![' '] + base_text(m1.end_base);
    let b2 = seq![' '] + base_text(m2.end_base);
    assert(" -> "@ =~= seq![' ', '-', '>', ' ']);
    assert(x1 =~= a1.push('>') + b1);
    assert(x2 =~= a2.push('>') + b2);
    lemma_lacks_join(seq![' '], base_text(m1.end_base), '>');
    lemma_lacks_join(seq![' '], base_text(m2.end_base), '>');
    lemma_last_split(a1, b1, a2, b2, '>');
    lemma_cancel_front(seq![' '], base_text(m1.end_base), base_text(m2.end_base));
    lemma_base_text_one_to_one(m1.end_base, m2.end_base);
    // the start and the runner
    lemma_cancel_back(y1, y2, seq![' ', '-']);
    assert(" "@ =~= seq![' ']);
    assert(y1 =~= m1.runner.push(' ') + base_text(m1.start_base));
    assert(y2 =~= m2.runner.push(' ') + base_text(m2.start_base));
    lemma_last_split(
        m1.runner,
        base_text(m1.start_base),
        m2.runner,
        base_text(m2.start_base),
        ' ',
    );
    lemma_base_text_one_to_one(m1.start_base, m2.start_base);
}

/// Whether none of the texts holds the character `c`.
pub open spec fn all_lack(items: Seq<Seq<char>>, c: char) -> bool {
    forall|i: int| 0 <= i < items.len() ==> lacks(#[trigger] items[i], c)
}

/// Lists of texts without a comma that differ are joined differently.
pub proof fn lemma_joined_one_to_one(a: Seq<Seq<char>>, b: Seq<Seq<char>>)
    requires
        a.len() >= 1,
        b.len() >= 1,
        all_lack(a, ','),
        all_lack(b, ','),
        joined(a) == joined(b),
    ensures
        a == b,
    decreases a.len(),
{
    reveal_strlit(", ");
    assert(", "@.len() == 2);
    assert(", "@[0] == ',');
    assert(", "@[1] == ' ');
    assert(", "@ =~= seq![',', ' ']);
    let af = a.drop_last();
    let bf = b.drop_last();
    if a.len() == 1 && b.len() == 1 {
        assert(a =~= b);
    } else if a.len() == 1 {
        assert(lacks(a[0], ','));
        assert(joined(b)[joined(bf).len() as int] == ',');
    } else if b.len() == 1 {
        assert(lacks(b[0], ','));
        assert(joined(a)[joined(af).len() as int] == ',');
    } else {
        let ta = seq![' '] + a.last();
        let tb = seq![' '] + b.last();
        assert(joined(a) =~= joined(af).push(',') + ta);
        assert(joined(b) =~= joined(bf).push(',') + tb);
        assert(lacks(a.last(), ','));
        assert(lacks(b.last(), ','));
        lemma_lacks_join(seq![' '], a.last(), ',');
        lemma_lacks_join(seq![' '], b.last(), ',');
        lemma_last_split(joined(af), ta, joined(bf), tb, ',');
        lemma_cancel_front(seq![' '], a.last(), b.last());
        assert forall|i: int| 0 <= i < af.len() implies lacks(#[trigger] af[i], ',') by {
            assert(af[i] == a[i]);
        }
        assert forall|i: int| 0 <= i < bf.len() implies lacks(#[trigger] bf[i], ',') by {
            assert(bf[i] == b[i]);
        }
        lemma_joined_one_to_one(af, bf);
        assert(a =~= af.push(a.last()));
        assert(b =~= bf.push(b.last()));
    }
}

/// Lists of texts without a comma that differ are listed differently.
pub proof fn lemma_listed_one_to_one(a: Seq<Seq<char>>, b: Seq<Seq<char>>)
    requires
        all_lack(a, ','),
        all_lack(b, ','),
        listed(a) == listed(b),
    ensures
        a == b,
{
    reveal_strlit(" ");
    assert(" "@.len() == 1);
    if a.len() == 0 && b.len() == 0 {
        assert(a =~= b);
    } else if a.len() == 0 {
        assert(listed(b).len() >= 1);
    } else if b.len() == 0 {
        assert(listed(a).len() >= 1);
    } else {
        lemma_cancel_front(" "@, joined(a), joined(b));
        lemma_joined_one_to_one(a, b);
    }
}

/// A list of texts without `c` is joined without `c`, for a `c` that is
/// neither the comma nor the space.
pub proof fn lemma_joined_lacks(a: Seq<Seq<char>>, c: char)
    requires
        all_lack(a, c),
        c != ',',
        c != ' ',
    ensures
        lacks(joined(a), c),
        lacks(listed(a), c),
    decreases a.len(),
{
    reveal_strlit(", ");
    reveal_strlit(" ");
    assert(", "@.len() == 2);
    assert(", "@[0] == ',');
    assert(", "@[1] == ' ');
    assert(" "@.len() == 1);
    assert(" "@[0] == ' ');
    if a.len() == 1 {
        assert(lacks(a[0], c));
    } else if a.len() > 1 {
        let af = a.drop_last();
        assert forall|i: int| 0 <= i < af.len() implies lacks(#[trigger] af[i], c) by {
            assert(af[i] == a[i]);
        }
        lemma_joined_lacks(af, c);
        assert(lacks(a.last(), c));
        lemma_lacks_join(joined(af), ", "@, c);
        lemma_lacks_join(joined(af) + ", "@, a.last(), c);
    }
    if a.len() > 0 {
        lemma_lacks_join(" "@, joined(a), c);
    }
}

/// A movement whose runner's name holds no comma is written without a
/// comma.
pub proof fn lemma_movement_lacks_comma(m: MovementModel)
    requires
        lacks(m.runner, ','),
    ensures
        lacks(movement_flat(m), ','),
{
    reveal_strlit(" [out]");
    reveal_strlit(" -> ");
    reveal_strlit(" ");
    assert(" [out]"@.len() == 6);
    assert(" [out]"@[0] == ' ');
    assert(" [out]"@[1] == '[');
    assert(" [out]"@[2] == 'o');
    assert(" [out]"@[3] == 'u');
    assert(" [out]"@[4] == 't');
    assert(" [out]"@[5] == ']');
    assert(" -> "@.len() == 4);
    assert(" -> "@[0] == ' ');
    assert(" -> "@[1] == '-');
    assert(" -> "@[2] == '>');
    assert(" -> "@[3] == ' ');
    assert(" "@.len() == 1);
    assert(" "@[0] == ' ');
    lemma_base_text_plain(m.start_base, ',');
    lemma_base_text_plain(m.end_base, ',');
    let s0 = m.runner + " "@;
    lemma_lacks_join(m.runner, " "@, ',');
    let s1 = s0 + base_text(m.start_base);
    lemma_lacks_join(s0, base_text(m.start_base), ',');
    let s2 = s1 + " -> "@;
    lemma_lacks_join(s1, " -> "@, ',');
    let s3 = s2 + base_text(m.end_base);
    lemma_lacks_join(s2, base_text(m.end_base), ',');
    lemma_lacks_join(s3, out_text(m.is_out), ',');
}

/// Whether the name of no runner holds a comma.
pub open spec fn runners_plain(ms: Seq<MovementModel>) -> bool {
    forall|i: int| 0 <= i < ms.len() ==> lacks((#[trigger] ms[i]).runner, ',')
}

/// Lists of movements that differ are listed differently, as long as the
/// name of no runner holds a comma.
pub proof fn lemma_movements_one_to_one(a: Seq<MovementModel>, b: Seq<MovementModel>)
    requires
        runners_plain(a),
        runners_plain(b),
        listed(movement_texts(a)) == listed(movement_texts(b)),
    ensures
        a == b,
{
    let ta = movement_texts(a);
    let tb = movement_texts(b);
    assert forall|i: int| 0 <= i < ta.len() implies lacks(#[trigger] ta[i], ',') by {
        lemma_movement_lacks_comma(a[i]);
    }
    assert forall|i: int| 0 <= i < tb.len() implies lacks(#[trigger] tb[i], ',') by {
        lemma_movement_lacks_comma(b[i]);
    }
    lemma_listed_one_to_one(ta, tb);
    assert(a.len() == b.len());
    assert forall|i: int| 0 <= i < a.len() implies a[i] == b[i] by {
        assert(ta[i] == movement_flat(a[i]));
        assert(tb[i] == movement_flat(b[i]));
        lemma_movement_one_to_one(a[i], b[i]);
    }
    assert(a =~= b);
}

/// A half-inning is written without an opening bracket.
pub proof fn lemma_inning_text_plain(i: Inning)
    ensures
        lacks(inning_text(i), '['),
{
    reveal_strlit(" ");
    reveal_strlit("top");
    reveal_strlit("bottom");
    assert(" "@.len() == 1);
    assert(" "@[0] == ' ');
    assert("top"@.len() == 3);
    assert("top"@[0] == 't');
    assert("top"@[1] == 'o');
    assert("top"@[2] == 'p');
    assert("bottom"@.len() == 6);
    assert("bottom"@[0] == 'b');
    assert("bottom"@[1] == 'o');
    assert("bottom"@[2] == 't');
    assert("bottom"@[3] == 't');
    assert("bottom"@[4] == 'o');
    assert("bottom"@[5] == 'm');
    lemma_decimal_digits(i.number as nat);
    assert(lacks(decimal(i.number as nat), '['));
    assert(lacks(half_text(i.top), '['));
    lemma_lacks_join(decimal(i.number as nat), " "@, '[');
    lemma_lacks_join(decimal(i.number as nat) + " "@, half_text(i.top), '[');
}

/// Half-innings that differ are written differently.
pub proof fn lemma_inning_text_one_to_one(a: Inning, b: Inning)
    requires
        inning_text(a) == inning_text(b),
    ensures
        a == b,
{
    reveal_strlit(" ");
    reveal_strlit("top");
    reveal_strlit("bottom");
    assert(" "@.len() == 1);
    assert(" "@[0] == ' ');
    assert("top"@[0] == 't');
    assert("bottom"@[0] == 'b');
    assert("top"@.len() == 3);
    assert("bottom"@.len() == 6);
    lemma_decimal_digits(a.number as nat);
    lemma_decimal_digits(b.number as nat);
    let da = decimal(a.number as nat);
    let db = decimal(b.number as nat);
    assert(lacks(da, ' '));
    assert(lacks(db, ' '));
    assert(inning_text(a) =~= da.push(' ') + half_text(a.top));
    assert(inning_text(b) =~= db.push(' ') + half_text(b.top));
    lemma_first_split(da, half_text(a.top), db, half_text(b.top), ' ');
    lemma_decimal_one_to_one(a.number as nat, b.number as nat);
}

/// Whether a text begins a bracketed section.
pub open spec fn labelled(lit: Seq<char>) -> bool {
    lit.len() >= 2 && lit[0] == ' ' && lit[1] == '['
}

/// A section, and what follows it, is empty or begins a section.
pub proof fn lemma_section_opens(lit: Seq<char>, value: Option<Seq<char>>, t: Seq<char>)
    requires
        labelled(lit),
        opens(t),
    ensures
        opens(section(lit, value) + t),
{
    match value {
        Some(v) => {
            assert((lit + v)[0] == lit[0]);
            assert((lit + v)[1] == lit[1]);
        },
        None => {},
    }
    lemma_opens_join(section(lit, value), t);
}

/// A list section, and what follows it, is empty or begins a section.
pub proof fn lemma_list_section_opens(lit: Seq<char>, items: Option<Seq<Seq<char>>>, t: Seq<char>)
    requires
        labelled(lit),
        opens(t),
    ensures
        opens(list_section(lit, items) + t),
{
    match items {
        Some(v) => {
            assert((lit + listed(v))[0] == lit[0]);
            assert((lit + listed(v))[1] == lit[1]);
        },
        None => {},
    }
    lemma_opens_join(list_section(lit, items), t);
}

/// Whether a part that is present holds no opening bracket.
pub open spec fn plain(value: Option<Seq<char>>) -> bool {
    match value {
        Some(v) => lacks(v, '['),
        None => true,
    }
}

/// A part is read back from its section: two texts that agree, each a
/// section with the same label and then further sections, hold the same part
/// and agree in what follows.
pub proof fn lemma_section_read(
    lit: Seq<char>,
    v1: Option<Seq<char>>,
    t1: Seq<char>,
    v2: Option<Seq<char>>,
    t2: Seq<char>,
)
    requires
        labelled(lit),
        v1 is Some <==> v2 is Some,
        plain(v1),
        plain(v2),
        opens(t1),
        opens(t2),
        section(lit, v1) + t1 == section(lit, v2) + t2,
    ensures
        v1 == v2,
        t1 == t2,
{
    if v1 is Some {
        let a = v1->0;
        let b = v2->0;
        assert((lit + a) + t1 =~= lit + (a + t1));
        assert((lit + b) + t2 =~= lit + (b + t2));
        lemma_cancel_front(lit, a + t1, b + t2);
        lemma_value_split(a, t1, b, t2);
    } else {
        assert(section(lit, v1) + t1 =~= t1);
        assert(section(lit, v2) + t2 =~= t2);
    }
}

/// Whether a list that is present holds texts without an opening bracket
/// and without a comma.
pub open spec fn plain_list(items: Option<Seq<Seq<char>>>) -> bool {
    match items {
        Some(v) => all_lack(v, '[') && all_lack(v, ','),
        None => true,
    }
}

/// A list is read back from its section.
pub proof fn lemma_list_section_read(
    lit: Seq<char>,
    v1: Option<Seq<Seq<char>>>,
    t1: Seq<char>,
    v2: Option<Seq<Seq<char>>>,
    t2: Seq<char>,
)
    requires
        labelled(lit),
        v1 is Some <==> v2 is Some,
        plain_list(v1),
        plain_list(v2),
        opens(t1),
        opens(t2),
        list_section(lit, v1) + t1 == list_section(lit, v2) + t2,
    ensures
        v1 == v2,
        t1 == t2,
{
    if v1 is Some {
        let a = listed(v1->0);
        let b = listed(v2->0);
        assert((lit + a) + t1 =~= lit + (a + t1));
        assert((lit + b) + t2 =~= lit + (b + t2));
        lemma_cancel_front(lit, a + t1, b + t2);
        lemma_joined_lacks(v1->0, '[');
        lemma_joined_lacks(v2->0, '[');
        lemma_value_split(a, t1, b, t2);
        lemma_listed_one_to_one(v1->0, v2->0);
    } else {
        assert(list_section(lit, v1) + t1 =~= t1);
        assert(list_section(lit, v2) + t2 =~= t2);
    }
}

/// Whether the movements that are present have runners whose names hold no
/// comma.
pub open spec fn plain_moves(ms: Option<Seq<MovementModel>>) -> bool {
    match ms {
        Some(v) => runners_plain(v),
        None => true,
    }
}

/// The movements are read back from their section, which is the last.
pub proof fn lemma_moves_section_read(
    lit: Seq<char>,
    m1: Option<Seq<MovementModel>>,
    m2: Option<Seq<MovementModel>>,
)
    requires
        m1 is Some <==> m2 is Some,
        plain_moves(m1),
        plain_moves(m2),
        list_section(lit, movement_items(m1)) == list_section(lit, movement_items(m2)),
    ensures
        m1 == m2,
{
    if m1 is Some {
        lemma_cancel_front(lit, listed(movement_texts(m1->0)), listed(movement_texts(m2->0)));
        lemma_movements_one_to_one(m1->0, m2->0);
    }
}

/// The sections of a play from the runner on.
pub open spec fn from_runner(p: PlayModel) -> Seq<char> {
    section(" [RUNNER] "@, p.runner) + list_section(
        " [MOVEMENTS]"@,
        movement_items(p.movements),
    )
}

/// The sections of a play from the scoring runner on.
pub open spec fn from_scoring(p: PlayModel) -> Seq<char> {
    section(" [SCORING_RUNNER] "@, p.scoring_runner) + from_runner(p)
}

/// The sections of a play from the list of fielders on.
pub open spec fn from_fielders(p: PlayModel) -> Seq<char> {
    list_section(" [FIELDERS]"@, p.fielders) + from_scoring(p)
}

/// The sections of a play from the single fielder on.
pub open spec fn from_fielder(p: PlayModel) -> Seq<char> {
    section(" [FIELDER] "@, p.fielder) + from_fielders(p)
}

/// The sections of a play from the catcher on.
pub open spec fn from_catcher(p: PlayModel) -> Seq<char> {
    section(" [CATCHER] "@, p.catcher) + from_fielder(p)
}

/// The sections of a play from the pitcher on.
pub open spec fn from_pitcher(p: PlayModel) -> Seq<char> {
    section(" [PITCHER] "@, p.pitcher) + from_catcher(p)
}

/// The sections of a play from the batter on.
pub open spec fn from_batter(p: PlayModel) -> Seq<char> {
    section(" [BATTER] "@, p.batter) + from_pitcher(p)
}

/// The sections of a play from the base on.
pub open spec fn from_base(p: PlayModel) -> Seq<char> {
    section(" [BASE] "@, base_digits(p.base)) + from_batter(p)
}

/// The text of a play, read from the left: the mark of a play, the kind in
/// words, the half-inning, and then the sections of the parts.
pub open spec fn play_read(p: PlayModel) -> Seq<char> {
    "[PLAY] "@ + (p.kind.label_text() + (" [INNING] "@ + (inning_text(p.inning) + from_base(p))))
}

proof fn lemma_regroup(a: Seq<char>, b: Seq<char>, c: Seq<char>)
    ensures
        (a + b) + c == a + (b + c),
{
    assert((a + b) + c =~= a + (b + c));
}

/// The text of a play is the same, read from the left.
pub proof fn lemma_play_read(p: PlayModel)
    ensures
        play_flat(p) == play_read(p),
{
    let s_base = section(" [BASE] "@, base_digits(p.base));
    let s1 = section(" [BATTER] "@, p.batter);
    let s2 = section(" [PITCHER] "@, p.pitcher);
    let s3 = section(" [CATCHER] "@, p.catcher);
    let s4 = section(" [FIELDER] "@, p.fielder);
    let s5 = list_section(" [FIELDERS]"@, p.fielders);
    let s6 = section(" [SCORING_RUNNER] "@, p.scoring_runner);
    let s7 = section(" [RUNNER] "@, p.runner);
    let s8 = list_section(" [MOVEMENTS]"@, movement_items(p.movements));
    let h = play_head(p);
    // fold the sections from the right
    lemma_regroup(h + s1 + s2 + s3 + s4 + s5 + s6, s7, s8);
    lemma_regroup(h + s1 + s2 + s3 + s4 + s5, s6, s7 + s8);
    lemma_regroup(h + s1 + s2 + s3 + s4, s5, s6 + (s7 + s8));
    lemma_regroup(h + s1 + s2 + s3, s4, s5 + (s6 + (s7 + s8)));
    lemma_regroup(h + s1 + s2, s3, s4 + (s5 + (s6 + (s7 + s8))));
    lemma_regroup(h + s1, s2, s3 + (s4 + (s5 + (s6 + (s7 + s8)))));
    lemma_regroup(h, s1, s2 + (s3 + (s4 + (s5 + (s6 + (s7 + s8))))));
    assert(play_flat(p) == h + from_batter(p));
    // and the head
    let mark = "[PLAY] "@;
    let label = p.kind.label_text();
    let lit = " [INNING] "@;
    let inning = inning_text(p.inning);
    assert(h == mark + label + lit + inning + s_base);
    lemma_regroup(mark + label + lit + inning, s_base, from_batter(p));
    lemma_regroup(mark + label + lit, inning, from_base(p));
    lemma_regroup(mark + label, lit, inning + from_base(p));
    lemma_regroup(mark, label, lit + (inning + from_base(p)));
}

/// Every run of sections of a play is empty or begins a section.
pub proof fn lemma_tails_open(p: PlayModel)
    ensures
        opens(from_runner(p)),
        opens(from_scoring(p)),
        opens(from_fielders(p)),
        opens(from_fielder(p)),
        opens(from_catcher(p)),
        opens(from_pitcher(p)),
        opens(from_batter(p)),
        opens(from_base(p)),
        labelled(" [BASE] "@),
        labelled(" [BATTER] "@),
        labelled(" [PITCHER] "@),
        labelled(" [CATCHER] "@),
        labelled(" [FIELDER] "@),
        labelled(" [FIELDERS]"@),
        labelled(" [SCORING_RUNNER] "@),
        labelled(" [RUNNER] "@),
        labelled(" [MOVEMENTS]"@),
        labelled(" [INNING] "@),
{
    reveal_strlit(" [BASE] ");
    reveal_strlit(" [BATTER] ");
    reveal_strlit(" [PITCHER] ");
    reveal_strlit(" [CATCHER] ");
    reveal_strlit(" [FIELDER] ");
    reveal_strlit(" [FIELDERS]");
    reveal_strlit(" [SCORING_RUNNER] ");
    reveal_strlit(" [RUNNER] ");
    reveal_strlit(" [MOVEMENTS]");
    reveal_strlit(" [INNING] ");
    assert(labelled(" [BASE] "@));
    assert(labelled(" [BATTER] "@));
    assert(labelled(" [PITCHER] "@));
    assert(labelled(" [CATCHER] "@));
    assert(labelled(" [FIELDER] "@));
    assert(labelled(" [FIELDERS]"@));
    assert(labelled(" [SCORING_RUNNER] "@));
    assert(labelled(" [RUNNER] "@));
    assert(labelled(" [MOVEMENTS]"@));
    assert(labelled(" [INNING] "@));
    let last = list_section(" [MOVEMENTS]"@, movement_items(p.movements));
    lemma_list_section_opens(" [MOVEMENTS]"@, movement_items(p.movements), Seq::empty());
    assert(last + Seq::<char>::empty() =~= last);
    lemma_section_opens(" [RUNNER] "@, p.runner, last);
    lemma_section_opens(" [SCORING_RUNNER] "@, p.scoring_runner, from_runner(p));
    lemma_list_section_opens(" [FIELDERS]"@, p.fielders, from_scoring(p));
    lemma_section_opens(" [FIELDER] "@, p.fielder, from_fielders(p));
    lemma_section_opens(" [CATCHER] "@, p.catcher, from_fielder(p));
    lemma_section_opens(" [PITCHER] "@, p.pitcher, from_catcher(p));
    lemma_section_opens(" [BATTER] "@, p.batter, from_pitcher(p));
    lemma_section_opens(" [BASE] "@, base_digits(p.base), from_batter(p));
}

/// Whether no name of a play holds a character that the encoding parts its
/// sections and lists with: no name holds an opening bracket, and no name in
/// a list (a fielder, the runner of a movement) holds a comma.
pub open spec fn plain_names(p: PlayModel) -> bool {
    &&& plain(p.batter)
    &&& plain(p.pitcher)
    &&& plain(p.catcher)
    &&& plain(p.fielder)
    &&& plain(p.scoring_runner)
    &&& plain(p.runner)
    &&& plain_list(p.fielders)
    &&& plain_moves(p.movements)
}

/// The parts of a play are read back from its sections: two plays with the
/// same parts present and plain names, whose sections agree, agree in every
/// part.
pub proof fn lemma_parts_read(p1: PlayModel, p2: PlayModel)
    requires
        p1.fits(),
        p2.fits(),
        p1.kind == p2.kind,
        plain_names(p1),
        plain_names(p2),
        from_base(p1) == from_base(p2),
    ensures
        p1.base == p2.base,
        p1.batter == p2.batter,
        p1.pitcher == p2.pitcher,
        p1.catcher == p2.catcher,
        p1.fielder == p2.fielder,
        p1.fielders == p2.fielders,
        p1.scoring_runner == p2.scoring_runner,
        p1.runner == p2.runner,
        p1.movements == p2.movements,
{
    lemma_tails_open(p1);
    lemma_tails_open(p2);
    if p1.base is Some {
        lemma_decimal_digits(p1.base->0 as nat);
        lemma_decimal_digits(p2.base->0 as nat);
        assert(lacks(decimal(p1.base->0 as nat), '['));
        assert(lacks(decimal(p2.base->0 as nat), '['));
    }
    lemma_section_read(
        " [BASE] "@,
        base_digits(p1.base),
        from_batter(p1),
        base_digits(p2.base),
        from_batter(p2),
    );
    if p1.base is Some {
        lemma_decimal_one_to_one(p1.base->0 as nat, p2.base->0 as nat);
    }
    lemma_section_read(" [BATTER] "@, p1.batter, from_pitcher(p1), p2.batter, from_pitcher(p2));
    lemma_section_read(" [PITCHER] "@, p1.pitcher, from_catcher(p1), p2.pitcher, from_catcher(p2));
    lemma_section_read(" [CATCHER] "@, p1.catcher, from_fielder(p1), p2.catcher, from_fielder(p2));
    lemma_section_read(
        " [FIELDER] "@,
        p1.fielder,
        from_fielders(p1),
        p2.fielder,
        from_fielders(p2),
    );
    lemma_list_section_read(
        " [FIELDERS]"@,
        p1.fielders,
        from_scoring(p1),
        p2.fielders,
        from_scoring(p2),
    );
    lemma_section_read(
        " [SCORING_RUNNER] "@,
        p1.scoring_runner,
        from_runner(p1),
        p2.scoring_runner,
        from_runner(p2),
    );
    let m1 = list_section(" [MOVEMENTS]"@, movement_items(p1.movements));
    let m2 = list_section(" [MOVEMENTS]"@, movement_items(p2.movements));
    lemma_list_section_opens(" [MOVEMENTS]"@, movement_items(p1.movements), Seq::empty());
    lemma_list_section_opens(" [MOVEMENTS]"@, movement_items(p2.movements), Seq::empty());
    assert(m1 + Seq::<char>::empty() =~= m1);
    assert(m2 + Seq::<char>::empty() =~= m2);
    lemma_section_read(" [RUNNER] "@, p1.runner, m1, p2.runner, m2);
    lemma_moves_section_read(" [MOVEMENTS]"@, p1.movements, p2.movements);
}

proof fn lemma_label_plain_0(kind: PlayKind)
    requires
        kind is Groundout
            || kind is BuntGroundout
            || kind is Strikeout
            || kind is Lineout
            || kind is BuntLineout
            || kind is Flyout,
    ensures
        lacks(kind.label_text(), '['),
{
    match kind {
        PlayKind::Groundout => {
            let s = "Groundout"@;
            reveal_strlit("Groundout");
            assert(s.len() == 9);
            assert forall|i: int| 0 <= i < s.len() implies s[i] != '[' by {
                if i == 0 {
                    assert(s[0] == 'G');
                } else if i == 1 {
                    assert(s[1] == 'r');
                } else if i == 2 {
                    assert(s[2] == 'o');
                } else if i == 3 {
                    assert(s[3] == 'u');
                } else if i == 4 {
                    assert(s[4] == 'n');
                } else if i == 5 {
                    assert(s[5] == 'd');
                } else if i == 6 {
                    assert(s[6] == 'o');
                } else if i == 7 {
                    assert(s[7] == 'u');
                } else if i == 8 {
                    assert(s[8] == 't');
                }
            }
        },
        PlayKind::BuntGroundout => {
            let s = "Bunt Groundout"@;
            reveal_strlit("Bunt Groundout");
            assert(s.len() == 14);
            assert forall|i: int| 0 <= i < s.len() implies s[i] != '[' by {
                if i == 0 {
                    assert(s[0] == 'B');
                } else if i == 1 {
                    assert(s[1] == 'u');
                } else if i == 2 {
                    assert(s[2] == 'n');
                } else if i == 3 {
                    assert(s[3] == 't');
                } else if i == 4 {
                    assert(s[4] == ' ');
                } else if i == 5 {
                    assert(s[5] == 'G');
                } else if i == 6 {
                    assert(s[6] == 'r');
                } else if i == 7 {
                    assert(s[7] == 'o');
                } else if i == 8 {
                    assert(s[8] == 'u');
                } else if i == 9 {
                    assert(s[9] == 'n');
                } else if i == 10 {
                    assert(s[10] == 'd');
                } else if i == 11 {
                    assert(s[11] == 'o');
                } else if i == 12 {
                    assert(s[12] == 'u');
                } else if i == 13 {
                    assert(s[13] == 't');
                }
            }
        },
        PlayKind::Strikeout => {
            let s = "Strikeout"@;
            reveal_strlit("Strikeout");
            assert(s.len() == 9);
            assert forall|i: int| 0 <= i < s.len() implies s[i] != '[' by {
                if i == 0 {
                    assert(s[0] == 'S');
                } else if i == 1 {
                    assert(s[1] == 't');
                } else if i == 2 {
                    assert(s[2] == 'r');
                } else if i == 3 {
                    assert(s[3] == 'i');
                } else if i == 4 {
                    assert(s[4] == 'k');
                } else if i == 5 {
                    assert(s[5] == 'e');
                } else if i == 6 {
                    assert(s[6] == 'o');
                } else if i == 7 {
                    assert(s[7] == 'u');
                } else if i == 8 {
                    assert(s[8] == 't');
                }
            }
        },
        PlayKind::Lineout => {
            let s = "Lineout"@;
            reveal_strlit("Lineout");
            assert(s.len() == 7);
            assert forall|i: int| 0 <= i < s.len() implies s[i] != '[' by {
                if i == 0 {
                    assert(s[0] == 'L');
                } else if i == 1 {
                    assert(s[1] == 'i');
                } else if i == 2 {
                    assert(s[2] == 'n');
                } else if i == 3 {
                    assert(s[3] == 'e');
                } else if i == 4 {
                    assert(s[4] == 'o');
                } else if i == 5 {
                    assert(s[5] == 'u');
                } else if i == 6 {
                    assert(s[6] == 't');
                }
            }
        },
        PlayKind::BuntLineout => {
            let s = "Bunt Lineout"@;
            reveal_strlit("Bunt Lineout");
            assert(s.len() == 12);
            assert forall|i: int| 0 <= i < s.len() implies s[i] != '[' by {
                if i == 0 {
                    assert(s[0] == 'B');
                } else if i == 1 {
                    assert(s[1] == 'u');
                } else if i == 2 {
                    assert(s[2] == 'n');
                } else if i == 3 {
                    assert(s[3] == 't');
                } else if i == 4 {
                    assert(s[4] == ' ');
                } else if i == 5 {
                    assert(s[5] == 'L');
                } else if i == 6 {
                    assert(s[6] == 'i');
                } else if i == 7 {
                    assert(s[7] == 'n');
                } else if i == 8 {
                    assert(s[8] == 'e');
                } else if i == 9 {
                    assert(s[9] == 'o');
                } else if i == 10 {
                    assert(s[10] == 'u');
                } else if i == 11 {
                    assert(s[11] == 't');
                }
            }
        },
        PlayKind::Flyout => {
            let s = "Flyout"@;
            reveal_strlit("Flyout");
            assert(s.len() == 6);
            assert forall|i: int| 0 <= i < s.len() implies s[i] != '[' by {
                if i == 0 {
                    assert(s[0] == 'F');
                } else if i == 1 {
                    assert(s[1] == 'l');
                } else if i == 2 {
                    assert(s[2] == 'y');
                } else if i == 3 {
                    assert(s[3] == 'o');
                } else if i == 4 {
                    assert(s[4] == 'u');
                } else if i == 5 {
                    assert(s[5] == 't');
                }
            }
        },
        _ => {},
    }
}

proof fn lemma_label_plain_1(kind: PlayKind)
    requires
        kind is PopOut
            || kind is BuntPopOut
            || kind is Forceout
            || kind is FieldersChoiceOut
            || kind is DoublePlay
            || kind is TriplePlay,
    ensures
        lacks(kind.label_text(), '['),
{
    match kind {
        PlayKind::PopOut => {
            let s = "Pop Out"@;
            reveal_strlit("Pop Out");
            assert(s.len() == 7);
            assert forall|i: int| 0 <= i < s.len() implies s[i] != '[' by {
                if i == 0 {
                    assert(s[0] == 'P');
                } else if i == 1 {
                    assert(s[1] == 'o');
                } else if i == 2 {
                    assert(s[2] == 'p');
                } else if i == 3 {
                    assert(s[3] == ' ');
                } else if i == 4 {
                    assert(s[4] == 'O');
                } else if i == 5 {
                    assert(s[5] == 'u');
                } else if i == 6 {
                    assert(s[6] == 't');
                }
            }
        },
        PlayKind::BuntPopOut => {
            let s = "Bunt Pop Out"@;
            reveal_strlit("Bunt Pop Out");
            assert(s.len() == 12);
            assert forall|i: int| 0 <= i < s.len() implies s[i] != '[' by {
                if i == 0 {
                    assert(s[0] == 'B');
                } else if i == 1 {
                    assert(s[1] == 'u');
                } else if i == 2 {
                    assert(s[2] == 'n');
                } else if i == 3 {
                    assert(s[3] == 't');
                } else if i == 4 {
                    assert(s[4] == ' ');
                } else if i == 5 {
                    assert(s[5] == 'P');
                } else if i == 6 {
                    assert(s[6] == 'o');
                } else if i == 7 {
                    assert(s[7] == 'p');
                } else if i == 8 {
                    assert(s[8] == ' ');
                } else if i == 9 {
                    assert(s[9] == 'O');
                } else if i == 10 {
                    assert(s[10] == 'u');
                } else if i == 11 {
                    assert(s[11] == 't');
                }
            }
        },
        PlayKind::Forceout => {
            let s = "Forceout"@;
            reveal_strlit("Forceout");
            assert(s.len() == 8);
            assert forall|i: int| 0 <= i < s.len() implies s[i] != '[' by {
                if i == 0 {
                    assert(s[0] == 'F');
                } else if i == 1 {
                    assert(s[1] == 'o');
                } else if i == 2 {
                    assert(s[2] == 'r');
                } else if i == 3 {
                    assert(s[3] == 'c');
                } else if i == 4 {
                    assert(s[4] == 'e');
                } else if i == 5 {
                    assert(s[5] == 'o');
                } else if i == 6 {
                    assert(s[6] == 'u');
                } else if i == 7 {
                    assert(s[7] == 't');
                }
            }
        },
        PlayKind::FieldersChoiceOut => {
            let s = "Fielders Choice Out"@;
            reveal_strlit("Fielders Choice Out");
            assert(s.len() == 19);
            assert forall|i: int| 0 <= i < s.len() implies s[i] != '[' by {
                if i == 0 {
                    assert(s[0] == 'F');
                } else if i == 1 {
                    assert(s[1] == 'i');
                } else if i == 2 {
                    assert(s[2] == 'e');
                } else if i == 3 {
                    assert(s[3] == 'l');
                } else if i == 4 {
                    assert(s[4] == 'd');
                } else if i == 5 {
                    assert(s[5] == 'e');
                } else if i == 6 {
                    assert(s[6] == 'r');
                } else if i == 7 {
                    assert(s[7] == 's');
                } else if i == 8 {
                    assert(s[8] == ' ');
                } else if i == 9 {
                    assert(s[9] == 'C');
                } else if i == 10 {
                    assert(s[10] == 'h');
                } else if i == 11 {
                    assert(s[11] == 'o');
                } else if i == 12 {
                    assert(s[12] == 'i');
                } else if i == 13 {
                    assert(s[13] == 'c');
                } else if i == 14 {
                    assert(s[14] == 'e');
                } else if i == 15 {
                    assert(s[15] == ' ');
                } else if i == 16 {
                    assert(s[16] == 'O');
                } else if i == 17 {
                    assert(s[17] == 'u');
                } else if i == 18 {
                    assert(s[18] == 't');
                }
            }
        },
        PlayKind::DoublePlay => {
            let s = "Double Play"@;
            reveal_strlit("Double Play");
            assert(s.len() == 11);
            assert forall|i: int| 0 <= i < s.len() implies s[i] != '[' by {
                if i == 0 {
                    assert(s[0] == 'D');
                } else if i == 1 {
                    assert(s[1] == 'o');
                } else if i == 2 {
                    assert(s[2] == 'u');
                } else if i == 3 {
                    assert(s[3] == 'b');
                } else if i == 4 {
                    assert(s[4] == 'l');
                } else if i == 5 {
                    assert(s[5] == 'e');
                } else if i == 6 {
                    assert(s[6] == ' ');
                } else if i == 7 {
                    assert(s[7] == 'P');
                } else if i == 8 {
                    assert(s[8] == 'l');
                } else if i == 9 {
                    assert(s[9] == 'a');
                } else if i == 10 {
                    assert(s[10] == 'y');
                }
            }
        },
        PlayKind::TriplePlay => {
            let s = "Triple Play"@;
            reveal_strlit("Triple Play");
            assert(s.len() == 11);
            assert forall|i: int| 0 <= i < s.len() implies s[i] != '[' by {
                if i == 0 {
                    assert(s[0] == 'T');
                } else if i == 1 {
                    assert(s[1] == 'r');
                } else if i == 2 {
                    assert(s[2] == 'i');
                } else if i == 3 {
                    assert(s[3] == 'p');
                } else if i == 4 {
                    assert(s[4] == 'l');
                } else if i == 5 {
                    assert(s[5] == 'e');
                } else if i == 6 {
                    assert(s[6] == ' ');
                } else if i == 7 {
                    assert(s[7] == 'P');
                } else if i == 8 {
                    assert(s[8] == 'l');
                } else if i == 9 {
                    assert(s[9] == 'a');
                } else if i == 10 {
                    assert(s[10] == 'y');
                }
            }
        },
        _ => {},
    }
}

proof fn lemma_label_plain_2(kind: PlayKind)
    requires
        kind is RunnerDoublePlay
            || kind is RunnerTriplePlay
            || kind is GroundedIntoDoublePlay
            || kind is StrikeoutDoublePlay
            || kind is Pickoff
            || kind is PickoffError,
    ensures
        lacks(kind.label_text(), '['),
{
    match kind {
        PlayKind::RunnerDoublePlay => {
            let s = "Runner Double Play"@;
            reveal_strlit("Runner Double Play");
            assert(s.len() == 18);
            assert forall|i: int| 0 <= i < s.len() implies s[i] != '[' by {
                if i == 0 {
                    assert(s[0] == 'R');
                } else if i == 1 {
                    assert(s[1] == 'u');
                } else if i == 2 {
                    assert(s[2] == 'n');
                } else if i == 3 {
                    assert(s[3] == 'n');
                } else if i == 4 {
                    assert(s[4] == 'e');
                } else if i == 5 {
                    assert(s[5] == 'r');
                } else if i == 6 {
                    assert(s[6] == ' ');
                } else if i == 7 {
                    assert(s[7] == 'D');
                } else if i == 8 {
                    assert(s[8] == 'o');
                } else if i == 9 {
                    assert(s[9] == 'u');
                } else if i == 10 {
                    assert(s[10] == 'b');
                } else if i == 11 {
                    assert(s[11] == 'l');
                } else if i == 12 {
                    assert(s[12] == 'e');
                } else if i == 13 {
                    assert(s[13] == ' ');
                } else if i == 14 {
                    assert(s[14] == 'P');
                } else if i == 15 {
                    assert(s[15] == 'l');
                } else if i == 16 {
                    assert(s[16] == 'a');
                } else if i == 17 {
                    assert(s[17] == 'y');
                }
            }
        },
        PlayKind::RunnerTriplePlay => {
            let s = "Runner Triple Play"@;
            reveal_strlit("Runner Triple Play");
            assert(s.len() == 18);
            assert forall|i: int| 0 <= i < s.len() implies s[i] != '[' by {
                if i == 0 {
                    assert(s[0] == 'R');
                } else if i == 1 {
                    assert(s[1] == 'u');
                } else if i == 2 {
                    assert(s[2] == 'n');
                } else if i == 3 {
                    assert(s[3] == 'n');
                } else if i == 4 {
                    assert(s[4] == 'e');
                } else if i == 5 {
                    assert(s[5] == 'r');
                } else if i == 6 {
                    assert(s[6] == ' ');
                } else if i == 7 {
                    assert(s[7] == 'T');
                } else if i == 8 {
                    assert(s[8] == 'r');
                } else if i == 9 {
                    assert(s[9] == 'i');
                } else if i == 10 {
                    assert(s[10] == 'p');
                } else if i == 11 {
                    assert(s[11] == 'l');
                } else if i == 12 {
                    assert(s[12] == 'e');
                } else if i == 13 {
                    assert(s[13] == ' ');
                } else if i == 14 {
                    assert(s[14] == 'P');
                } else if i == 15 {
                    assert(s[15] == 'l');
                } else if i == 16 {
                    assert(s[16] == 'a');
                } else if i == 17 {
                    assert(s[17] == 'y');
                }
            }
        },
        PlayKind::GroundedIntoDoublePlay => {
            let s = "Grounded Into Double Play"@;
            reveal_strlit("Grounded Into Double Play");
            assert(s.len() == 25);
            assert forall|i: int| 0 <= i < s.len() implies s[i] != '[' by {
                if i == 0 {
                    assert(s[0] == 'G');
                } else if i == 1 {
                    assert(s[1] == 'r');
                } else if i == 2 {
                    assert(s[2] == 'o');
                } else if i == 3 {
                    assert(s[3] == 'u');
                } else if i == 4 {
                    assert(s[4] == 'n');
                } else if i == 5 {
                    assert(s[5] == 'd');
                } else if i == 6 {
                    assert(s[6] == 'e');
                } else if i == 7 {
                    assert(s[7] == 'd');
                } else if i == 8 {
                    assert(s[8] == ' ');
                } else if i == 9 {
                    assert(s[9] == 'I');
                } else if i == 10 {
                    assert(s[10] == 'n');
                } else if i == 11 {
                    assert(s[11] == 't');
                } else if i == 12 {
                    assert(s[12] == 'o');
                } else if i == 13 {
                    assert(s[13] == ' ');
                } else if i == 14 {
                    assert(s[14] == 'D');
                } else if i == 15 {
                    assert(s[15] == 'o');
                } else if i == 16 {
                    assert(s[16] == 'u');
                } else if i == 17 {
                    assert(s[17] == 'b');
                } else if i == 18 {
                    assert(s[18] == 'l');
                } else if i == 19 {
                    assert(s[19] == 'e');
                } else if i == 20 {
                    assert(s[20] == ' ');
                } else if i == 21 {
                    assert(s[21] == 'P');
                } else if i == 22 {
                    assert(s[22] == 'l');
                } else if i == 23 {
                    assert(s[23] == 'a');
                } else if i == 24 {
                    assert(s[24] == 'y');
                }
            }
        },
        PlayKind::StrikeoutDoublePlay => {
            let s = "Strikeout Double Play"@;
            reveal_strlit("Strikeout Double Play");
            assert(s.len() == 21);
            assert forall|i: int| 0 <= i < s.len() implies s[i] != '[' by {
                if i == 0 {
                    assert(s[0] == 'S');
                } else if i == 1 {
                    assert(s[1] == 't');
                } else if i == 2 {
                    assert(s[2] == 'r');
                } else if i == 3 {
                    assert(s[3] == 'i');
                } else if i == 4 {
                    assert(s[4] == 'k');
                } else if i == 5 {
                    assert(s[5] == 'e');
                } else if i == 6 {
                    assert(s[6] == 'o');
                } else if i == 7 {
                    assert(s[7] == 'u');
                } else if i == 8 {
                    assert(s[8] == 't');
                } else if i == 9 {
                    assert(s[9] == ' ');
                } else if i == 10 {
                    assert(s[10] == 'D');
                } else if i == 11 {
                    assert(s[11] == 'o');
                } else if i == 12 {
                    assert(s[12] == 'u');
                } else if i == 13 {
                    assert(s[13] == 'b');
                } else if i == 14 {
                    assert(s[14] == 'l');
                } else if i == 15 {
                    assert(s[15] == 'e');
                } else if i == 16 {
                    assert(s[16] == ' ');
                } else if i == 17 {
                    assert(s[17] == 'P');
                } else if i == 18 {
                    assert(s[18] == 'l');
                } else if i == 19 {
                    assert(s[19] == 'a');
                } else if i == 20 {
                    assert(s[20] == 'y');
                }
            }
        },
        PlayKind::Pickoff => {
            let s = "Pickoff"@;
            reveal_strlit("Pickoff");
            assert(s.len() == 7);
            assert forall|i: int| 0 <= i < s.len() implies s[i] != '[' by {
                if i == 0 {
                    assert(s[0] == 'P');
                } else if i == 1 {
                    assert(s[1] == 'i');
                } else if i == 2 {
                    assert(s[2] == 'c');
                } else if i == 3 {
                    assert(s[3] == 'k');
                } else if i == 4 {
                    assert(s[4] == 'o');
                } else if i == 5 {
                    assert(s[5] == 'f');
                } else if i == 6 {
                    assert(s[6] == 'f');
                }
            }
        },
        PlayKind::PickoffError => {
            let s = "Pickoff Error"@;
            reveal_strlit("Pickoff Error");
            assert(s.len() == 13);
            assert forall|i: int| 0 <= i < s.len() implies s[i] != '[' by {
                if i == 0 {
                    assert(s[0] == 'P');
                } else if i == 1 {
                    assert(s[1] == 'i');
                } else if i == 2 {
                    assert(s[2] == 'c');
                } else if i == 3 {
                    assert(s[3] == 'k');
                } else if i == 4 {
                    assert(s[4] == 'o');
                } else if i == 5 {
                    assert(s[5] == 'f');
                } else if i == 6 {
                    assert(s[6] == 'f');
                } else if i == 7 {
                    assert(s[7] == ' ');
                } else if i == 8 {
                    assert(s[8] == 'E');
                } else if i == 9 {
                    assert(s[9] == 'r');
                } else if i == 10 {
                    assert(s[10] == 'r');
                } else if i == 11 {
                    assert(s[11] == 'o');
                } else if i == 12 {
                    assert(s[12] == 'r');
                }
            }
        },
        _ => {},
    }
}

proof fn lemma_label_plain_3(kind: PlayKind)
    requires
        kind is CaughtStealing
            || kind is PickoffCaughtStealing
            || kind is WildPitch
            || kind is RunnerOut
            || kind is FieldOut
            || kind is BatterOut,
    ensures
        lacks(kind.label_text(), '['),
{
    match kind {
        PlayKind::CaughtStealing => {
            let s = "Caught Stealing"@;
            reveal_strlit("Caught Stealing");
            assert(s.len() == 15);
            assert forall|i: int| 0 <= i < s.len() implies s[i] != '[' by {
                if i == 0 {
                    assert(s[0] == 'C');
                } else if i == 1 {
                    assert(s[1] == 'a');
                } else if i == 2 {
                    assert(s[2] == 'u');
                } else if i == 3 {
                    assert(s[3] == 'g');
                } else if i == 4 {
                    assert(s[4] == 'h');
                } else if i == 5 {
                    assert(s[5] == 't');
                } else if i == 6 {
                    assert(s[6] == ' ');
                } else if i == 7 {
                    assert(s[7] == 'S');
                } else if i == 8 {
                    assert(s[8] == 't');
                } else if i == 9 {
                    assert(s[9] == 'e');
                } else if i == 10 {
                    assert(s[10] == 'a');
                } else if i == 11 {
                    assert(s[11] == 'l');
                } else if i == 12 {
                    assert(s[12] == 'i');
                } else if i == 13 {
                    assert(s[13] == 'n');
                } else if i == 14 {
                    assert(s[14] == 'g');
                }
            }
        },
        PlayKind::PickoffCaughtStealing => {
            let s = "Pickoff Caught Stealing"@;
            reveal_strlit("Pickoff Caught Stealing");
            assert(s.len() == 23);
            assert forall|i: int| 0 <= i < s.len() implies s[i] != '[' by {
                if i == 0 {
                    assert(s[0] == 'P');
                } else if i == 1 {
                    assert(s[1] == 'i');
                } else if i == 2 {
                    assert(s[2] == 'c');
                } else if i == 3 {
                    assert(s[3] == 'k');
                } else if i == 4 {
                    assert(s[4] == 'o');
                } else if i == 5 {
                    assert(s[5] == 'f');
                } else if i == 6 {
                    assert(s[6] == 'f');
                } else if i == 7 {
                    assert(s[7] == ' ');
                } else if i == 8 {
                    assert(s[8] == 'C');
                } else if i == 9 {
                    assert(s[9] == 'a');
                } else if i == 10 {
                    assert(s[10] == 'u');
                } else if i == 11 {
                    assert(s[11] == 'g');
                } else if i == 12 {
                    assert(s[12] == 'h');
                } else if i == 13 {
                    assert(s[13] == 't');
                } else if i == 14 {
                    assert(s[14] == ' ');
                } else if i == 15 {
                    assert(s[15] == 'S');
                } else if i == 16 {
                    assert(s[16] == 't');
                } else if i == 17 {
                    assert(s[17] == 'e');
                } else if i == 18 {
                    assert(s[18] == 'a');
                } else if i == 19 {
                    assert(s[19] == 'l');
                } else if i == 20 {
                    assert(s[20] == 'i');
                } else if i == 21 {
                    assert(s[21] == 'n');
                } else if i == 22 {
                    assert(s[22] == 'g');
                }
            }
        },
        PlayKind::WildPitch => {
            let s = "Wild Pitch"@;
            reveal_strlit("Wild Pitch");
            assert(s.len() == 10);
            assert forall|i: int| 0 <= i < s.len() implies s[i] != '[' by {
                if i == 0 {
                    assert(s[0] == 'W');
                } else if i == 1 {
                    assert(s[1] == 'i');
                } else if i == 2 {
                    assert(s[2] == 'l');
                } else if i == 3 {
                    assert(s[3] == 'd');
                } else if i == 4 {
                    assert(s[4] == ' ');
                } else if i == 5 {
                    assert(s[5] == 'P');
                } else if i == 6 {
                    assert(s[6] == 'i');
                } else if i == 7 {
                    assert(s[7] == 't');
                } else if i == 8 {
                    assert(s[8] == 'c');
                } else if i == 9 {
                    assert(s[9] == 'h');
                }
            }
        },
        PlayKind::RunnerOut => {
            let s = "Runner Out"@;
            reveal_strlit("Runner Out");
            assert(s.len() == 10);
            assert forall|i: int| 0 <= i < s.len() implies s[i] != '[' by {
                if i == 0 {
                    assert(s[0] == 'R');
                } else if i == 1 {
                    assert(s[1] == 'u');
                } else if i == 2 {
                    assert(s[2] == 'n');
                } else if i == 3 {
                    assert(s[3] == 'n');
                } else if i == 4 {
                    assert(s[4] == 'e');
                } else if i == 5 {
                    assert(s[5] == 'r');
                } else if i == 6 {
                    assert(s[6] == ' ');
                } else if i == 7 {
                    assert(s[7] == 'O');
                } else if i == 8 {
                    assert(s[8] == 'u');
                } else if i == 9 {
                    assert(s[9] == 't');
                }
            }
        },
        PlayKind::FieldOut => {
            let s = "Field Out"@;
            reveal_strlit("Field Out");
            assert(s.len() == 9);
            assert forall|i: int| 0 <= i < s.len() implies s[i] != '[' by {
                if i == 0 {
                    assert(s[0] == 'F');
                } else if i == 1 {
                    assert(s[1] == 'i');
                } else if i == 2 {
                    assert(s[2] == 'e');
                } else if i == 3 {
                    assert(s[3] == 'l');
                } else if i == 4 {
                    assert(s[4] == 'd');
                } else if i == 5 {
                    assert(s[5] == ' ');
                } else if i == 6 {
                    assert(s[6] == 'O');
                } else if i == 7 {
                    assert(s[7] == 'u');
                } else if i == 8 {
                    assert(s[8] == 't');
                }
            }
        },
        PlayKind::BatterOut => {
            let s = "Batter Out"@;
            reveal_strlit("Batter Out");
            assert(s.len() == 10);
            assert forall|i: int| 0 <= i < s.len() implies s[i] != '[' by {
                if i == 0 {
                    assert(s[0] == 'B');
                } else if i == 1 {
                    assert(s[1] == 'a');
                } else if i == 2 {
                    assert(s[2] == 't');
                } else if i == 3 {
                    assert(s[3] == 't');
                } else if i == 4 {
                    assert(s[4] == 'e');
                } else if i == 5 {
                    assert(s[5] == 'r');
                } else if i == 6 {
                    assert(s[6] == ' ');
                } else if i == 7 {
                    assert(s[7] == 'O');
                } else if i == 8 {
                    assert(s[8] == 'u');
                } else if i == 9 {
                    assert(s[9] == 't');
                }
            }
        },
        _ => {},
    }
}

proof fn lemma_label_plain_4(kind: PlayKind)
    requires
        kind is Balk
            || kind is PassedBall
            || kind is Error
            || kind is Single
            || kind is Double
            || kind is Triple,
    ensures
        lacks(kind.label_text(), '['),
{
    match kind {
        PlayKind::Balk => {
            let s = "Balk"@;
            reveal_strlit("Balk");
            assert(s.len() == 4);
            assert forall|i: int| 0 <= i < s.len() implies s[i] != '[' by {
                if i == 0 {
                    assert(s[0] == 'B');
                } else if i == 1 {
                    assert(s[1] == 'a');
                } else if i == 2 {
                    assert(s[2] == 'l');
                } else if i == 3 {
                    assert(s[3] == 'k');
                }
            }
        },
        PlayKind::PassedBall => {
            let s = "Passed Ball"@;
            reveal_strlit("Passed Ball");
            assert(s.len() == 11);
            assert forall|i: int| 0 <= i < s.len() implies s[i] != '[' by {
                if i == 0 {
                    assert(s[0] == 'P');
                } else if i == 1 {
                    assert(s[1] == 'a');
                } else if i == 2 {
                    assert(s[2] == 's');
                } else if i == 3 {
                    assert(s[3] == 's');
                } else if i == 4 {
                    assert(s[4] == 'e');
                } else if i == 5 {
                    assert(s[5] == 'd');
                } else if i == 6 {
                    assert(s[6] == ' ');
                } else if i == 7 {
                    assert(s[7] == 'B');
                } else if i == 8 {
                    assert(s[8] == 'a');
                } else if i == 9 {
                    assert(s[9] == 'l');
                } else if i == 10 {
                    assert(s[10] == 'l');
                }
            }
        },
        PlayKind::Error => {
            let s = "Error"@;
            reveal_strlit("Error");
            assert(s.len() == 5);
            assert forall|i: int| 0 <= i < s.len() implies s[i] != '[' by {
                if i == 0 {
                    assert(s[0] == 'E');
                } else if i == 1 {
                    assert(s[1] == 'r');
                } else if i == 2 {
                    assert(s[2] == 'r');
                } else if i == 3 {
                    assert(s[3] == 'o');
                } else if i == 4 {
                    assert(s[4] == 'r');
                }
            }
        },
        PlayKind::Single => {
            let s = "Single"@;
            reveal_strlit("Single");
            assert(s.len() == 6);
            assert forall|i: int| 0 <= i < s.len() implies s[i] != '[' by {
                if i == 0 {
                    assert(s[0] == 'S');
                } else if i == 1 {
                    assert(s[1] == 'i');
                } else if i == 2 {
                    assert(s[2] == 'n');
                } else if i == 3 {
                    assert(s[3] == 'g');
                } else if i == 4 {
                    assert(s[4] == 'l');
                } else if i == 5 {
                    assert(s[5] == 'e');
                }
            }
        },
        PlayKind::Double => {
            let s = "Double"@;
            reveal_strlit("Double");
            assert(s.len() == 6);
            assert forall|i: int| 0 <= i < s.len() implies s[i] != '[' by {
                if i == 0 {
                    assert(s[0] == 'D');
                } else if i == 1 {
                    assert(s[1] == 'o');
                } else if i == 2 {
                    assert(s[2] == 'u');
                } else if i == 3 {
                    assert(s[3] == 'b');
                } else if i == 4 {
                    assert(s[4] == 'l');
                } else if i == 5 {
                    assert(s[5] == 'e');
                }
            }
        },
        PlayKind::Triple => {
            let s = "Triple"@;
            reveal_strlit("Triple");
            assert(s.len() == 6);
            assert forall|i: int| 0 <= i < s.len() implies s[i] != '[' by {
                if i == 0 {
                    assert(s[0] == 'T');
                } else if i == 1 {
                    assert(s[1] == 'r');
                } else if i == 2 {
                    assert(s[2] == 'i');
                } else if i == 3 {
                    assert(s[3] == 'p');
                } else if i == 4 {
                    assert(s[4] == 'l');
                } else if i == 5 {
                    assert(s[5] == 'e');
                }
            }
        },
        _ => {},
    }
}

proof fn lemma_label_plain_5(kind: PlayKind)
    requires
        kind is HomeRun
            || kind is Walk
            || kind is IntentWalk
            || kind is HitByPitch
            || kind is FieldersChoice
            || kind is CatcherInterference,
    ensures
        lacks(kind.label_text(), '['),
{
    match kind {
        PlayKind::HomeRun => {
            let s = "Home Run"@;
            reveal_strlit("Home Run");
            assert(s.len() == 8);
            assert forall|i: int| 0 <= i < s.len() implies s[i] != '[' by {
                if i == 0 {
                    assert(s[0] == 'H');
                } else if i == 1 {
                    assert(s[1] == 'o');
                } else if i == 2 {
                    assert(s[2] == 'm');
                } else if i == 3 {
                    assert(s[3] == 'e');
                } else if i == 4 {
                    assert(s[4] == ' ');
                } else if i == 5 {
                    assert(s[5] == 'R');
                } else if i == 6 {
                    assert(s[6] == 'u');
                } else if i == 7 {
                    assert(s[7] == 'n');
                }
            }
        },
        PlayKind::Walk => {
            let s = "Walk"@;
            reveal_strlit("Walk");
            assert(s.len() == 4);
            assert forall|i: int| 0 <= i < s.len() implies s[i] != '[' by {
                if i == 0 {
                    assert(s[0] == 'W');
                } else if i == 1 {
                    assert(s[1] == 'a');
                } else if i == 2 {
                    assert(s[2] == 'l');
                } else if i == 3 {
                    assert(s[3] == 'k');
                }
            }
        },
        PlayKind::IntentWalk => {
            let s = "Intent Walk"@;
            reveal_strlit("Intent Walk");
            assert(s.len() == 11);
            assert forall|i: int| 0 <= i < s.len() implies s[i] != '[' by {
                if i == 0 {
                    assert(s[0] == 'I');
                } else if i == 1 {
                    assert(s[1] == 'n');
                } else if i == 2 {
                    assert(s[2] == 't');
                } else if i == 3 {
                    assert(s[3] == 'e');
                } else if i == 4 {
                    assert(s[4] == 'n');
                } else if i == 5 {
                    assert(s[5] == 't');
                } else if i == 6 {
                    assert(s[6] == ' ');
                } else if i == 7 {
                    assert(s[7] == 'W');
                } else if i == 8 {
                    assert(s[8] == 'a');
                } else if i == 9 {
                    assert(s[9] == 'l');
                } else if i == 10 {
                    assert(s[10] == 'k');
                }
            }
        },
        PlayKind::HitByPitch => {
            let s = "Hit By Pitch"@;
            reveal_strlit("Hit By Pitch");
            assert(s.len() == 12);
            assert forall|i: int| 0 <= i < s.len() implies s[i] != '[' by {
                if i == 0 {
                    assert(s[0] == 'H');
                } else if i == 1 {
                    assert(s[1] == 'i');
                } else if i == 2 {
                    assert(s[2] == 't');
                } else if i == 3 {
                    assert(s[3] == ' ');
                } else if i == 4 {
                    assert(s[4] == 'B');
                } else if i == 5 {
                    assert(s[5] == 'y');
                } else if i == 6 {
                    assert(s[6] == ' ');
                } else if i == 7 {
                    assert(s[7] == 'P');
                } else if i == 8 {
                    assert(s[8] == 'i');
                } else if i == 9 {
                    assert(s[9] == 't');
                } else if i == 10 {
                    assert(s[10] == 'c');
                } else if i == 11 {
                    assert(s[11] == 'h');
                }
            }
        },
        PlayKind::FieldersChoice => {
            let s = "Fielders Choice"@;
            reveal_strlit("Fielders Choice");
            assert(s.len() == 15);
            assert forall|i: int| 0 <= i < s.len() implies s[i] != '[' by {
                if i == 0 {
                    assert(s[0] == 'F');
                } else if i == 1 {
                    assert(s[1] == 'i');
                } else if i == 2 {
                    assert(s[2] == 'e');
                } else if i == 3 {
                    assert(s[3] == 'l');
                } else if i == 4 {
                    assert(s[4] == 'd');
                } else if i == 5 {
                    assert(s[5] == 'e');
                } else if i == 6 {
                    assert(s[6] == 'r');
                } else if i == 7 {
                    assert(s[7] == 's');
                } else if i == 8 {
                    assert(s[8] == ' ');
                } else if i == 9 {
                    assert(s[9] == 'C');
                } else if i == 10 {
                    assert(s[10] == 'h');
                } else if i == 11 {
                    assert(s[11] == 'o');
                } else if i == 12 {
                    assert(s[12] == 'i');
                } else if i == 13 {
                    assert(s[13] == 'c');
                } else if i == 14 {
                    assert(s[14] == 'e');
                }
            }
        },
        PlayKind::CatcherInterference => {
            let s = "Catcher Interference"@;
            reveal_strlit("Catcher Interference");
            assert(s.len() == 20);
            assert forall|i: int| 0 <= i < s.len() implies s[i] != '[' by {
                if i == 0 {
                    assert(s[0] == 'C');
                } else if i == 1 {
                    assert(s[1] == 'a');
                } else if i == 2 {
                    assert(s[2] == 't');
                } else if i == 3 {
                    assert(s[3] == 'c');
                } else if i == 4 {
                    assert(s[4] == 'h');
                } else if i == 5 {
                    assert(s[5] == 'e');
                } else if i == 6 {
                    assert(s[6] == 'r');
                } else if i == 7 {
                    assert(s[7] == ' ');
                } else if i == 8 {
                    assert(s[8] == 'I');
                } else if i == 9 {
                    assert(s[9] == 'n');
                } else if i == 10 {
                    assert(s[10] == 't');
                } else if i == 11 {
                    assert(s[11] == 'e');
                } else if i == 12 {
                    assert(s[12] == 'r');
                } else if i == 13 {
                    assert(s[13] == 'f');
                } else if i == 14 {
                    assert(s[14] == 'e');
                } else if i == 15 {
                    assert(s[15] == 'r');
                } else if i == 16 {
                    assert(s[16] == 'e');
                } else if i == 17 {
                    assert(s[17] == 'n');
                } else if i == 18 {
                    assert(s[18] == 'c');
                } else if i == 19 {
                    assert(s[19] == 'e');
                }
            }
        },
        _ => {},
    }
}

proof fn lemma_label_plain_6(kind: PlayKind)
    requires
        kind is StolenBase
            || kind is SacFly
            || kind is SacFlyDoublePlay
            || kind is SacBunt
            || kind is SacBuntDoublePlay
            || kind is FieldError,
    ensures
        lacks(kind.label_text(), '['),
{
    match kind {
        PlayKind::StolenBase => {
            let s = "Stolen Base"@;
            reveal_strlit("Stolen Base");
            assert(s.len() == 11);
            assert forall|i: int| 0 <= i < s.len() implies s[i] != '[' by {
                if i == 0 {
                    assert(s[0] == 'S');
                } else if i == 1 {
                    assert(s[1] == 't');
                } else if i == 2 {
                    assert(s[2] == 'o');
                } else if i == 3 {
                    assert(s[3] == 'l');
                } else if i == 4 {
                    assert(s[4] == 'e');
                } else if i == 5 {
                    assert(s[5] == 'n');
                } else if i == 6 {
                    assert(s[6] == ' ');
                } else if i == 7 {
                    assert(s[7] == 'B');
                } else if i == 8 {
                    assert(s[8] == 'a');
                } else if i == 9 {
                    assert(s[9] == 's');
                } else if i == 10 {
                    assert(s[10] == 'e');
                }
            }
        },
        PlayKind::SacFly => {
            let s = "Sac Fly"@;
            reveal_strlit("Sac Fly");
            assert(s.len() == 7);
            assert forall|i: int| 0 <= i < s.len() implies s[i] != '[' by {
                if i == 0 {
                    assert(s[0] == 'S');
                } else if i == 1 {
                    assert(s[1] == 'a');
                } else if i == 2 {
                    assert(s[2] == 'c');
                } else if i == 3 {
                    assert(s[3] == ' ');
                } else if i == 4 {
                    assert(s[4] == 'F');
                } else if i == 5 {
                    assert(s[5] == 'l');
                } else if i == 6 {
                    assert(s[6] == 'y');
                }
            }
        },
        PlayKind::SacFlyDoublePlay => {
            let s = "Sac Fly Double Play"@;
            reveal_strlit("Sac Fly Double Play");
            assert(s.len() == 19);
            assert forall|i: int| 0 <= i < s.len() implies s[i] != '[' by {
                if i == 0 {
                    assert(s[0] == 'S');
                } else if i == 1 {
                    assert(s[1] == 'a');
                } else if i == 2 {
                    assert(s[2] == 'c');
                } else if i == 3 {
                    assert(s[3] == ' ');
                } else if i == 4 {
                    assert(s[4] == 'F');
                } else if i == 5 {
                    assert(s[5] == 'l');
                } else if i == 6 {
                    assert(s[6] == 'y');
                } else if i == 7 {
                    assert(s[7] == ' ');
                } else if i == 8 {
                    assert(s[8] == 'D');
                } else if i == 9 {
                    assert(s[9] == 'o');
                } else if i == 10 {
                    assert(s[10] == 'u');
                } else if i == 11 {
                    assert(s[11] == 'b');
                } else if i == 12 {
                    assert(s[12] == 'l');
                } else if i == 13 {
                    assert(s[13] == 'e');
                } else if i == 14 {
                    assert(s[14] == ' ');
                } else if i == 15 {
                    assert(s[15] == 'P');
                } else if i == 16 {
                    assert(s[16] == 'l');
                } else if i == 17 {
                    assert(s[17] == 'a');
                } else if i == 18 {
                    assert(s[18] == 'y');
                }
            }
        },
        PlayKind::SacBunt => {
            let s = "Sac Bunt"@;
            reveal_strlit("Sac Bunt");
            assert(s.len() == 8);
            assert forall|i: int| 0 <= i < s.len() implies s[i] != '[' by {
                if i == 0 {
                    assert(s[0] == 'S');
                } else if i == 1 {
                    assert(s[1] == 'a');
                } else if i == 2 {
                    assert(s[2] == 'c');
                } else if i == 3 {
                    assert(s[3] == ' ');
                } else if i == 4 {
                    assert(s[4] == 'B');
                } else if i == 5 {
                    assert(s[5] == 'u');
                } else if i == 6 {
                    assert(s[6] == 'n');
                } else if i == 7 {
                    assert(s[7] == 't');
                }
            }
        },
        PlayKind::SacBuntDoublePlay => {
            let s = "Sac Bunt Double Play"@;
            reveal_strlit("Sac Bunt Double Play");
            assert(s.len() == 20);
            assert forall|i: int| 0 <= i < s.len() implies s[i] != '[' by {
                if i == 0 {
                    assert(s[0] == 'S');
                } else if i == 1 {
                    assert(s[1] == 'a');
                } else if i == 2 {
                    assert(s[2] == 'c');
                } else if i == 3 {
                    assert(s[3] == ' ');
                } else if i == 4 {
                    assert(s[4] == 'B');
                } else if i == 5 {
                    assert(s[5] == 'u');
                } else if i == 6 {
                    assert(s[6] == 'n');
                } else if i == 7 {
                    assert(s[7] == 't');
                } else if i == 8 {
                    assert(s[8] == ' ');
                } else if i == 9 {
                    assert(s[9] == 'D');
                } else if i == 10 {
                    assert(s[10] == 'o');
                } else if i == 11 {
                    assert(s[11] == 'u');
                } else if i == 12 {
                    assert(s[12] == 'b');
                } else if i == 13 {
                    assert(s[13] == 'l');
                } else if i == 14 {
                    assert(s[14] == 'e');
                } else if i == 15 {
                    assert(s[15] == ' ');
                } else if i == 16 {
                    assert(s[16] == 'P');
                } else if i == 17 {
                    assert(s[17] == 'l');
                } else if i == 18 {
                    assert(s[18] == 'a');
                } else if i == 19 {
                    assert(s[19] == 'y');
                }
            }
        },
        PlayKind::FieldError => {
            let s = "Field Error"@;
            reveal_strlit("Field Error");
            assert(s.len() == 11);
            assert forall|i: int| 0 <= i < s.len() implies s[i] != '[' by {
                if i == 0 {
                    assert(s[0] == 'F');
                } else if i == 1 {
                    assert(s[1] == 'i');
                } else if i == 2 {
                    assert(s[2] == 'e');
                } else if i == 3 {
                    assert(s[3] == 'l');
                } else if i == 4 {
                    assert(s[4] == 'd');
                } else if i == 5 {
                    assert(s[5] == ' ');
                } else if i == 6 {
                    assert(s[6] == 'E');
                } else if i == 7 {
                    assert(s[7] == 'r');
                } else if i == 8 {
                    assert(s[8] == 'r');
                } else if i == 9 {
                    assert(s[9] == 'o');
                } else if i == 10 {
                    assert(s[10] == 'r');
                }
            }
        },
        _ => {},
    }
}

proof fn lemma_label_plain_7(kind: PlayKind)
    requires
        kind is GameAdvisory || kind is Ejection,
    ensures
        lacks(kind.label_text(), '['),
{
    match kind {
        PlayKind::GameAdvisory => {
            let s = "Game Advisory"@;
            reveal_strlit("Game Advisory");
            assert(s.len() == 13);
            assert forall|i: int| 0 <= i < s.len() implies s[i] != '[' by {
                if i == 0 {
                    assert(s[0] == 'G');
                } else if i == 1 {
                    assert(s[1] == 'a');
                } else if i == 2 {
                    assert(s[2] == 'm');
                } else if i == 3 {
                    assert(s[3] == 'e');
                } else if i == 4 {
                    assert(s[4] == ' ');
                } else if i == 5 {
                    assert(s[5] == 'A');
                } else if i == 6 {
                    assert(s[6] == 'd');
                } else if i == 7 {
                    assert(s[7] == 'v');
                } else if i == 8 {
                    assert(s[8] == 'i');
                } else if i == 9 {
                    assert(s[9] == 's');
                } else if i == 10 {
                    assert(s[10] == 'o');
                } else if i == 11 {
                    assert(s[11] == 'r');
                } else if i == 12 {
                    assert(s[12] == 'y');
                }
            }
        },
        PlayKind::Ejection => {
            let s = "Ejection"@;
            reveal_strlit("Ejection");
            assert(s.len() == 8);
            assert forall|i: int| 0 <= i < s.len() implies s[i] != '[' by {
                if i == 0 {
                    assert(s[0] == 'E');
                } else if i == 1 {
                    assert(s[1] == 'j');
                } else if i == 2 {
                    assert(s[2] == 'e');
                } else if i == 3 {
                    assert(s[3] == 'c');
                } else if i == 4 {
                    assert(s[4] == 't');
                } else if i == 5 {
                    assert(s[5] == 'i');
                } else if i == 6 {
                    assert(s[6] == 'o');
                } else if i == 7 {
                    assert(s[7] == 'n');
                }
            }
        },
        _ => {},
    }
}

/// The name of a kind in words holds no opening bracket.
pub proof fn lemma_label_plain(kind: PlayKind)
    ensures
        lacks(kind.label_text(), '['),
{
    match kind {
        PlayKind::Groundout
        | PlayKind::BuntGroundout
        | PlayKind::Strikeout
        | PlayKind::Lineout
        | PlayKind::BuntLineout
        | PlayKind::Flyout => {
            lemma_label_plain_0(kind);
        },
        PlayKind::PopOut
        | PlayKind::BuntPopOut
        | PlayKind::Forceout
        | PlayKind::FieldersChoiceOut
        | PlayKind::DoublePlay
        | PlayKind::TriplePlay => {
            lemma_label_plain_1(kind);
        },
        PlayKind::RunnerDoublePlay
        | PlayKind::RunnerTriplePlay
        | PlayKind::GroundedIntoDoublePlay
        | PlayKind::StrikeoutDoublePlay
        | PlayKind::Pickoff
        | PlayKind::PickoffError => {
            lemma_label_plain_2(kind);
        },
        PlayKind::CaughtStealing
        | PlayKind::PickoffCaughtStealing
        | PlayKind::WildPitch
        | PlayKind::RunnerOut
        | PlayKind::FieldOut
        | PlayKind::BatterOut => {
            lemma_label_plain_3(kind);
        },
        PlayKind::Balk
        | PlayKind::PassedBall
        | PlayKind::Error
        | PlayKind::Single
        | PlayKind::Double
        | PlayKind::Triple => {
            lemma_label_plain_4(kind);
        },
        PlayKind::HomeRun
        | PlayKind::Walk
        | PlayKind::IntentWalk
        | PlayKind::HitByPitch
        | PlayKind::FieldersChoice
        | PlayKind::CatcherInterference => {
            lemma_label_plain_5(kind);
        },
        PlayKind::StolenBase
        | PlayKind::SacFly
        | PlayKind::SacFlyDoublePlay
        | PlayKind::SacBunt
        | PlayKind::SacBuntDoublePlay
        | PlayKind::FieldError => {
            lemma_label_plain_6(kind);
        },
        PlayKind::GameAdvisory | PlayKind::Ejection => {
            lemma_label_plain_7(kind);
        },
    }
}

/// Kinds that differ have different names in words.
pub proof fn lemma_label_one_to_one(a: PlayKind, b: PlayKind)
    requires
        a.label_text() == b.label_text(),
    ensures
        a == b,
{
    reveal_strlit("Groundout");
    assert("Groundout"@.len() == 9);
    assert("Groundout"@[0] == 'G');
    reveal_strlit("Bunt Groundout");
    assert("Bunt Groundout"@.len() == 14);
    reveal_strlit("Strikeout");
    assert("Strikeout"@.len() == 9);
    assert("Strikeout"@[0] == 'S');
    reveal_strlit("Lineout");
    assert("Lineout"@.len() == 7);
    assert("Lineout"@[0] == 'L');
    reveal_strlit("Bunt Lineout");
    assert("Bunt Lineout"@.len() == 12);
    assert("Bunt Lineout"@[0] == 'B');
    assert("Bunt Lineout"@[5] == 'L');
    reveal_strlit("Flyout");
    assert("Flyout"@.len() == 6);
    assert("Flyout"@[0] == 'F');
    reveal_strlit("Pop Out");
    assert("Pop Out"@.len() == 7);
    assert("Pop Out"@[0] == 'P');
    assert("Pop Out"@[1] == 'o');
    reveal_strlit("Bunt Pop Out");
    assert("Bunt Pop Out"@.len() == 12);
    assert("Bunt Pop Out"@[0] == 'B');
    assert("Bunt Pop Out"@[5] == 'P');
    reveal_strlit("Forceout");
    assert("Forceout"@.len() == 8);
    assert("Forceout"@[0] == 'F');
    reveal_strlit("Fielders Choice Out");
    assert("Fielders Choice Out"@.len() == 19);
    assert("Fielders Choice Out"@[0] == 'F');
    reveal_strlit("Double Play");
    assert("Double Play"@.len() == 11);
    assert("Double Play"@[0] == 'D');
    reveal_strlit("Triple Play");
    assert("Triple Play"@.len() == 11);
    assert("Triple Play"@[0] == 'T');
    reveal_strlit("Runner Double Play");
    assert("Runner Double Play"@.len() == 18);
    assert("Runner Double Play"@[7] == 'D');
    reveal_strlit("Runner Triple Play");
    assert("Runner Triple Play"@.len() == 18);
    assert("Runner Triple Play"@[7] == 'T');
    reveal_strlit("Grounded Into Double Play");
    assert("Grounded Into Double Play"@.len() == 25);
    reveal_strlit("Strikeout Double Play");
    assert("Strikeout Double Play"@.len() == 21);
    reveal_strlit("Pickoff");
    assert("Pickoff"@.len() == 7);
    assert("Pickoff"@[0] == 'P');
    assert("Pickoff"@[1] == 'i');
    reveal_strlit("Pickoff Error");
    assert("Pickoff Error"@.len() == 13);
    assert("Pickoff Error"@[0] == 'P');
    reveal_strlit("Caught Stealing");
    assert("Caught Stealing"@.len() == 15);
    assert("Caught Stealing"@[0] == 'C');
    reveal_strlit("Pickoff Caught Stealing");
    assert("Pickoff Caught Stealing"@.len() == 23);
    reveal_strlit("Wild Pitch");
    assert("Wild Pitch"@.len() == 10);
    assert("Wild Pitch"@[0] == 'W');
    reveal_strlit("Runner Out");
    assert("Runner Out"@.len() == 10);
    assert("Runner Out"@[0] == 'R');
    reveal_strlit("Field Out");
    assert("Field Out"@.len() == 9);
    assert("Field Out"@[0] == 'F');
    reveal_strlit("Batter Out");
    assert("Batter Out"@.len() == 10);
    assert("Batter Out"@[0] == 'B');
    reveal_strlit("Balk");
    assert("Balk"@.len() == 4);
    assert("Balk"@[0] == 'B');
    reveal_strlit("Passed Ball");
    assert("Passed Ball"@.len() == 11);
    assert("Passed Ball"@[0] == 'P');
    reveal_strlit("Error");
    assert("Error"@.len() == 5);
    reveal_strlit("Single");
    assert("Single"@.len() == 6);
    assert("Single"@[0] == 'S');
    reveal_strlit("Double");
    assert("Double"@.len() == 6);
    assert("Double"@[0] == 'D');
    reveal_strlit("Triple");
    assert("Triple"@.len() == 6);
    assert("Triple"@[0] == 'T');
    reveal_strlit("Home Run");
    assert("Home Run"@.len() == 8);
    assert("Home Run"@[0] == 'H');
    reveal_strlit("Walk");
    assert("Walk"@.len() == 4);
    assert("Walk"@[0] == 'W');
    reveal_strlit("Intent Walk");
    assert("Intent Walk"@.len() == 11);
    assert("Intent Walk"@[0] == 'I');
    reveal_strlit("Hit By Pitch");
    assert("Hit By Pitch"@.len() == 12);
    assert("Hit By Pitch"@[0] == 'H');
    reveal_strlit("Fielders Choice");
    assert("Fielders Choice"@.len() == 15);
    assert("Fielders Choice"@[0] == 'F');
    reveal_strlit("Catcher Interference");
    assert("Catcher Interference"@.len() == 20);
    assert("Catcher Interference"@[0] == 'C');
    reveal_strlit("Stolen Base");
    assert("Stolen Base"@.len() == 11);
    assert("Stolen Base"@[0] == 'S');
    reveal_strlit("Sac Fly");
    assert("Sac Fly"@.len() == 7);
    assert("Sac Fly"@[0] == 'S');
    reveal_strlit("Sac Fly Double Play");
    assert("Sac Fly Double Play"@.len() == 19);
    assert("Sac Fly Double Play"@[0] == 'S');
    reveal_strlit("Sac Bunt");
    assert("Sac Bunt"@.len() == 8);
    assert("Sac Bunt"@[0] == 'S');
    reveal_strlit("Sac Bunt Double Play");
    assert("Sac Bunt Double Play"@.len() == 20);
    assert("Sac Bunt Double Play"@[0] == 'S');
    reveal_strlit("Field Error");
    assert("Field Error"@.len() == 11);
    assert("Field Error"@[0] == 'F');
    reveal_strlit("Game Advisory");
    assert("Game Advisory"@.len() == 13);
    assert("Game Advisory"@[0] == 'G');
    reveal_strlit("Ejection");
    assert("Ejection"@.len() == 8);
    assert("Ejection"@[0] == 'E');
}

/// Plays of different kinds are written differently, whatever their names
/// hold.
pub proof fn lemma_kinds_written_differently(p1: PlayModel, p2: PlayModel)
    requires
        play_flat(p1) == play_flat(p2),
    ensures
        p1.kind == p2.kind,
{
    lemma_play_read(p1);
    lemma_play_read(p2);
    lemma_tails_open(p1);
    let mark = "[PLAY] "@;
    let lit = " [INNING] "@;
    let l1 = p1.kind.label_text();
    let l2 = p2.kind.label_text();
    let r1 = lit + (inning_text(p1.inning) + from_base(p1));
    let r2 = lit + (inning_text(p2.inning) + from_base(p2));
    lemma_cancel_front(mark, l1 + r1, l2 + r2);
    lemma_label_plain(p1.kind);
    lemma_label_plain(p2.kind);
    assert(r1[0] == lit[0]);
    assert(r1[1] == lit[1]);
    assert(r2[0] == lit[0]);
    assert(r2[1] == lit[1]);
    lemma_value_split(l1, r1, l2, r2);
    lemma_label_one_to_one(p1.kind, p2.kind);
}

/// The flat-field encoding is read back: two plays that hold the parts of
/// their kinds, with plain names, have the same text only if they are the
/// same play: the same kind, half-inning and base, the same batter, pitcher,
/// catcher and fielder, the same fielders in the same order, the same
/// scoring runner and runner, and the same movements in the same order, each
/// with the same runner, start, end and out mark.
pub proof fn lemma_play_flat_one_to_one(p1: PlayModel, p2: PlayModel)
    requires
        p1.fits(),
        p2.fits(),
        plain_names(p1),
        plain_names(p2),
        play_flat(p1) == play_flat(p2),
    ensures
        p1 == p2,
{
    lemma_play_read(p1);
    lemma_play_read(p2);
    lemma_tails_open(p1);
    lemma_tails_open(p2);
    let mark = "[PLAY] "@;
    let lit = " [INNING] "@;
    let l1 = p1.kind.label_text();
    let l2 = p2.kind.label_text();
    let i1 = inning_text(p1.inning);
    let i2 = inning_text(p2.inning);
    let t1 = from_base(p1);
    let t2 = from_base(p2);
    lemma_cancel_front(mark, l1 + (lit + (i1 + t1)), l2 + (lit + (i2 + t2)));
    // the kind
    lemma_label_plain(p1.kind);
    lemma_label_plain(p2.kind);
    assert((lit + (i1 + t1))[0] == lit[0]);
    assert((lit + (i1 + t1))[1] == lit[1]);
    assert((lit + (i2 + t2))[0] == lit[0]);
    assert((lit + (i2 + t2))[1] == lit[1]);
    lemma_value_split(l1, lit + (i1 + t1), l2, lit + (i2 + t2));
    lemma_label_one_to_one(p1.kind, p2.kind);
    // the half-inning
    lemma_cancel_front(lit, i1 + t1, i2 + t2);
    lemma_inning_text_plain(p1.inning);
    lemma_inning_text_plain(p2.inning);
    lemma_value_split(i1, t1, i2, t2);
    lemma_inning_text_one_to_one(p1.inning, p2.inning);
    // the parts
    lemma_parts_read(p1, p2);
}

/// Every play holds the parts of its kind and no other.
pub proof fn lemma_play_fits(play: Play)
    ensures
        play@.fits(),
{
}

/// Two plays with plain names that are written alike in the flat-field
/// encoding are the same play.
pub proof fn lemma_plays_read_back(a: Play, b: Play)
    requires
        plain_names(a@),
        plain_names(b@),
        a.flat() == b.flat(),
    ensures
        a@ == b@,
{
    lemma_play_fits(a);
    lemma_play_fits(b);
    lemma_play_flat_one_to_one(a@, b@);
}

/// A game with one play is read back: two games with the same context and
/// one play each, with plain names, have the same flat-field text only if
/// they hold the same play.
pub proof fn lemma_game_of_one_play_read_back(g1: GameModel, g2: GameModel)
    requires
        g1.context == g2.context,
        g1.plays.len() == 1,
        g2.plays.len() == 1,
        g1.plays[0].fits(),
        g2.plays[0].fits(),
        plain_names(g1.plays[0]),
        plain_names(g2.plays[0]),
        game_flat(g1) == game_flat(g2),
    ensures
        g1 == g2,
{
    let front = "[GAME] "@ + context_flat(g1.context) + "\n[GAME_START]\n"@;
    let back = "[GAME_END]\n"@;
    let p1 = g1.plays[0];
    let p2 = g2.plays[0];
    assert(g1.plays.drop_last().len() == 0);
    assert(g2.plays.drop_last().len() == 0);
    assert(plays_flat(g1.plays.drop_last()) =~= Seq::<char>::empty());
    assert(plays_flat(g2.plays.drop_last()) =~= Seq::<char>::empty());
    assert(plays_flat(g1.plays) =~= play_flat(p1) + "\n"@);
    assert(plays_flat(g2.plays) =~= play_flat(p2) + "\n"@);
    assert(game_flat(g1) == front + plays_flat(g1.plays) + back);
    assert(game_flat(g2) == front + plays_flat(g2.plays) + back);
    lemma_cancel_back(front + plays_flat(g1.plays), front + plays_flat(g2.plays), back);
    lemma_cancel_front(front, plays_flat(g1.plays), plays_flat(g2.plays));
    lemma_cancel_back(play_flat(p1), play_flat(p2), "\n"@);
    lemma_play_flat_one_to_one(p1, p2);
    assert(g1.plays =~= g2.plays);
}

} // verus!
