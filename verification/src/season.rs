//! Going through a season team by team: which teams there are, which are
//! left, and which games of a schedule are still to be fetched.

use vstd::prelude::*;

verus! {

/// The identifiers of the thirty teams.
pub open spec fn team_ids() -> Seq<u8> {
    seq![
        108u8,
        109u8,
        110u8,
        111u8,
        112u8,
        113u8,
        114u8,
        115u8,
        116u8,
        117u8,
        118u8,
        119u8,
        120u8,
        121u8,
        133u8,
        134u8,
        135u8,
        136u8,
        137u8,
        138u8,
        139u8,
        140u8,
        141u8,
        142u8,
        143u8,
        144u8,
        145u8,
        146u8,
        147u8,
        158u8,
    ]
}

/// The items of `s` other than `x`, in their order.
pub open spec fn without<T>(s: Seq<T>, x: T) -> Seq<T>
    decreases s.len(),
{
    if s.len() == 0 {
        Seq::empty()
    } else if s.last() == x {
        without(s.drop_last(), x)
    } else {
        without(s.drop_last(), x).push(s.last())
    }
}

/// The items of `s` that are not in `skip`, in their order.
pub open spec fn not_among<T>(s: Seq<T>, skip: Seq<T>) -> Seq<T>
    decreases s.len(),
{
    if s.len() == 0 {
        Seq::empty()
    } else if skip.contains(s.last()) {
        not_among(s.drop_last(), skip)
    } else {
        not_among(s.drop_last(), skip).push(s.last())
    }
}

/// What is left holds no item that was taken out, and every other item of
/// the list.
pub proof fn lemma_without<T>(s: Seq<T>, x: T)
    ensures
        !without(s, x).contains(x),
        forall|y: T| y != x ==> (s.contains(y) <==> #[trigger] without(s, x).contains(y)),
    decreases s.len(),
{
    if s.len() > 0 {
        let front = s.drop_last();
        lemma_without(front, x);
        let w = without(front, x);
        if s.last() != x {
            assert forall|y: T| #[trigger] without(s, x).contains(y) implies y != x && s.contains(
                y,
            ) by {
                let i = choose|i: int| 0 <= i < without(s, x).len() && without(s, x)[i] == y;
                if i < w.len() {
                    assert(w.contains(y));
                    let j = choose|j: int| 0 <= j < front.len() && front[j] == y;
                    assert(s[j] == y);
                } else {
                    assert(s[s.len() - 1] == y);
                }
            }
        } else {
            assert forall|y: T| #[trigger] without(s, x).contains(y) implies s.contains(y) by {
                let j = choose|j: int| 0 <= j < front.len() && front[j] == y;
                assert(s[j] == y);
            }
        }
        assert forall|y: T| y != x && s.contains(y) implies #[trigger] without(s, x).contains(
            y,
        ) by {
            let j = choose|j: int| 0 <= j < s.len() && s[j] == y;
            if j < front.len() {
                assert(front[j] == y);
                assert(front.contains(y));
                assert(w.contains(y));
                let k = choose|k: int| 0 <= k < w.len() && w[k] == y;
                if s.last() != x {
                    assert(w.push(s.last())[k] == y);
                }
            } else {
                assert(s.last() == y);
                assert(w.push(s.last())[w.len() as int] == y);
            }
        }
    }
}

/// All thirty teams, in the order in which a season goes through them.
pub fn all_teams() -> (r: Vec<u8>)
    ensures
        r@ == team_ids(),
{
    let r = vec![
        108u8,
        109u8,
        110u8,
        111u8,
        112u8,
        113u8,
        114u8,
        115u8,
        116u8,
        117u8,
        118u8,
        119u8,
        120u8,
        121u8,
        133u8,
        134u8,
        135u8,
        136u8,
        137u8,
        138u8,
        139u8,
        140u8,
        141u8,
        142u8,
        143u8,
        144u8,
        145u8,
        146u8,
        147u8,
        158u8,
    ];
    assert(r@ =~= team_ids());
    r
}

/// The teams that are left once the team `done` is completed.
pub fn teams_left(teams: &Vec<u8>, done: u8) -> (r: Vec<u8>)
    ensures
        r@ == without(teams@, done),
{
    let mut out: Vec<u8> = Vec::new();
    let mut i: usize = 0;
    assert(teams@.take(0) =~= Seq::<u8>::empty());
    while i < teams.len()
        invariant
            i <= teams.len(),
            out@ == without(teams@.take(i as int), done),
        decreases teams.len() - i,
    {
        proof {
            assert(teams@.take(i + 1).drop_last() =~= teams@.take(i as int));
            assert(teams@.take(i + 1).last() == teams[i as int]);
        }
        if teams[i] != done {
            out.push(teams[i]);
        }
        i = i + 1;
    }
    assert(teams@.take(i as int) =~= teams@);
    out
}

/// Whether `x` is one of `list`.
pub fn is_among(list: &Vec<usize>, x: usize) -> (r: bool)
    ensures
        r == list@.contains(x),
{
    let mut i: usize = 0;
    while i < list.len()
        invariant
            i <= list.len(),
            forall|k: int| 0 <= k < i ==> list[k] != x,
        decreases list.len() - i,
    {
        if list[i] == x {
            return true;
        }
        i = i + 1;
    }
    false
}

/// The games of a schedule that are still to be fetched: those that are not
/// among the games to skip, in the order of the schedule.
pub fn games_to_fetch(schedule: &Vec<usize>, skip: &Vec<usize>) -> (r: Vec<usize>)
    ensures
        r@ == not_among(schedule@, skip@),
{
    let mut out: Vec<usize> = Vec::new();
    let mut i: usize = 0;
    assert(schedule@.take(0) =~= Seq::<usize>::empty());
    while i < schedule.len()
        invariant
            i <= schedule.len(),
            out@ == not_among(schedule@.take(i as int), skip@),
        decreases schedule.len() - i,
    {
        proof {
            assert(schedule@.take(i + 1).drop_last() =~= schedule@.take(i as int));
            assert(schedule@.take(i + 1).last() == schedule[i as int]);
        }
        if !is_among(skip, schedule[i]) {
            out.push(schedule[i]);
        }
        i = i + 1;
    }
    assert(schedule@.take(i as int) =~= schedule@);
    out
}

} // verus!
