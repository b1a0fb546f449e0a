//! From a feed record to a play: the dispatch on the event-type label, and
//! the reading of the parts that each kind of play holds.

use vstd::prelude::*;
use vstd::string::*;
use crate::error::{ClassificationError, Field};
use crate::inning::{inning_from, Inning};
use crate::movement::{
    base_in_range, base_of, lemma_movement_wf, movement_of, Movement, MovementModel,
};
use crate::play::{Play, PlayKind, PlayModel, PlayParts, Shape};
use crate::record::{agrees, PlayRecord, PlayRecordModel, RunnerRecord, RunnerRecordModel};
use crate::sequence::{
    lemma_try_map_all, lemma_try_map_err, lemma_try_map_fails, lemma_try_map_ok,
    lemma_try_map_step, try_map,
};
use crate::text::text_eq;

verus! {

/// What an event-type label says: the kind of play, and for the kinds that
/// happen at a base, which base (1 to 3, or 4 for home).
#[derive(Clone, Copy, Debug, PartialEq, Eq, Structural)]
pub struct Event {
    pub kind: PlayKind,
    pub base: Option<u8>,
}

/// The event that a label of the feed names, if it is a known label. Labels
/// are compared letter for letter.
pub open spec fn event_of_label(label: Seq<char>) -> Option<Event> {
    if label == "Groundout"@ {
        Some(Event { kind: PlayKind::Groundout, base: None })
    } else if label == "Bunt Groundout"@ {
        Some(Event { kind: PlayKind::BuntGroundout, base: None })
    } else if label == "Strikeout"@ {
        Some(Event { kind: PlayKind::Strikeout, base: None })
    } else if label == "Lineout"@ {
        Some(Event { kind: PlayKind::Lineout, base: None })
    } else if label == "Bunt Lineout"@ {
        Some(Event { kind: PlayKind::BuntLineout, base: None })
    } else if label == "Flyout"@ {
        Some(Event { kind: PlayKind::Flyout, base: None })
    } else if label == "Pop Out"@ {
        Some(Event { kind: PlayKind::PopOut, base: None })
    } else if label == "Bunt Pop Out"@ {
        Some(Event { kind: PlayKind::BuntPopOut, base: None })
    } else if label == "Forceout"@ {
        Some(Event { kind: PlayKind::Forceout, base: None })
    } else if label == "Fielders Choice Out"@ {
        Some(Event { kind: PlayKind::FieldersChoiceOut, base: None })
    } else if label == "Catcher Interference"@ {
        Some(Event { kind: PlayKind::CatcherInterference, base: None })
    } else if label == "Double Play"@ {
        Some(Event { kind: PlayKind::DoublePlay, base: None })
    } else if label == "Triple Play"@ {
        Some(Event { kind: PlayKind::TriplePlay, base: None })
    } else if label == "Runner Double Play"@ {
        Some(Event { kind: PlayKind::RunnerDoublePlay, base: None })
    } else if label == "Runner Triple Play"@ {
        Some(Event { kind: PlayKind::RunnerTriplePlay, base: None })
    } else if label == "Grounded Into DP"@ {
        Some(Event { kind: PlayKind::GroundedIntoDoublePlay, base: None })
    } else if label == "Strikeout Double Play"@ {
        Some(Event { kind: PlayKind::StrikeoutDoublePlay, base: None })
    } else if label == "Pickoff 1B"@ {
        Some(Event { kind: PlayKind::Pickoff, base: Some(1u8) })
    } else if label == "Pickoff 2B"@ {
        Some(Event { kind: PlayKind::Pickoff, base: Some(2u8) })
    } else if label == "Pickoff 3B"@ {
        Some(Event { kind: PlayKind::Pickoff, base: Some(3u8) })
    } else if label == "Pickoff Error 1B"@ {
        Some(Event { kind: PlayKind::PickoffError, base: Some(1u8) })
    } else if label == "Pickoff Error 2B"@ {
        Some(Event { kind: PlayKind::PickoffError, base: Some(2u8) })
    } else if label == "Pickoff Error 3B"@ {
        Some(Event { kind: PlayKind::PickoffError, base: Some(3u8) })
    } else if label == "Caught Stealing 2B"@ {
        Some(Event { kind: PlayKind::CaughtStealing, base: Some(2u8) })
    } else if label == "Caught Stealing 3B"@ {
        Some(Event { kind: PlayKind::CaughtStealing, base: Some(3u8) })
    } else if label == "Caught Stealing Home"@ {
        Some(Event { kind: PlayKind::CaughtStealing, base: Some(4u8) })
    } else if label == "Pickoff Caught Stealing 1B"@ {
        Some(Event { kind: PlayKind::PickoffCaughtStealing, base: Some(1u8) })
    } else if label == "Pickoff Caught Stealing 2B"@ {
        Some(Event { kind: PlayKind::PickoffCaughtStealing, base: Some(2u8) })
    } else if label == "Pickoff Caught Stealing 3B"@ {
        Some(Event { kind: PlayKind::PickoffCaughtStealing, base: Some(3u8) })
    } else if label == "Pickoff Caught Stealing Home"@ {
        Some(Event { kind: PlayKind::PickoffCaughtStealing, base: Some(4u8) })
    } else if label == "Wild Pitch"@ {
        Some(Event { kind: PlayKind::WildPitch, base: None })
    } else if label == "Runner Out"@ {
        Some(Event { kind: PlayKind::RunnerOut, base: None })
    } else if label == "Field Out"@ {
        Some(Event { kind: PlayKind::FieldOut, base: None })
    } else if label == "Batter Out"@ {
        Some(Event { kind: PlayKind::BatterOut, base: None })
    } else if label == "Balk"@ {
        Some(Event { kind: PlayKind::Balk, base: None })
    } else if label == "Passed Ball"@ {
        Some(Event { kind: PlayKind::PassedBall, base: None })
    } else if label == "Error"@ {
        Some(Event { kind: PlayKind::Error, base: None })
    } else if label == "Single"@ {
        Some(Event { kind: PlayKind::Single, base: None })
    } else if label == "Double"@ {
        Some(Event { kind: PlayKind::Double, base: None })
    } else if label == "Triple"@ {
        Some(Event { kind: PlayKind::Triple, base: None })
    } else if label == "Home Run"@ {
        Some(Event { kind: PlayKind::HomeRun, base: None })
    } else if label == "Walk"@ {
        Some(Event { kind: PlayKind::Walk, base: None })
    } else if label == "Intent Walk"@ {
        Some(Event { kind: PlayKind::IntentWalk, base: None })
    } else if label == "Hit By Pitch"@ {
        Some(Event { kind: PlayKind::HitByPitch, base: None })
    } else if label == "Fielders Choice"@ {
        Some(Event { kind: PlayKind::FieldersChoice, base: None })
    } else if label == "Stolen Base 1B"@ {
        Some(Event { kind: PlayKind::StolenBase, base: Some(1u8) })
    } else if label == "Stolen Base 2B"@ {
        Some(Event { kind: PlayKind::StolenBase, base: Some(2u8) })
    } else if label == "Stolen Base 3B"@ {
        Some(Event { kind: PlayKind::StolenBase, base: Some(3u8) })
    } else if label == "Stolen Base Home"@ {
        Some(Event { kind: PlayKind::StolenBase, base: Some(4u8) })
    } else if label == "Sac Fly"@ {
        Some(Event { kind: PlayKind::SacFly, base: None })
    } else if label == "Sac Fly Double Play"@ {
        Some(Event { kind: PlayKind::SacFlyDoublePlay, base: None })
    } else if label == "Sac Bunt"@ {
        Some(Event { kind: PlayKind::SacBunt, base: None })
    } else if label == "Sac Bunt Double Play"@ {
        Some(Event { kind: PlayKind::SacBuntDoublePlay, base: None })
    } else if label == "Field Error"@ {
        Some(Event { kind: PlayKind::FieldError, base: None })
    } else if label == "Game Advisory"@ {
        Some(Event { kind: PlayKind::GameAdvisory, base: None })
    } else if label == "Ejection"@ {
        Some(Event { kind: PlayKind::Ejection, base: None })
    } else {
        None
    }
}

/// Every label of the table names its own event: no label is hidden by
/// another.
pub proof fn lemma_labels_distinct()
    ensures
        event_of_label("Groundout"@) == Some(Event { kind: PlayKind::Groundout, base: None }),
        event_of_label("Bunt Groundout"@) == Some(Event { kind: PlayKind::BuntGroundout, base: None }),
        event_of_label("Strikeout"@) == Some(Event { kind: PlayKind::Strikeout, base: None }),
        event_of_label("Lineout"@) == Some(Event { kind: PlayKind::Lineout, base: None }),
        event_of_label("Bunt Lineout"@) == Some(Event { kind: PlayKind::BuntLineout, base: None }),
        event_of_label("Flyout"@) == Some(Event { kind: PlayKind::Flyout, base: None }),
        event_of_label("Pop Out"@) == Some(Event { kind: PlayKind::PopOut, base: None }),
        event_of_label("Bunt Pop Out"@) == Some(Event { kind: PlayKind::BuntPopOut, base: None }),
        event_of_label("Forceout"@) == Some(Event { kind: PlayKind::Forceout, base: None }),
        event_of_label("Fielders Choice Out"@) == Some(Event { kind: PlayKind::FieldersChoiceOut, base: None }),
        event_of_label("Catcher Interference"@) == Some(Event { kind: PlayKind::CatcherInterference, base: None }),
        event_of_label("Double Play"@) == Some(Event { kind: PlayKind::DoublePlay, base: None }),
        event_of_label("Triple Play"@) == Some(Event { kind: PlayKind::TriplePlay, base: None }),
        event_of_label("Runner Double Play"@) == Some(Event { kind: PlayKind::RunnerDoublePlay, base: None }),
        event_of_label("Runner Triple Play"@) == Some(Event { kind: PlayKind::RunnerTriplePlay, base: None }),
        event_of_label("Grounded Into DP"@) == Some(Event { kind: PlayKind::GroundedIntoDoublePlay, base: None }),
        event_of_label("Strikeout Double Play"@) == Some(Event { kind: PlayKind::StrikeoutDoublePlay, base: None }),
        event_of_label("Pickoff 1B"@) == Some(Event { kind: PlayKind::Pickoff, base: Some(1u8) }),
        event_of_label("Pickoff 2B"@) == Some(Event { kind: PlayKind::Pickoff, base: Some(2u8) }),
        event_of_label("Pickoff 3B"@) == Some(Event { kind: PlayKind::Pickoff, base: Some(3u8) }),
        event_of_label("Pickoff Error 1B"@) == Some(Event { kind: PlayKind::PickoffError, base: Some(1u8) }),
        event_of_label("Pickoff Error 2B"@) == Some(Event { kind: PlayKind::PickoffError, base: Some(2u8) }),
        event_of_label("Pickoff Error 3B"@) == Some(Event { kind: PlayKind::PickoffError, base: Some(3u8) }),
        event_of_label("Caught Stealing 2B"@) == Some(Event { kind: PlayKind::CaughtStealing, base: Some(2u8) }),
        event_of_label("Caught Stealing 3B"@) == Some(Event { kind: PlayKind::CaughtStealing, base: Some(3u8) }),
        event_of_label("Caught Stealing Home"@) == Some(Event { kind: PlayKind::CaughtStealing, base: Some(4u8) }),
        event_of_label("Pickoff Caught Stealing 1B"@) == Some(Event { kind: PlayKind::PickoffCaughtStealing, base: Some(1u8) }),
        event_of_label("Pickoff Caught Stealing 2B"@) == Some(Event { kind: PlayKind::PickoffCaughtStealing, base: Some(2u8) }),
        event_of_label("Pickoff Caught Stealing 3B"@) == Some(Event { kind: PlayKind::PickoffCaughtStealing, base: Some(3u8) }),
        event_of_label("Pickoff Caught Stealing Home"@) == Some(Event { kind: PlayKind::PickoffCaughtStealing, base: Some(4u8) }),
        event_of_label("Wild Pitch"@) == Some(Event { kind: PlayKind::WildPitch, base: None }),
        event_of_label("Runner Out"@) == Some(Event { kind: PlayKind::RunnerOut, base: None }),
        event_of_label("Field Out"@) == Some(Event { kind: PlayKind::FieldOut, base: None }),
        event_of_label("Batter Out"@) == Some(Event { kind: PlayKind::BatterOut, base: None }),
        event_of_label("Balk"@) == Some(Event { kind: PlayKind::Balk, base: None }),
        event_of_label("Passed Ball"@) == Some(Event { kind: PlayKind::PassedBall, base: None }),
        event_of_label("Error"@) == Some(Event { kind: PlayKind::Error, base: None }),
        event_of_label("Single"@) == Some(Event { kind: PlayKind::Single, base: None }),
        event_of_label("Double"@) == Some(Event { kind: PlayKind::Double, base: None }),
        event_of_label("Triple"@) == Some(Event { kind: PlayKind::Triple, base: None }),
        event_of_label("Home Run"@) == Some(Event { kind: PlayKind::HomeRun, base: None }),
        event_of_label("Walk"@) == Some(Event { kind: PlayKind::Walk, base: None }),
        event_of_label("Intent Walk"@) == Some(Event { kind: PlayKind::IntentWalk, base: None }),
        event_of_label("Hit By Pitch"@) == Some(Event { kind: PlayKind::HitByPitch, base: None }),
        event_of_label("Fielders Choice"@) == Some(Event { kind: PlayKind::FieldersChoice, base: None }),
        event_of_label("Stolen Base 1B"@) == Some(Event { kind: PlayKind::StolenBase, base: Some(1u8) }),
        event_of_label("Stolen Base 2B"@) == Some(Event { kind: PlayKind::StolenBase, base: Some(2u8) }),
        event_of_label("Stolen Base 3B"@) == Some(Event { kind: PlayKind::StolenBase, base: Some(3u8) }),
        event_of_label("Stolen Base Home"@) == Some(Event { kind: PlayKind::StolenBase, base: Some(4u8) }),
        event_of_label("Sac Fly"@) == Some(Event { kind: PlayKind::SacFly, base: None }),
        event_of_label("Sac Fly Double Play"@) == Some(Event { kind: PlayKind::SacFlyDoublePlay, base: None }),
        event_of_label("Sac Bunt"@) == Some(Event { kind: PlayKind::SacBunt, base: None }),
        event_of_label("Sac Bunt Double Play"@) == Some(Event { kind: PlayKind::SacBuntDoublePlay, base: None }),
        event_of_label("Field Error"@) == Some(Event { kind: PlayKind::FieldError, base: None }),
        event_of_label("Game Advisory"@) == Some(Event { kind: PlayKind::GameAdvisory, base: None }),
        event_of_label("Ejection"@) == Some(Event { kind: PlayKind::Ejection, base: None }),
{
    reveal_strlit("Groundout");
    assert("Groundout"@.len() == 9);
    assert("Groundout"@[0] == 'G');
    reveal_strlit("Bunt Groundout");
    assert("Bunt Groundout"@.len() == 14);
    assert("Bunt Groundout"@[0] == 'B');
    reveal_strlit("Strikeout");
    assert("Strikeout"@.len() == 9);
    assert("Strikeout"@[0] == 'S');
    reveal_strlit("Lineout");
    assert("Lineout"@.len() == 7);
    assert("Lineout"@[0] == 'L');
    reveal_strlit("Bunt Lineout");
    assert("Bunt Lineout"@.len() == 12);
    assert("Bunt Lineout"@[0] == 'B');
    assert("Bunt Lineout"@[5] == 'L');
    reveal_strlit("Flyout");
    assert("Flyout"@.len() == 6);
    assert("Flyout"@[0] == 'F');
    reveal_strlit("Pop Out");
    assert("Pop Out"@.len() == 7);
    assert("Pop Out"@[0] == 'P');
    reveal_strlit("Bunt Pop Out");
    assert("Bunt Pop Out"@.len() == 12);
    assert("Bunt Pop Out"@[0] == 'B');
    assert("Bunt Pop Out"@[5] == 'P');
    reveal_strlit("Forceout");
    assert("Forceout"@.len() == 8);
    assert("Forceout"@[0] == 'F');
    reveal_strlit("Fielders Choice Out");
    assert("Fielders Choice Out"@.len() == 19);
    assert("Fielders Choice Out"@[0] == 'F');
    reveal_strlit("Catcher Interference");
    assert("Catcher Interference"@.len() == 20);
    assert("Catcher Interference"@[0] == 'C');
    assert("Catcher Interference"@[2] == 't');
    reveal_strlit("Double Play");
    assert("Double Play"@.len() == 11);
    assert("Double Play"@[0] == 'D');
    reveal_strlit("Triple Play");
    assert("Triple Play"@.len() == 11);
    assert("Triple Play"@[0] == 'T');
    reveal_strlit("Runner Double Play");
    assert("Runner Double Play"@.len() == 18);
    assert("Runner Double Play"@[0] == 'R');
    assert("Runner Double Play"@[7] == 'D');
    reveal_strlit("Runner Triple Play");
    assert("Runner Triple Play"@.len() == 18);
    assert("Runner Triple Play"@[0] == 'R');
    assert("Runner Triple Play"@[7] == 'T');
    reveal_strlit("Grounded Into DP");
    assert("Grounded Into DP"@.len() == 16);
    assert("Grounded Into DP"@[0] == 'G');
    reveal_strlit("Strikeout Double Play");
    assert("Strikeout Double Play"@.len() == 21);
    reveal_strlit("Pickoff 1B");
    assert("Pickoff 1B"@.len() == 10);
    assert("Pickoff 1B"@[0] == 'P');
    assert("Pickoff 1B"@[8] == '1');
    reveal_strlit("Pickoff 2B");
    assert("Pickoff 2B"@.len() == 10);
    assert("Pickoff 2B"@[0] == 'P');
    assert("Pickoff 2B"@[8] == '2');
    reveal_strlit("Pickoff 3B");
    assert("Pickoff 3B"@.len() == 10);
    assert("Pickoff 3B"@[0] == 'P');
    assert("Pickoff 3B"@[8] == '3');
    reveal_strlit("Pickoff Error 1B");
    assert("Pickoff Error 1B"@.len() == 16);
    assert("Pickoff Error 1B"@[0] == 'P');
    assert("Pickoff Error 1B"@[14] == '1');
    reveal_strlit("Pickoff Error 2B");
    assert("Pickoff Error 2B"@.len() == 16);
    assert("Pickoff Error 2B"@[0] == 'P');
    assert("Pickoff Error 2B"@[14] == '2');
    reveal_strlit("Pickoff Error 3B");
    assert("Pickoff Error 3B"@.len() == 16);
    assert("Pickoff Error 3B"@[0] == 'P');
    assert("Pickoff Error 3B"@[14] == '3');
    reveal_strlit("Caught Stealing 2B");
    assert("Caught Stealing 2B"@.len() == 18);
    assert("Caught Stealing 2B"@[0] == 'C');
    assert("Caught Stealing 2B"@[16] == '2');
    reveal_strlit("Caught Stealing 3B");
    assert("Caught Stealing 3B"@.len() == 18);
    assert("Caught Stealing 3B"@[0] == 'C');
    assert("Caught Stealing 3B"@[16] == '3');
    reveal_strlit("Caught Stealing Home");
    assert("Caught Stealing Home"@.len() == 20);
    assert("Caught Stealing Home"@[0] == 'C');
    assert("Caught Stealing Home"@[2] == 'u');
    reveal_strlit("Pickoff Caught Stealing 1B");
    assert("Pickoff Caught Stealing 1B"@.len() == 26);
    assert("Pickoff Caught Stealing 1B"@[24] == '1');
    reveal_strlit("Pickoff Caught Stealing 2B");
    assert("Pickoff Caught Stealing 2B"@.len() == 26);
    assert("Pickoff Caught Stealing 2B"@[24] == '2');
    reveal_strlit("Pickoff Caught Stealing 3B");
    assert("Pickoff Caught Stealing 3B"@.len() == 26);
    assert("Pickoff Caught Stealing 3B"@[24] == '3');
    reveal_strlit("Pickoff Caught Stealing Home");
    assert("Pickoff Caught Stealing Home"@.len() == 28);
    reveal_strlit("Wild Pitch");
    assert("Wild Pitch"@.len() == 10);
    assert("Wild Pitch"@[0] == 'W');
    reveal_strlit("Runner Out");
    assert("Runner Out"@.len() == 10);
    assert("Runner Out"@[0] == 'R');
    reveal_strlit("Field Out");
    assert("Field Out"@.len() == 9);
    assert("Field Out"@[0] == 'F');
    reveal_strlit("Batter Out");
    assert("Batter Out"@.len() == 10);
    assert("Batter Out"@[0] == 'B');
    reveal_strlit("Balk");
    assert("Balk"@.len() == 4);
    assert("Balk"@[0] == 'B');
    reveal_strlit("Passed Ball");
    assert("Passed Ball"@.len() == 11);
    assert("Passed Ball"@[0] == 'P');
    reveal_strlit("Error");
    assert("Error"@.len() == 5);
    reveal_strlit("Single");
    assert("Single"@.len() == 6);
    assert("Single"@[0] == 'S');
    reveal_strlit("Double");
    assert("Double"@.len() == 6);
    assert("Double"@[0] == 'D');
    reveal_strlit("Triple");
    assert("Triple"@.len() == 6);
    assert("Triple"@[0] == 'T');
    reveal_strlit("Home Run");
    assert("Home Run"@.len() == 8);
    assert("Home Run"@[0] == 'H');
    reveal_strlit("Walk");
    assert("Walk"@.len() == 4);
    assert("Walk"@[0] == 'W');
    reveal_strlit("Intent Walk");
    assert("Intent Walk"@.len() == 11);
    assert("Intent Walk"@[0] == 'I');
    reveal_strlit("Hit By Pitch");
    assert("Hit By Pitch"@.len() == 12);
    assert("Hit By Pitch"@[0] == 'H');
    reveal_strlit("Fielders Choice");
    assert("Fielders Choice"@.len() == 15);
    reveal_strlit("Stolen Base 1B");
    assert("Stolen Base 1B"@.len() == 14);
    assert("Stolen Base 1B"@[0] == 'S');
    assert("Stolen Base 1B"@[12] == '1');
    reveal_strlit("Stolen Base 2B");
    assert("Stolen Base 2B"@.len() == 14);
    assert("Stolen Base 2B"@[0] == 'S');
    assert("Stolen Base 2B"@[12] == '2');
    reveal_strlit("Stolen Base 3B");
    assert("Stolen Base 3B"@.len() == 14);
    assert("Stolen Base 3B"@[0] == 'S');
    assert("Stolen Base 3B"@[12] == '3');
    reveal_strlit("Stolen Base Home");
    assert("Stolen Base Home"@.len() == 16);
    assert("Stolen Base Home"@[0] == 'S');
    reveal_strlit("Sac Fly");
    assert("Sac Fly"@.len() == 7);
    assert("Sac Fly"@[0] == 'S');
    reveal_strlit("Sac Fly Double Play");
    assert("Sac Fly Double Play"@.len() == 19);
    assert("Sac Fly Double Play"@[0] == 'S');
    reveal_strlit("Sac Bunt");
    assert("Sac Bunt"@.len() == 8);
    assert("Sac Bunt"@[0] == 'S');
    reveal_strlit("Sac Bunt Double Play");
    assert("Sac Bunt Double Play"@.len() == 20);
    assert("Sac Bunt Double Play"@[0] == 'S');
    reveal_strlit("Field Error");
    assert("Field Error"@.len() == 11);
    assert("Field Error"@[0] == 'F');
    reveal_strlit("Game Advisory");
    assert("Game Advisory"@.len() == 13);
    reveal_strlit("Ejection");
    assert("Ejection"@.len() == 8);
    assert("Ejection"@[0] == 'E');
}

/// A known label names a base exactly when plays of its kind hold one, and
/// that base is 1 to 4.
pub proof fn lemma_event_base(label: Seq<char>)
    ensures
        match event_of_label(label) {
            Some(e) => (e.base is Some <==> e.kind.shape().has_base()) && base_in_range(e.base),
            None => true,
        },
{
}

impl Event {
    /// The event that a label of the feed names, if it is a known label.
    pub fn from_label(label: &str) -> (r: Option<Event>)
        ensures
            r == event_of_label(label@),
    {
        if text_eq(label, "Groundout") {
            Some(Event { kind: PlayKind::Groundout, base: None })
        } else if text_eq(label, "Bunt Groundout") {
            Some(Event { kind: PlayKind::BuntGroundout, base: None })
        } else if text_eq(label, "Strikeout") {
            Some(Event { kind: PlayKind::Strikeout, base: None })
        } else if text_eq(label, "Lineout") {
            Some(Event { kind: PlayKind::Lineout, base: None })
        } else if text_eq(label, "Bunt Lineout") {
            Some(Event { kind: PlayKind::BuntLineout, base: None })
        } else if text_eq(label, "Flyout") {
            Some(Event { kind: PlayKind::Flyout, base: None })
        } else if text_eq(label, "Pop Out") {
            Some(Event { kind: PlayKind::PopOut, base: None })
        } else if text_eq(label, "Bunt Pop Out") {
            Some(Event { kind: PlayKind::BuntPopOut, base: None })
        } else if text_eq(label, "Forceout") {
            Some(Event { kind: PlayKind::Forceout, base: None })
        } else if text_eq(label, "Fielders Choice Out") {
            Some(Event { kind: PlayKind::FieldersChoiceOut, base: None })
        } else if text_eq(label, "Catcher Interference") {
            Some(Event { kind: PlayKind::CatcherInterference, base: None })
        } else if text_eq(label, "Double Play") {
            Some(Event { kind: PlayKind::DoublePlay, base: None })
        } else if text_eq(label, "Triple Play") {
            Some(Event { kind: PlayKind::TriplePlay, base: None })
        } else if text_eq(label, "Runner Double Play") {
            Some(Event { kind: PlayKind::RunnerDoublePlay, base: None })
        } else if text_eq(label, "Runner Triple Play") {
            Some(Event { kind: PlayKind::RunnerTriplePlay, base: None })
        } else if text_eq(label, "Grounded Into DP") {
            Some(Event { kind: PlayKind::GroundedIntoDoublePlay, base: None })
        } else if text_eq(label, "Strikeout Double Play") {
            Some(Event { kind: PlayKind::StrikeoutDoublePlay, base: None })
        } else if text_eq(label, "Pickoff 1B") {
            Some(Event { kind: PlayKind::Pickoff, base: Some(1u8) })
        } else if text_eq(label, "Pickoff 2B") {
            Some(Event { kind: PlayKind::Pickoff, base: Some(2u8) })
        } else if text_eq(label, "Pickoff 3B") {
            Some(Event { kind: PlayKind::Pickoff, base: Some(3u8) })
        } else if text_eq(label, "Pickoff Error 1B") {
            Some(Event { kind: PlayKind::PickoffError, base: Some(1u8) })
        } else if text_eq(label, "Pickoff Error 2B") {
            Some(Event { kind: PlayKind::PickoffError, base: Some(2u8) })
        } else if text_eq(label, "Pickoff Error 3B") {
            Some(Event { kind: PlayKind::PickoffError, base: Some(3u8) })
        } else if text_eq(label, "Caught Stealing 2B") {
            Some(Event { kind: PlayKind::CaughtStealing, base: Some(2u8) })
        } else if text_eq(label, "Caught Stealing 3B") {
            Some(Event { kind: PlayKind::CaughtStealing, base: Some(3u8) })
        } else if text_eq(label, "Caught Stealing Home") {
            Some(Event { kind: PlayKind::CaughtStealing, base: Some(4u8) })
        } else if text_eq(label, "Pickoff Caught Stealing 1B") {
            Some(Event { kind: PlayKind::PickoffCaughtStealing, base: Some(1u8) })
        } else if text_eq(label, "Pickoff Caught Stealing 2B") {
            Some(Event { kind: PlayKind::PickoffCaughtStealing, base: Some(2u8) })
        } else if text_eq(label, "Pickoff Caught Stealing 3B") {
            Some(Event { kind: PlayKind::PickoffCaughtStealing, base: Some(3u8) })
        } else if text_eq(label, "Pickoff Caught Stealing Home") {
            Some(Event { kind: PlayKind::PickoffCaughtStealing, base: Some(4u8) })
        } else if text_eq(label, "Wild Pitch") {
            Some(Event { kind: PlayKind::WildPitch, base: None })
        } else if text_eq(label, "Runner Out") {
            Some(Event { kind: PlayKind::RunnerOut, base: None })
        } else if text_eq(label, "Field Out") {
            Some(Event { kind: PlayKind::FieldOut, base: None })
        } else if text_eq(label, "Batter Out") {
            Some(Event { kind: PlayKind::BatterOut, base: None })
        } else if text_eq(label, "Balk") {
            Some(Event { kind: PlayKind::Balk, base: None })
        } else if text_eq(label, "Passed Ball") {
            Some(Event { kind: PlayKind::PassedBall, base: None })
        } else if text_eq(label, "Error") {
            Some(Event { kind: PlayKind::Error, base: None })
        } else if text_eq(label, "Single") {
            Some(Event { kind: PlayKind::Single, base: None })
        } else if text_eq(label, "Double") {
            Some(Event { kind: PlayKind::Double, base: None })
        } else if text_eq(label, "Triple") {
            Some(Event { kind: PlayKind::Triple, base: None })
        } else if text_eq(label, "Home Run") {
            Some(Event { kind: PlayKind::HomeRun, base: None })
        } else if text_eq(label, "Walk") {
            Some(Event { kind: PlayKind::Walk, base: None })
        } else if text_eq(label, "Intent Walk") {
            Some(Event { kind: PlayKind::IntentWalk, base: None })
        } else if text_eq(label, "Hit By Pitch") {
            Some(Event { kind: PlayKind::HitByPitch, base: None })
        } else if text_eq(label, "Fielders Choice") {
            Some(Event { kind: PlayKind::FieldersChoice, base: None })
        } else if text_eq(label, "Stolen Base 1B") {
            Some(Event { kind: PlayKind::StolenBase, base: Some(1u8) })
        } else if text_eq(label, "Stolen Base 2B") {
            Some(Event { kind: PlayKind::StolenBase, base: Some(2u8) })
        } else if text_eq(label, "Stolen Base 3B") {
            Some(Event { kind: PlayKind::StolenBase, base: Some(3u8) })
        } else if text_eq(label, "Stolen Base Home") {
            Some(Event { kind: PlayKind::StolenBase, base: Some(4u8) })
        } else if text_eq(label, "Sac Fly") {
            Some(Event { kind: PlayKind::SacFly, base: None })
        } else if text_eq(label, "Sac Fly Double Play") {
            Some(Event { kind: PlayKind::SacFlyDoublePlay, base: None })
        } else if text_eq(label, "Sac Bunt") {
            Some(Event { kind: PlayKind::SacBunt, base: None })
        } else if text_eq(label, "Sac Bunt Double Play") {
            Some(Event { kind: PlayKind::SacBuntDoublePlay, base: None })
        } else if text_eq(label, "Field Error") {
            Some(Event { kind: PlayKind::FieldError, base: None })
        } else if text_eq(label, "Game Advisory") {
            Some(Event { kind: PlayKind::GameAdvisory, base: None })
        } else if text_eq(label, "Ejection") {
            Some(Event { kind: PlayKind::Ejection, base: None })
        } else {
            None
        }
    }
}

/// The half-inning that a record names.
pub open spec fn inning_of(rec: PlayRecordModel) -> Result<Inning, ClassificationError> {
    inning_from(rec.inning, rec.is_top_inning)
}

/// The runner entry at position `i` of a record, counted from 0 in the
/// feed's own order.
pub open spec fn runner_at(rec: PlayRecordModel, i: int) -> Option<RunnerRecordModel> {
    match rec.runners {
        Some(rs) => if 0 <= i < rs.len() {
            Some(rs[i])
        } else {
            None
        },
        None => None,
    }
}

/// The name of the runner at position `i` of a record.
pub open spec fn runner_name_at(rec: PlayRecordModel, i: int) -> Option<Seq<char>> {
    match runner_at(rec, i) {
        Some(r) => r.runner,
        None => None,
    }
}

/// The fielder named in the details of the first runner entry.
pub open spec fn first_fielder(rec: PlayRecordModel) -> Option<Seq<char>> {
    match runner_at(rec, 0) {
        Some(r) => r.fielder,
        None => None,
    }
}

/// The pitcher named in the details of the first runner entry.
pub open spec fn first_pitcher(rec: PlayRecordModel) -> Option<Seq<char>> {
    match runner_at(rec, 0) {
        Some(r) => r.pitcher,
        None => None,
    }
}

/// The identifier of the fielder credited in the first runner entry.
pub open spec fn first_credit(rec: PlayRecordModel) -> Option<u64> {
    match runner_at(rec, 0) {
        Some(r) => r.credit,
        None => None,
    }
}

/// Where the pitcher of a play is read: for a passed ball in the first
/// runner entry, else in the matchup.
pub open spec fn pitcher_source(kind: PlayKind, rec: PlayRecordModel) -> Option<Seq<char>> {
    if kind is PassedBall {
        first_pitcher(rec)
    } else {
        rec.pitcher
    }
}

/// Where the catcher of a play is read, unless a lookup gives it: for a
/// passed ball the fielder of the first runner entry, else the matchup.
pub open spec fn catcher_source(kind: PlayKind, rec: PlayRecordModel) -> Option<Seq<char>> {
    if kind is PassedBall {
        first_fielder(rec)
    } else {
        rec.catcher
    }
}

/// Whether the distinguished runner of a play of this shape is the second
/// runner entry; for the other shapes with a runner it is the first.
pub open spec fn runner_is_second(s: Shape) -> bool {
    s is BatterPitcherFieldersRunner
}

/// The identifiers of the credited fielders of the runner entries that have
/// one, in the order of the entries.
pub open spec fn credit_ids(runners: Seq<RunnerRecordModel>) -> Seq<u64>
    decreases runners.len(),
{
    if runners.len() == 0 {
        Seq::empty()
    } else {
        let before = credit_ids(runners.drop_last());
        match runners.last().credit {
            Some(id) => before.push(id),
            None => before,
        }
    }
}

/// The identifiers whose names a play of this kind needs, in the order in
/// which the names are wanted: for a kind with a list of fielders every
/// credited fielder, for a batter out the catcher credited in the first
/// runner entry, else none.
pub open spec fn lookup_ids(kind: PlayKind, rec: PlayRecordModel) -> Result<
    Seq<u64>,
    ClassificationError,
> {
    if kind is BatterOut {
        match first_credit(rec) {
            Some(id) => Ok(seq![id]),
            None => Err(ClassificationError::MissingRequiredField(Field::Catcher)),
        }
    } else if kind.shape().has_fielders() {
        match rec.runners {
            Some(rs) => Ok(credit_ids(rs)),
            None => Err(ClassificationError::MissingRequiredField(Field::Runners)),
        }
    } else {
        Ok(Seq::empty())
    }
}

/// The parts of a play that the record itself names, before any name is
/// looked up: the base, and the batter, pitcher, catcher, single fielder and
/// first-entry runner that the kind holds. The first part that is wanted and
/// missing decides the error, in this order.
pub open spec fn actors_of(event: Event, inning: Inning, rec: PlayRecordModel) -> Result<
    PlayModel,
    ClassificationError,
> {
    let kind = event.kind;
    let s = kind.shape();
    let pitcher = pitcher_source(kind, rec);
    let catcher = catcher_source(kind, rec);
    let from_record = s.has_catcher() && !(kind is BatterOut);
    let first = s.has_runner() && !runner_is_second(s);
    if s.has_batter() && rec.batter is None {
        Err(ClassificationError::MissingRequiredField(Field::Batter))
    } else if s.has_pitcher() && pitcher is None {
        Err(ClassificationError::MissingRequiredField(Field::Pitcher))
    } else if from_record && catcher is None {
        Err(ClassificationError::MissingRequiredField(Field::Catcher))
    } else if s.has_fielder() && first_fielder(rec) is None {
        Err(ClassificationError::MissingRequiredField(Field::Fielder))
    } else if first && runner_name_at(rec, 0) is None {
        Err(ClassificationError::MissingRequiredField(Field::Runner))
    } else {
        Ok(
            PlayModel {
                base: event.base,
                batter: if s.has_batter() {
                    rec.batter
                } else {
                    None
                },
                pitcher: if s.has_pitcher() {
                    pitcher
                } else {
                    None
                },
                catcher: if from_record {
                    catcher
                } else {
                    None
                },
                fielder: if s.has_fielder() {
                    first_fielder(rec)
                } else {
                    None
                },
                runner: if first {
                    runner_name_at(rec, 0)
                } else {
                    None
                },
                ..PlayModel::bare(kind, inning)
            },
        )
    }
}

/// What is known of a play before any name is looked up: its parts so far,
/// and the identifiers whose names are wanted. A record without a label, with
/// an unknown label, without a half-inning or with an inning number above
/// 255 is turned down first.
pub open spec fn prepared(rec: PlayRecordModel) -> Result<
    (PlayModel, Seq<u64>),
    ClassificationError,
> {
    match rec.event {
        None => Err(ClassificationError::MissingRequiredField(Field::Event)),
        Some(label) => match event_of_label(label) {
            None => Err(ClassificationError::UnknownEventType),
            Some(event) => match inning_of(rec) {
                Err(e) => Err(e),
                Ok(inning) => match actors_of(event, inning, rec) {
                    Err(e) => Err(e),
                    Ok(m) => match lookup_ids(event.kind, rec) {
                        Err(e) => Err(e),
                        Ok(ids) => Ok((m, ids)),
                    },
                },
            },
        },
    }
}

/// The identifiers whose names must be resolved before the record can be
/// classified.
pub open spec fn wanted_ids(rec: PlayRecordModel) -> Result<Seq<u64>, ClassificationError> {
    match prepared(rec) {
        Ok(p) => Ok(p.1),
        Err(e) => Err(e),
    }
}

/// The name given for the identifier at position `i`: none where the list
/// of names ends before `i`.
pub open spec fn name_at(names: Seq<Option<Seq<char>>>, i: int) -> Option<Seq<char>> {
    if 0 <= i < names.len() {
        names[i]
    } else {
        None
    }
}

/// Each identifier with the name given for it.
pub open spec fn paired(ids: Seq<u64>, names: Seq<Option<Seq<char>>>) -> Seq<
    (u64, Option<Seq<char>>),
> {
    Seq::new(ids.len(), |i: int| (ids[i], name_at(names, i)))
}

/// The name of a pair, or the error that names its identifier.
pub open spec fn name_or_unresolved() -> spec_fn((u64, Option<Seq<char>>)) -> Result<
    Seq<char>,
    ClassificationError,
> {
    |p: (u64, Option<Seq<char>>)|
        match p.1 {
            Some(n) => Ok(n),
            None => Err(ClassificationError::UnresolvedFielder(p.0)),
        }
}

/// The names of the identifiers, in their order, or the error of the first
/// identifier without a name.
pub open spec fn resolved(ids: Seq<u64>, names: Seq<Option<Seq<char>>>) -> Result<
    Seq<Seq<char>>,
    ClassificationError,
> {
    try_map(paired(ids, names), name_or_unresolved())
}

/// The movement of one runner entry: an entry without a runner's name is
/// turned down.
pub open spec fn entry_movement() -> spec_fn(RunnerRecordModel) -> Result<
    MovementModel,
    ClassificationError,
> {
    |r: RunnerRecordModel|
        match r.runner {
            Some(name) => movement_of(name, r.movement),
            None => Err(ClassificationError::MissingRequiredField(Field::Runner)),
        }
}

/// One movement for each runner entry of the record, in the order of the
/// entries.
pub open spec fn movements_of(rec: PlayRecordModel) -> Result<
    Seq<MovementModel>,
    ClassificationError,
> {
    match rec.runners {
        Some(rs) => try_map(rs, entry_movement()),
        None => Err(ClassificationError::MissingRequiredField(Field::Runners)),
    }
}

/// The play that a record describes, given the names that were resolved for
/// the identifiers of `wanted_ids`, in their order; a name that could not be
/// resolved is `None`, and so is every name after the end of the list.
///
/// The first defect decides the error, in this order: the label, the
/// half-inning, the actors that the record names, the names looked up, the
/// runner read from the second runner entry, the movements.
pub open spec fn classify(rec: PlayRecordModel, names: Seq<Option<Seq<char>>>) -> Result<
    PlayModel,
    ClassificationError,
> {
    match prepared(rec) {
        Err(e) => Err(e),
        Ok(p) => match resolved(p.1, names) {
            Err(e) => Err(e),
            Ok(found) => {
                let m = p.0;
                let s = m.kind.shape();
                let second = runner_name_at(rec, 1);
                let moves = if s.has_movements() {
                    movements_of(rec)
                } else {
                    Ok(Seq::empty())
                };
                if s.has_scoring_runner() && second is None {
                    Err(ClassificationError::MissingRequiredField(Field::ScoringRunner))
                } else if runner_is_second(s) && second is None {
                    Err(ClassificationError::MissingRequiredField(Field::Runner))
                } else {
                    match moves {
                        Err(e) => Err(e),
                        Ok(ms) => Ok(
                            PlayModel {
                                catcher: if m.kind is BatterOut {
                                    Some(found[0])
                                } else {
                                    m.catcher
                                },
                                fielders: if s.has_fielders() {
                                    Some(found)
                                } else {
                                    None
                                },
                                scoring_runner: if s.has_scoring_runner() {
                                    second
                                } else {
                                    None
                                },
                                runner: if runner_is_second(s) {
                                    second
                                } else {
                                    m.runner
                                },
                                movements: if s.has_movements() {
                                    Some(ms)
                                } else {
                                    None
                                },
                                ..m
                            },
                        ),
                    }
                }
            },
        },
    }
}

/// The runner entry at position `i` of a record.
fn entry_at(rec: &PlayRecord, i: usize) -> (r: Option<&RunnerRecord>)
    ensures
        r.deep_view() == runner_at(rec@, i as int),
{
    match &rec.runners {
        Some(rs) => if i < rs.len() {
            Some(&rs[i])
        } else {
            None
        },
        None => None,
    }
}

/// A copy of a text that may be missing.
fn copied(t: &Option<String>) -> (r: Option<String>)
    ensures
        r.deep_view() == t.deep_view(),
{
    match t {
        Some(s) => Some(s.clone()),
        None => None,
    }
}

/// The name of the runner at position `i` of a record.
fn entry_name(rec: &PlayRecord, i: usize) -> (r: Option<String>)
    ensures
        r.deep_view() == runner_name_at(rec@, i as int),
{
    match entry_at(rec, i) {
        Some(e) => copied(&e.runner),
        None => None,
    }
}

/// The identifiers of the credited fielders, in the order of the entries.
fn collect_credits(runners: &Vec<RunnerRecord>) -> (r: Vec<u64>)
    ensures
        r@ == credit_ids(runners.deep_view()),
{
    let mut out: Vec<u64> = Vec::new();
    let mut i: usize = 0;
    let ghost all = runners.deep_view();
    assert(all.take(0) =~= Seq::<RunnerRecordModel>::empty());
    while i < runners.len()
        invariant
            i <= runners.len(),
            all == runners.deep_view(),
            out@ == credit_ids(all.take(i as int)),
        decreases runners.len() - i,
    {
        proof {
            assert(all.take(i + 1).drop_last() =~= all.take(i as int));
            assert(all.take(i + 1).last() == runners[i as int]@);
        }
        match runners[i].credit {
            Some(id) => {
                out.push(id);
            },
            None => {},
        }
        i = i + 1;
    }
    assert(all.take(i as int) =~= all);
    out
}

/// The names of the identifiers, in their order.
fn resolve(ids: &Vec<u64>, names: &Vec<Option<String>>) -> (r: Result<
    Vec<String>,
    ClassificationError,
>)
    ensures
        match resolved(ids@, names.deep_view()) {
            Ok(found) => r is Ok && r->Ok_0.deep_view() == found,
            Err(e) => r is Err && r->Err_0 == e,
        },
{
    let mut out: Vec<String> = Vec::new();
    let mut i: usize = 0;
    let ghost pairs = paired(ids@, names.deep_view());
    assert(pairs.take(0) =~= Seq::<(u64, Option<Seq<char>>)>::empty());
    assert(out.deep_view() =~= Seq::<Seq<char>>::empty());
    while i < ids.len()
        invariant
            i <= ids.len(),
            pairs == paired(ids@, names.deep_view()),
            try_map(pairs.take(i as int), name_or_unresolved()) == Ok::<
                Seq<Seq<char>>,
                ClassificationError,
            >(out.deep_view()),
        decreases ids.len() - i,
    {
        let name = if i < names.len() {
            copied(&names[i])
        } else {
            None
        };
        proof {
            lemma_try_map_step(pairs, name_or_unresolved(), i as int);
            assert(pairs[i as int] == (ids[i as int], name.deep_view()));
        }
        match name {
            Some(n) => {
                let ghost before = out.deep_view();
                out.push(n);
                assert(out.deep_view() =~= before.push(n@));
            },
            None => {
                proof {
                    lemma_try_map_err(pairs, name_or_unresolved(), i + 1);
                }
                return Err(ClassificationError::UnresolvedFielder(ids[i]));
            },
        }
        i = i + 1;
    }
    assert(pairs.take(i as int) =~= pairs);
    Ok(out)
}

/// One movement for each runner entry, in the order of the entries.
fn collect_movements(rec: &PlayRecord) -> (r: Result<Vec<Movement>, ClassificationError>)
    ensures
        match movements_of(rec@) {
            Ok(ms) => r is Ok && r->Ok_0.deep_view() == ms,
            Err(e) => r is Err && r->Err_0 == e,
        },
        r is Ok ==> forall|k: int|
            0 <= k < r->Ok_0.deep_view().len() ==> (#[trigger] r->Ok_0.deep_view()[k]).wf(),
{
    let runners = match &rec.runners {
        Some(rs) => rs,
        None => {
            return Err(ClassificationError::MissingRequiredField(Field::Runners));
        },
    };
    let mut out: Vec<Movement> = Vec::new();
    let mut i: usize = 0;
    let ghost all = runners.deep_view();
    assert(all.take(0) =~= Seq::<RunnerRecordModel>::empty());
    assert(out.deep_view() =~= Seq::<MovementModel>::empty());
    while i < runners.len()
        invariant
            i <= runners.len(),
            all == runners.deep_view(),
            rec@.runners == Some(all),
            try_map(all.take(i as int), entry_movement()) == Ok::<
                Seq<MovementModel>,
                ClassificationError,
            >(out.deep_view()),
            forall|k: int| 0 <= k < out.deep_view().len() ==> (#[trigger] out.deep_view()[k]).wf(),
        decreases runners.len() - i,
    {
        proof {
            lemma_try_map_step(all, entry_movement(), i as int);
            assert(all[i as int] == runners[i as int]@);
        }
        let entry = &runners[i];
        let made = match copied(&entry.runner) {
            Some(name) => Movement::from_record(name, &entry.movement),
            None => Err(ClassificationError::MissingRequiredField(Field::Runner)),
        };
        match made {
            Ok(m) => {
                let ghost before = out.deep_view();
                out.push(m);
                assert(out.deep_view() =~= before.push(m@));
            },
            Err(e) => {
                proof {
                    lemma_try_map_err(all, entry_movement(), i + 1);
                }
                return Err(e);
            },
        }
        i = i + 1;
    }
    assert(all.take(i as int) =~= all);
    Ok(out)
}

/// What is known of a play before any name is looked up.
fn prepare(rec: &PlayRecord) -> (r: Result<(PlayParts, Vec<u64>), ClassificationError>)
    ensures
        match prepared(rec@) {
            Ok(p) => r is Ok && r->Ok_0.0@ == p.0 && r->Ok_0.1@ == p.1,
            Err(e) => r is Err && r->Err_0 == e,
        },
{
    let label = match &rec.event {
        Some(l) => l,
        None => {
            return Err(ClassificationError::MissingRequiredField(Field::Event));
        },
    };
    let event = match Event::from_label(label.as_str()) {
        Some(e) => e,
        None => {
            return Err(ClassificationError::UnknownEventType);
        },
    };
    let inning = match Inning::from_parts(rec.inning, rec.is_top_inning) {
        Ok(i) => i,
        Err(e) => {
            return Err(e);
        },
    };
    let kind = event.kind;
    let s = kind.shape();
    let passed_ball = kind == PlayKind::PassedBall;
    let batter_out = kind == PlayKind::BatterOut;
    let first = entry_at(rec, 0);
    let mut parts = PlayParts::bare(kind, inning);
    parts.base = event.base;
    if s.has_batter() {
        match copied(&rec.batter) {
            Some(b) => {
                parts.batter = Some(b);
            },
            None => {
                return Err(ClassificationError::MissingRequiredField(Field::Batter));
            },
        }
    }
    if s.has_pitcher() {
        let pitcher = if passed_ball {
            match first {
                Some(e) => copied(&e.pitcher),
                None => None,
            }
        } else {
            copied(&rec.pitcher)
        };
        match pitcher {
            Some(p) => {
                parts.pitcher = Some(p);
            },
            None => {
                return Err(ClassificationError::MissingRequiredField(Field::Pitcher));
            },
        }
    }
    if s.has_catcher() && !batter_out {
        let catcher = if passed_ball {
            match first {
                Some(e) => copied(&e.fielder),
                None => None,
            }
        } else {
            copied(&rec.catcher)
        };
        match catcher {
            Some(c) => {
                parts.catcher = Some(c);
            },
            None => {
                return Err(ClassificationError::MissingRequiredField(Field::Catcher));
            },
        }
    }
    if s.has_fielder() {
        let fielder = match first {
            Some(e) => copied(&e.fielder),
            None => None,
        };
        match fielder {
            Some(f) => {
                parts.fielder = Some(f);
            },
            None => {
                return Err(ClassificationError::MissingRequiredField(Field::Fielder));
            },
        }
    }
    if s.has_runner() && s != Shape::BatterPitcherFieldersRunner {
        match entry_name(rec, 0) {
            Some(n) => {
                parts.runner = Some(n);
            },
            None => {
                return Err(ClassificationError::MissingRequiredField(Field::Runner));
            },
        }
    }
    let ids = if batter_out {
        let credit = match first {
            Some(e) => e.credit,
            None => None,
        };
        match credit {
            Some(id) => {
                let mut one: Vec<u64> = Vec::new();
                one.push(id);
                assert(one@ =~= seq![id]);
                one
            },
            None => {
                return Err(ClassificationError::MissingRequiredField(Field::Catcher));
            },
        }
    } else if s.has_fielders() {
        match &rec.runners {
            Some(rs) => collect_credits(rs),
            None => {
                return Err(ClassificationError::MissingRequiredField(Field::Runners));
            },
        }
    } else {
        Vec::new()
    };
    Ok((parts, ids))
}

impl Play {
    /// The identifiers whose names must be resolved before the record can
    /// be classified, in the order in which `from_record` wants the names.
    /// A record that a missing part or an unknown label already rules out is
    /// turned down here, before any name is looked up.
    pub fn lookups(rec: &PlayRecord) -> (r: Result<Vec<u64>, ClassificationError>)
        ensures
            match wanted_ids(rec@) {
                Ok(ids) => r is Ok && r->Ok_0@ == ids,
                Err(e) => r is Err && r->Err_0 == e,
            },
    {
        match prepare(rec) {
            Ok(p) => Ok(p.1),
            Err(e) => Err(e),
        }
    }

    /// Classifies a record, given the names resolved for the identifiers of
    /// `lookups`, in their order. A name that could not be resolved is
    /// `None`; a list that ends early stands for names that were never
    /// resolved. Either the whole play is built, or an error says why not.
    pub fn from_record(rec: &PlayRecord, names: &Vec<Option<String>>) -> (r: Result<
        Play,
        ClassificationError,
    >)
        ensures
            agrees(r, classify(rec@, names.deep_view())),
            r is Ok ==> r->Ok_0@.wf(),
    {
        let (mut parts, ids) = match prepare(rec) {
            Ok(p) => p,
            Err(e) => {
                return Err(e);
            },
        };
        let ghost before = parts@;
        let mut found = match resolve(&ids, names) {
            Ok(f) => f,
            Err(e) => {
                return Err(e);
            },
        };
        proof {
            lemma_event_base(rec@.event->0);
            lemma_try_map_ok(paired(ids@, names.deep_view()), name_or_unresolved());
        }
        let s = parts.kind.shape();
        if s.has_scoring_runner() {
            match entry_name(rec, 1) {
                Some(n) => {
                    parts.scoring_runner = Some(n);
                },
                None => {
                    return Err(ClassificationError::MissingRequiredField(Field::ScoringRunner));
                },
            }
        } else if s == Shape::BatterPitcherFieldersRunner {
            match entry_name(rec, 1) {
                Some(n) => {
                    parts.runner = Some(n);
                },
                None => {
                    return Err(ClassificationError::MissingRequiredField(Field::Runner));
                },
            }
        }
        if s.has_movements() {
            match collect_movements(rec) {
                Ok(ms) => {
                    parts.movements = Some(ms);
                },
                Err(e) => {
                    return Err(e);
                },
            }
        }
        if parts.kind == PlayKind::BatterOut {
            let ghost all = found.deep_view();
            let name = found.pop();
            assert(name.deep_view() == Some(all[0]));
            parts.catcher = name;
        } else if s.has_fielders() {
            parts.fielders = Some(found);
        }
        Ok(Play::from_parts(parts))
    }
}

/// The runner entry that names the distinguished runner of a play of this
/// shape.
pub open spec fn runner_entry(s: Shape) -> int {
    if runner_is_second(s) {
        1
    } else {
        0
    }
}

/// Whether the record lacks an actor that a play of this kind must name:
/// its batter, pitcher, catcher, single fielder, distinguished runner or
/// scoring runner.
pub open spec fn lacks_actor(kind: PlayKind, rec: PlayRecordModel) -> bool {
    let s = kind.shape();
    ||| s.has_batter() && rec.batter is None
    ||| s.has_pitcher() && pitcher_source(kind, rec) is None
    ||| s.has_catcher() && !(kind is BatterOut) && catcher_source(kind, rec) is None
    ||| kind is BatterOut && first_credit(rec) is None
    ||| s.has_fielder() && first_fielder(rec) is None
    ||| s.has_runner() && runner_name_at(rec, runner_entry(s)) is None
    ||| s.has_scoring_runner() && runner_name_at(rec, 1) is None
}

/// A record that lacks a mandatory actor is never classified, whatever
/// names were resolved.
pub proof fn lemma_missing_actor_fails(rec: PlayRecordModel, names: Seq<Option<Seq<char>>>)
    requires
        rec.event is Some,
        event_of_label(rec.event->0) is Some,
        lacks_actor(event_of_label(rec.event->0)->0.kind, rec),
    ensures
        classify(rec, names) is Err,
{
}

/// A name that could not be resolved fails the whole play.
pub proof fn lemma_unresolved_fails(rec: PlayRecordModel, names: Seq<Option<Seq<char>>>, i: int)
    requires
        wanted_ids(rec) is Ok,
        0 <= i < wanted_ids(rec)->Ok_0.len(),
        name_at(names, i) is None,
    ensures
        classify(rec, names) is Err,
{
    let ids = wanted_ids(rec)->Ok_0;
    assert(paired(ids, names)[i].1 is None);
    lemma_try_map_fails(paired(ids, names), name_or_unresolved(), i);
}

/// A classified play is whole: it has the kind and the base that its label
/// names and the half-inning of the record, every part of its shape is
/// present and no other, and every base in it is 1 to 4.
pub proof fn lemma_classified_whole(rec: PlayRecordModel, names: Seq<Option<Seq<char>>>)
    requires
        classify(rec, names) is Ok,
    ensures
        rec.event is Some,
        event_of_label(rec.event->0) == Some(
            Event { kind: classify(rec, names)->Ok_0.kind, base: classify(rec, names)->Ok_0.base },
        ),
        inning_of(rec) == Ok::<Inning, ClassificationError>(classify(rec, names)->Ok_0.inning),
        classify(rec, names)->Ok_0.wf(),
{
    let p = classify(rec, names)->Ok_0;
    lemma_event_base(rec.event->0);
    let ids = prepared(rec)->Ok_0.1;
    lemma_try_map_ok(paired(ids, names), name_or_unresolved());
    if p.movements is Some {
        let rs = rec.runners->0;
        lemma_try_map_ok(rs, entry_movement());
        assert forall|i: int| 0 <= i < p.movements->0.len() implies (#[trigger] p.movements->0[i]).wf() by {
            let r = rs[i];
            assert(entry_movement()(r) == Ok::<MovementModel, ClassificationError>(
                p.movements->0[i],
            ));
            lemma_movement_wf(r.runner->0, r.movement);
        }
    }
}

/// The parts of a classified play are those of the record, verbatim: the
/// actors are the names that the record gives, the fielders are the names
/// resolved for the credited fielders, in order, and there is one movement
/// for each runner entry, in order, under the runner's name.
pub proof fn lemma_classified_verbatim(rec: PlayRecordModel, names: Seq<Option<Seq<char>>>)
    requires
        classify(rec, names) is Ok,
    ensures
        ({
            let p = classify(rec, names)->Ok_0;
            let s = p.kind.shape();
            &&& s.has_batter() ==> p.batter == rec.batter
            &&& s.has_pitcher() ==> p.pitcher == pitcher_source(p.kind, rec)
            &&& s.has_catcher() && !(p.kind is BatterOut) ==> p.catcher == catcher_source(
                p.kind,
                rec,
            )
            &&& p.kind is BatterOut ==> p.catcher == name_at(names, 0)
            &&& s.has_fielder() ==> p.fielder == first_fielder(rec)
            &&& s.has_runner() ==> p.runner == runner_name_at(rec, runner_entry(s))
            &&& s.has_scoring_runner() ==> p.scoring_runner == runner_name_at(rec, 1)
            &&& s.has_fielders() ==> rec.runners is Some && p.fielders->0.len() == credit_ids(
                rec.runners->0,
            ).len() && forall|i: int|
                0 <= i < p.fielders->0.len() ==> name_at(names, i) == Some(
                    #[trigger] p.fielders->0[i],
                )
            &&& s.has_movements() ==> rec.runners is Some && p.movements->0.len()
                == rec.runners->0.len() && forall|i: int|
                0 <= i < p.movements->0.len() ==> rec.runners->0[i].runner is Some && movement_of(
                    rec.runners->0[i].runner->0,
                    rec.runners->0[i].movement,
                ) == Ok::<MovementModel, ClassificationError>(#[trigger] p.movements->0[i])
        }),
{
    let p = classify(rec, names)->Ok_0;
    let s = p.kind.shape();
    let ids = prepared(rec)->Ok_0.1;
    let pairs = paired(ids, names);
    lemma_try_map_ok(pairs, name_or_unresolved());
    let found = resolved(ids, names)->Ok_0;
    assert forall|i: int| 0 <= i < found.len() implies name_at(names, i) == Some(
        #[trigger] found[i],
    ) by {
        assert(name_or_unresolved()(pairs[i]) == Ok::<Seq<char>, ClassificationError>(found[i]));
    }
    if s.has_movements() {
        let rs = rec.runners->0;
        lemma_try_map_ok(rs, entry_movement());
        assert forall|i: int| 0 <= i < p.movements->0.len() implies rs[i].runner is Some
            && movement_of(rs[i].runner->0, rs[i].movement) == Ok::<
            MovementModel,
            ClassificationError,
        >(#[trigger] p.movements->0[i]) by {
            assert(entry_movement()(rs[i]) == Ok::<MovementModel, ClassificationError>(
                p.movements->0[i],
            ));
        }
    }
}

/// Whether a record is complete: it has a half-inning, every name that any
/// kind of play reads, at least two runner entries, each with its names, a
/// credited fielder and bases that are null or known codes.
pub open spec fn complete(rec: PlayRecordModel) -> bool {
    &&& inning_of(rec) is Ok
    &&& rec.batter is Some
    &&& rec.pitcher is Some
    &&& rec.catcher is Some
    &&& rec.runners is Some
    &&& rec.runners->0.len() >= 2
    &&& forall|i: int|
        0 <= i < rec.runners->0.len() ==> {
            let r = #[trigger] rec.runners->0[i];
            &&& r.runner is Some
            &&& r.fielder is Some
            &&& r.pitcher is Some
            &&& r.credit is Some
            &&& base_of(r.movement.start) is Ok
            &&& base_of(r.movement.end) is Ok
        }
}

/// A complete record with a known label is classified, with the kind that
/// its label names, once every wanted name is resolved.
pub proof fn lemma_complete_is_classified(rec: PlayRecordModel, names: Seq<Option<Seq<char>>>)
    requires
        rec.event is Some,
        event_of_label(rec.event->0) is Some,
        complete(rec),
        forall|i: int| 0 <= i < names.len() ==> (#[trigger] names[i]) is Some,
        wanted_ids(rec) is Ok ==> names.len() >= wanted_ids(rec)->Ok_0.len(),
    ensures
        classify(rec, names) is Ok,
        classify(rec, names)->Ok_0.kind == event_of_label(rec.event->0)->0.kind,
{
    let rs = rec.runners->0;
    assert(rs[0].runner is Some);
    assert(rs[1].runner is Some);
    assert(prepared(rec) is Ok);
    let ids = prepared(rec)->Ok_0.1;
    let pairs = paired(ids, names);
    assert forall|k: int| 0 <= k < pairs.len() implies name_or_unresolved()(
        #[trigger] pairs[k],
    ) is Ok by {
        assert(names[k] is Some);
    }
    lemma_try_map_all(pairs, name_or_unresolved());
    assert forall|k: int| 0 <= k < rs.len() implies entry_movement()(#[trigger] rs[k]) is Ok by {
        assert(rs[k].runner is Some);
    }
    lemma_try_map_all(rs, entry_movement());
}

} // verus!
