use mlb_plays::{
    BaseValue, ClassificationError, Event, Field, Inning, Movement, MovementRecord, Play,
    PlayKind, PlayRecord, RunnerRecord, Scalar, Shape,
};

fn text(s: &str) -> Option<String> {
    Some(s.to_string())
}

fn null_movement() -> MovementRecord {
    MovementRecord { start: BaseValue::Null, end: BaseValue::Null, is_out: None }
}

fn runner(name: &str, credit: Option<u64>) -> RunnerRecord {
    RunnerRecord {
        runner: text(name),
        fielder: None,
        pitcher: None,
        credit,
        movement: null_movement(),
    }
}

fn record(event: &str, runners: Vec<RunnerRecord>) -> PlayRecord {
    PlayRecord {
        event: text(event),
        inning: Some(1),
        is_top_inning: Some(true),
        batter: text("A"),
        pitcher: text("B"),
        catcher: text("C"),
        runners: Some(runners),
    }
}

/// A record that names everything that any kind of play reads.
fn full(event: &str) -> PlayRecord {
    let first = RunnerRecord {
        runner: text("R0"),
        fielder: text("F0"),
        pitcher: text("PX"),
        credit: Some(10),
        movement: MovementRecord {
            start: BaseValue::Code("1B".to_string()),
            end: BaseValue::Code("2B".to_string()),
            is_out: Some(false),
        },
    };
    let second = RunnerRecord {
        runner: text("R1"),
        fielder: text("F1"),
        pitcher: text("PY"),
        credit: Some(11),
        movement: MovementRecord {
            start: BaseValue::Code("3B".to_string()),
            end: BaseValue::Code("score".to_string()),
            is_out: None,
        },
    };
    record(event, vec![first, second])
}

fn names(list: &[&str]) -> Vec<Option<String>> {
    list.iter().map(|n| Some(n.to_string())).collect()
}

fn stay(name: &str) -> Movement {
    Movement { runner: name.to_string(), start_base: None, end_base: None, is_out: false }
}

fn missing(f: Field) -> Result<Play, ClassificationError> {
    Err(ClassificationError::MissingRequiredField(f))
}

const INNING: Inning = Inning { number: 1, top: true };

fn labels() -> Vec<(&'static str, PlayKind, Option<u8>)> {
    vec![
        ("Groundout", PlayKind::Groundout, None),
        ("Bunt Groundout", PlayKind::BuntGroundout, None),
        ("Strikeout", PlayKind::Strikeout, None),
        ("Lineout", PlayKind::Lineout, None),
        ("Bunt Lineout", PlayKind::BuntLineout, None),
        ("Flyout", PlayKind::Flyout, None),
        ("Pop Out", PlayKind::PopOut, None),
        ("Bunt Pop Out", PlayKind::BuntPopOut, None),
        ("Forceout", PlayKind::Forceout, None),
        ("Fielders Choice Out", PlayKind::FieldersChoiceOut, None),
        ("Catcher Interference", PlayKind::CatcherInterference, None),
        ("Double Play", PlayKind::DoublePlay, None),
        ("Triple Play", PlayKind::TriplePlay, None),
        ("Runner Double Play", PlayKind::RunnerDoublePlay, None),
        ("Runner Triple Play", PlayKind::RunnerTriplePlay, None),
        ("Grounded Into DP", PlayKind::GroundedIntoDoublePlay, None),
        ("Strikeout Double Play", PlayKind::StrikeoutDoublePlay, None),
        ("Pickoff 1B", PlayKind::Pickoff, Some(1)),
        ("Pickoff 2B", PlayKind::Pickoff, Some(2)),
        ("Pickoff 3B", PlayKind::Pickoff, Some(3)),
        ("Pickoff Error 1B", PlayKind::PickoffError, Some(1)),
        ("Pickoff Error 2B", PlayKind::PickoffError, Some(2)),
        ("Pickoff Error 3B", PlayKind::PickoffError, Some(3)),
        ("Caught Stealing 2B", PlayKind::CaughtStealing, Some(2)),
        ("Caught Stealing 3B", PlayKind::CaughtStealing, Some(3)),
        ("Caught Stealing Home", PlayKind::CaughtStealing, Some(4)),
        ("Pickoff Caught Stealing 1B", PlayKind::PickoffCaughtStealing, Some(1)),
        ("Pickoff Caught Stealing 2B", PlayKind::PickoffCaughtStealing, Some(2)),
        ("Pickoff Caught Stealing 3B", PlayKind::PickoffCaughtStealing, Some(3)),
        ("Pickoff Caught Stealing Home", PlayKind::PickoffCaughtStealing, Some(4)),
        ("Wild Pitch", PlayKind::WildPitch, None),
        ("Runner Out", PlayKind::RunnerOut, None),
        ("Field Out", PlayKind::FieldOut, None),
        ("Batter Out", PlayKind::BatterOut, None),
        ("Balk", PlayKind::Balk, None),
        ("Passed Ball", PlayKind::PassedBall, None),
        ("Error", PlayKind::Error, None),
        ("Single", PlayKind::Single, None),
        ("Double", PlayKind::Double, None),
        ("Triple", PlayKind::Triple, None),
        ("Home Run", PlayKind::HomeRun, None),
        ("Walk", PlayKind::Walk, None),
        ("Intent Walk", PlayKind::IntentWalk, None),
        ("Hit By Pitch", PlayKind::HitByPitch, None),
        ("Fielders Choice", PlayKind::FieldersChoice, None),
        ("Stolen Base 1B", PlayKind::StolenBase, Some(1)),
        ("Stolen Base 2B", PlayKind::StolenBase, Some(2)),
        ("Stolen Base 3B", PlayKind::StolenBase, Some(3)),
        ("Stolen Base Home", PlayKind::StolenBase, Some(4)),
        ("Sac Fly", PlayKind::SacFly, None),
        ("Sac Fly Double Play", PlayKind::SacFlyDoublePlay, None),
        ("Sac Bunt", PlayKind::SacBunt, None),
        ("Sac Bunt Double Play", PlayKind::SacBuntDoublePlay, None),
        ("Field Error", PlayKind::FieldError, None),
        ("Game Advisory", PlayKind::GameAdvisory, None),
        ("Ejection", PlayKind::Ejection, None),
    ]
}

#[test]
fn every_label_names_its_event() {
    let table = labels();
    assert_eq!(table.len(), 56);
    for (label, kind, base) in table {
        assert_eq!(Event::from_label(label), Some(Event { kind, base }), "{}", label);
    }
}

#[test]
fn labels_are_compared_letter_for_letter() {
    assert_eq!(Event::from_label("groundout"), None);
    assert_eq!(Event::from_label("Groundout "), None);
    assert_eq!(Event::from_label(""), None);
    assert_eq!(Event::from_label("Pickoff"), None);
    assert_eq!(Event::from_label("Pickoff Home"), None);
    assert_eq!(Event::from_label("Caught Stealing 1B"), None);
    assert_eq!(Event::from_label("Pickoff Error Home"), None);
    assert_eq!(Event::from_label("Grounded Into Double Play"), None);
    assert_eq!(Event::from_label("Stolen Base"), None);
}

#[test]
fn every_label_classifies_a_full_record() {
    for (label, kind, base) in labels() {
        let rec = full(label);
        let ids = Play::lookups(&rec).unwrap();
        let given: Vec<Option<String>> =
            ids.iter().map(|id| Some(format!("N{}", id))).collect();
        let play = Play::from_record(&rec, &given).unwrap();
        assert_eq!(play.kind(), kind, "{}", label);
        assert_eq!(play.inning(), INNING, "{}", label);
        let f = play.fields();
        assert_eq!(f.base, base, "{}", label);
        let s = kind.shape();
        assert_eq!(f.base.is_some(), s.has_base(), "{}", label);
        assert_eq!(f.batter.is_some(), s.has_batter(), "{}", label);
        assert_eq!(f.pitcher.is_some(), s.has_pitcher(), "{}", label);
        assert_eq!(f.catcher.is_some(), s.has_catcher(), "{}", label);
        assert_eq!(f.fielder.is_some(), s.has_fielder(), "{}", label);
        assert_eq!(f.fielders.is_some(), s.has_fielders(), "{}", label);
        assert_eq!(f.scoring_runner.is_some(), s.has_scoring_runner(), "{}", label);
        assert_eq!(f.runner.is_some(), s.has_runner(), "{}", label);
        assert_eq!(f.movements.is_some(), s.has_movements(), "{}", label);
        if let Some(ms) = f.movements {
            assert_eq!(
                ms,
                &vec![
                    Movement {
                        runner: "R0".to_string(),
                        start_base: Some(1),
                        end_base: Some(2),
                        is_out: false
                    },
                    Movement {
                        runner: "R1".to_string(),
                        start_base: Some(3),
                        end_base: Some(4),
                        is_out: false
                    },
                ],
                "{}",
                label
            );
        }
        if let Some(fs) = f.fielders {
            assert_eq!(fs, &vec!["N10".to_string(), "N11".to_string()], "{}", label);
        }
        if let Some(b) = f.batter {
            assert_eq!(b, "A", "{}", label);
        }
    }
}

#[test]
fn strikeout_with_no_runners() {
    let rec = PlayRecord {
        event: text("Strikeout"),
        inning: Some(1),
        is_top_inning: Some(true),
        batter: text("A"),
        pitcher: text("B"),
        catcher: None,
        runners: Some(vec![]),
    };
    assert_eq!(Play::lookups(&rec), Ok(vec![]));
    assert_eq!(
        Play::from_record(&rec, &vec![]),
        Ok(Play::Strikeout {
            inning: INNING,
            batter: "A".to_string(),
            pitcher: "B".to_string(),
            movements: vec![],
        })
    );
}

#[test]
fn pickoff_at_second_base() {
    let entry = RunnerRecord {
        runner: text("R"),
        fielder: None,
        pitcher: None,
        credit: None,
        movement: MovementRecord {
            start: BaseValue::Code("2B".to_string()),
            end: BaseValue::Null,
            is_out: Some(true),
        },
    };
    let rec = record("Pickoff 2B", vec![entry]);
    assert_eq!(
        Play::from_record(&rec, &vec![]),
        Ok(Play::Pickoff {
            inning: INNING,
            base: 2,
            runner: "R".to_string(),
            fielders: vec![],
            movements: vec![Movement {
                runner: "R".to_string(),
                start_base: Some(2),
                end_base: None,
                is_out: true,
            }],
        })
    );
}

#[test]
fn unknown_label_is_its_own_error() {
    let rec = full("Unknown Future Event");
    assert_eq!(Play::lookups(&rec), Err(ClassificationError::UnknownEventType));
    assert_eq!(
        Play::from_record(&rec, &names(&["X", "Y"])),
        Err(ClassificationError::UnknownEventType)
    );
}

#[test]
fn record_without_label_or_inning() {
    let mut rec = full("Single");
    rec.event = None;
    assert_eq!(Play::from_record(&rec, &vec![]), missing(Field::Event));
    let mut rec = full("Single");
    rec.inning = None;
    assert_eq!(Play::from_record(&rec, &vec![]), missing(Field::Inning));
    let mut rec = full("Single");
    rec.is_top_inning = None;
    assert_eq!(Play::from_record(&rec, &vec![]), missing(Field::Inning));
    let mut rec = full("Game Advisory");
    rec.inning = None;
    assert_eq!(Play::from_record(&rec, &vec![]), missing(Field::Inning));
}

#[test]
fn inning_number_is_kept_as_it_is() {
    let mut rec = full("Single");
    rec.inning = Some(255);
    rec.is_top_inning = Some(false);
    let play = Play::from_record(&rec, &vec![]).unwrap();
    assert_eq!(play.inning(), Inning { number: 255, top: false });
}

#[test]
fn inning_number_above_255_is_an_error() {
    let bad = Err(ClassificationError::MalformedScalar(Scalar::InningNumber));
    for n in [256u64, 259, 300, u64::MAX] {
        let mut rec = full("Single");
        rec.inning = Some(n);
        assert_eq!(Play::from_record(&rec, &vec![]), bad);
        assert_eq!(Play::lookups(&rec), Err(ClassificationError::MalformedScalar(Scalar::InningNumber)));
        let mut rec = full("Game Advisory");
        rec.inning = Some(n);
        assert_eq!(Play::from_record(&rec, &vec![]), bad);
        let mut rec = full("Groundout");
        rec.inning = Some(n);
        rec.batter = None;
        assert_eq!(Play::from_record(&rec, &vec![]), bad);
    }
    let mut rec = full("Unknown Future Event");
    rec.inning = Some(300);
    assert_eq!(Play::from_record(&rec, &vec![]), Err(ClassificationError::UnknownEventType));
}

#[test]
fn groundout_keeps_the_order_of_fielders() {
    let rec = record(
        "Groundout",
        vec![runner("R0", Some(30)), runner("R1", None), runner("R2", Some(10)), runner("R3", Some(20))],
    );
    assert_eq!(Play::lookups(&rec), Ok(vec![30, 10, 20]));
    assert_eq!(
        Play::from_record(&rec, &names(&["Z", "X", "Y"])),
        Ok(Play::Groundout {
            inning: INNING,
            batter: "A".to_string(),
            pitcher: "B".to_string(),
            fielders: vec!["Z".to_string(), "X".to_string(), "Y".to_string()],
            movements: vec![stay("R0"), stay("R1"), stay("R2"), stay("R3")],
        })
    );
}

#[test]
fn names_beyond_the_wanted_ones_are_ignored() {
    let rec = record("Flyout", vec![runner("R0", Some(30))]);
    assert_eq!(
        Play::from_record(&rec, &names(&["Z", "extra"])),
        Ok(Play::Flyout {
            inning: INNING,
            batter: "A".to_string(),
            pitcher: "B".to_string(),
            fielders: vec!["Z".to_string()],
            movements: vec![stay("R0")],
        })
    );
}

#[test]
fn unresolved_fielder_fails_the_play() {
    let rec = record("Lineout", vec![runner("R0", Some(30)), runner("R1", Some(40))]);
    let unresolved = |id| Err(ClassificationError::UnresolvedFielder(id));
    assert_eq!(Play::from_record(&rec, &vec![]), unresolved(30));
    assert_eq!(Play::from_record(&rec, &vec![None, text("Y")]), unresolved(30));
    assert_eq!(Play::from_record(&rec, &vec![text("X")]), unresolved(40));
    assert_eq!(Play::from_record(&rec, &vec![text("X"), None]), unresolved(40));
}

#[test]
fn runner_triple_play_is_its_own_variant() {
    let rec = record("Runner Triple Play", vec![]);
    assert_eq!(
        Play::from_record(&rec, &vec![]),
        Ok(Play::RunnerTriplePlay {
            inning: INNING,
            batter: "A".to_string(),
            pitcher: "B".to_string(),
            fielders: vec![],
            movements: vec![],
        })
    );
}

#[test]
fn missing_batter_or_pitcher() {
    for label in ["Groundout", "Strikeout", "Single", "Sac Fly", "Sac Bunt", "Field Error"] {
        let mut rec = full(label);
        rec.batter = None;
        rec.pitcher = None;
        assert_eq!(Play::lookups(&rec), Err(ClassificationError::MissingRequiredField(Field::Batter)));
        assert_eq!(Play::from_record(&rec, &names(&["X", "Y"])), missing(Field::Batter), "{}", label);
        let mut rec = full(label);
        rec.pitcher = None;
        assert_eq!(Play::from_record(&rec, &names(&["X", "Y"])), missing(Field::Pitcher), "{}", label);
    }
    for label in ["Wild Pitch", "Balk", "Error"] {
        let mut rec = full(label);
        rec.batter = None;
        rec.pitcher = None;
        assert_eq!(Play::from_record(&rec, &vec![]), missing(Field::Pitcher), "{}", label);
    }
}

#[test]
fn missing_actor_comes_before_any_lookup() {
    let mut rec = full("Groundout");
    rec.pitcher = None;
    assert_eq!(Play::from_record(&rec, &vec![]), missing(Field::Pitcher));
}

#[test]
fn fielders_choice_out_reads_the_second_runner() {
    let rec = full("Fielders Choice Out");
    assert_eq!(
        Play::from_record(&rec, &names(&["X", "Y"])).unwrap().fields().scoring_runner,
        Some(&"R1".to_string())
    );
    let mut one = full("Fielders Choice Out");
    one.runners.as_mut().unwrap().truncate(1);
    assert_eq!(Play::from_record(&one, &names(&["X"])), missing(Field::ScoringRunner));
    assert_eq!(
        Play::from_record(&one, &vec![]),
        Err(ClassificationError::UnresolvedFielder(10))
    );
    for label in ["Sac Fly", "Sac Fly Double Play"] {
        let mut one = full(label);
        one.runners.as_mut().unwrap().truncate(1);
        assert_eq!(Play::from_record(&one, &names(&["X"])), missing(Field::ScoringRunner));
    }
}

#[test]
fn sac_bunt_reads_the_second_runner() {
    for label in ["Sac Bunt", "Sac Bunt Double Play"] {
        let rec = full(label);
        assert_eq!(
            Play::from_record(&rec, &names(&["X", "Y"])).unwrap().fields().runner,
            Some(&"R1".to_string())
        );
        let mut one = full(label);
        one.runners.as_mut().unwrap().truncate(1);
        assert_eq!(Play::from_record(&one, &names(&["X"])), missing(Field::Runner));
    }
}

#[test]
fn plays_at_a_base_read_the_first_runner() {
    for label in ["Pickoff 1B", "Pickoff Error 3B", "Caught Stealing Home", "Stolen Base 2B", "Runner Out", "Wild Pitch"] {
        let rec = full(label);
        let given = names(&["X", "Y"]);
        assert_eq!(
            Play::from_record(&rec, &given).unwrap().fields().runner,
            Some(&"R0".to_string()),
            "{}",
            label
        );
        let mut none = full(label);
        none.runners = Some(vec![]);
        assert_eq!(Play::from_record(&none, &given), missing(Field::Runner), "{}", label);
        let mut absent = full(label);
        absent.runners = None;
        assert_eq!(Play::from_record(&absent, &given), missing(Field::Runner), "{}", label);
    }
}

#[test]
fn passed_ball_reads_the_first_runner_entry() {
    let rec = full("Passed Ball");
    assert_eq!(
        Play::from_record(&rec, &vec![]),
        Ok(Play::PassedBall {
            inning: INNING,
            pitcher: "PX".to_string(),
            catcher: "F0".to_string(),
            movements: vec![
                Movement { runner: "R0".to_string(), start_base: Some(1), end_base: Some(2), is_out: false },
                Movement { runner: "R1".to_string(), start_base: Some(3), end_base: Some(4), is_out: false },
            ],
        })
    );
    let mut rec = full("Passed Ball");
    rec.runners.as_mut().unwrap()[0].pitcher = None;
    assert_eq!(Play::from_record(&rec, &vec![]), missing(Field::Pitcher));
    let mut rec = full("Passed Ball");
    rec.runners.as_mut().unwrap()[0].fielder = None;
    assert_eq!(Play::from_record(&rec, &vec![]), missing(Field::Catcher));
    let mut rec = full("Passed Ball");
    rec.runners = Some(vec![]);
    assert_eq!(Play::from_record(&rec, &vec![]), missing(Field::Pitcher));
}

#[test]
fn error_reads_the_matchup() {
    let rec = full("Error");
    let play = Play::from_record(&rec, &vec![]).unwrap();
    assert_eq!(play.fields().pitcher, Some(&"B".to_string()));
    assert_eq!(play.fields().catcher, Some(&"C".to_string()));
    let mut rec = full("Error");
    rec.catcher = None;
    assert_eq!(Play::from_record(&rec, &vec![]), missing(Field::Catcher));
}

#[test]
fn field_out_reads_the_fielder_of_the_first_runner() {
    let rec = full("Field Out");
    let play = Play::from_record(&rec, &vec![]).unwrap();
    assert_eq!(play.fields().fielder, Some(&"F0".to_string()));
    assert_eq!(play.fields().runner, Some(&"R0".to_string()));
    let mut rec = full("Field Out");
    rec.runners.as_mut().unwrap()[0].fielder = None;
    rec.runners.as_mut().unwrap()[0].runner = None;
    assert_eq!(Play::from_record(&rec, &vec![]), missing(Field::Fielder));
}

#[test]
fn batter_out_looks_the_catcher_up() {
    let rec = full("Batter Out");
    assert_eq!(Play::lookups(&rec), Ok(vec![10]));
    let play = Play::from_record(&rec, &names(&["K"])).unwrap();
    assert_eq!(play.fields().catcher, Some(&"K".to_string()));
    assert_eq!(play.fields().batter, Some(&"A".to_string()));
    assert_eq!(
        Play::from_record(&rec, &vec![]),
        Err(ClassificationError::UnresolvedFielder(10))
    );
    let mut rec = full("Batter Out");
    rec.runners.as_mut().unwrap()[0].credit = None;
    assert_eq!(Play::from_record(&rec, &names(&["K"])), missing(Field::Catcher));
    assert_eq!(Play::lookups(&rec), Err(ClassificationError::MissingRequiredField(Field::Catcher)));
}

#[test]
fn game_advisory_needs_no_runners() {
    let rec = PlayRecord {
        event: text("Game Advisory"),
        inning: Some(9),
        is_top_inning: Some(false),
        batter: None,
        pitcher: None,
        catcher: None,
        runners: None,
    };
    assert_eq!(
        Play::from_record(&rec, &vec![]),
        Ok(Play::GameAdvisory { inning: Inning { number: 9, top: false } })
    );
}

#[test]
fn ejection_holds_only_movements() {
    let mut rec = full("Ejection");
    rec.batter = None;
    rec.pitcher = None;
    rec.catcher = None;
    let play = Play::from_record(&rec, &vec![]).unwrap();
    assert_eq!(play.kind(), PlayKind::Ejection);
    assert_eq!(play.fields().movements.unwrap().len(), 2);
    rec.runners = None;
    assert_eq!(Play::from_record(&rec, &vec![]), missing(Field::Runners));
}

#[test]
fn runners_that_are_no_list() {
    let mut rec = full("Single");
    rec.runners = None;
    assert_eq!(Play::from_record(&rec, &vec![]), missing(Field::Runners));
    let mut rec = full("Groundout");
    rec.runners = None;
    assert_eq!(Play::lookups(&rec), Err(ClassificationError::MissingRequiredField(Field::Runners)));
}

#[test]
fn runner_entry_without_a_name() {
    let mut rec = full("Single");
    rec.runners.as_mut().unwrap()[1].runner = None;
    assert_eq!(Play::from_record(&rec, &vec![]), missing(Field::Runner));
}

#[test]
fn bad_base_code_in_a_movement() {
    let mut rec = full("Single");
    rec.runners.as_mut().unwrap()[1].movement.end = BaseValue::Code("5B".to_string());
    assert_eq!(
        Play::from_record(&rec, &vec![]),
        Err(ClassificationError::MalformedScalar(Scalar::BaseCode))
    );
    let mut rec = full("Single");
    rec.runners.as_mut().unwrap()[0].movement.start = BaseValue::Other;
    assert_eq!(
        Play::from_record(&rec, &vec![]),
        Err(ClassificationError::MalformedScalar(Scalar::BaseCode))
    );
}

#[test]
fn balk_takes_every_runner_entry() {
    let rec = record("Balk", vec![runner("R0", None), runner("R1", None)]);
    assert_eq!(
        Play::from_record(&rec, &vec![]),
        Ok(Play::Balk {
            inning: INNING,
            pitcher: "B".to_string(),
            movements: vec![stay("R0"), stay("R1")],
        })
    );
}

#[test]
fn shapes_of_kinds() {
    assert_eq!(PlayKind::Groundout.shape(), Shape::BatterPitcherFielders);
    assert_eq!(PlayKind::Strikeout.shape(), Shape::BatterPitcher);
    assert_eq!(PlayKind::FieldersChoiceOut.shape(), Shape::BatterPitcherFieldersScoring);
    assert_eq!(PlayKind::SacBunt.shape(), Shape::BatterPitcherFieldersRunner);
    assert_eq!(PlayKind::Pickoff.shape(), Shape::BaseRunnerFielders);
    assert_eq!(PlayKind::WildPitch.shape(), Shape::PitcherRunner);
    assert_eq!(PlayKind::RunnerOut.shape(), Shape::RunnerFielders);
    assert_eq!(PlayKind::FieldOut.shape(), Shape::FielderRunner);
    assert_eq!(PlayKind::BatterOut.shape(), Shape::BatterCatcher);
    assert_eq!(PlayKind::Balk.shape(), Shape::Pitcher);
    assert_eq!(PlayKind::PassedBall.shape(), Shape::PitcherCatcher);
    assert_eq!(PlayKind::StolenBase.shape(), Shape::BaseRunner);
    assert_eq!(PlayKind::GameAdvisory.shape(), Shape::Bare);
    assert_eq!(PlayKind::Ejection.shape(), Shape::Movements);
}

#[test]
fn labels_and_tags_of_kinds() {
    assert_eq!(PlayKind::Groundout.label(), "Groundout");
    assert_eq!(PlayKind::GroundedIntoDoublePlay.label(), "Grounded Into Double Play");
    assert_eq!(PlayKind::GroundedIntoDoublePlay.tag(), "GROUNDED_INTO_DOUBLE_PLAY");
    assert_eq!(PlayKind::PickoffCaughtStealing.label(), "Pickoff Caught Stealing");
    assert_eq!(PlayKind::HitByPitch.tag(), "HIT_BY_PITCH");
    assert_eq!(PlayKind::Error.tag(), "ERROR");
}
