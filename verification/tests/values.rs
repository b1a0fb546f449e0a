use mlb_plays::{
    base_value_to_option_u8, BaseValue, ClassificationError, Date, Field, Inning, Movement,
    MovementRecord, Player, PlayerRecord, Position, Scalar, Team, TeamRecord, Weather,
    WeatherRecord,
};

fn text(s: &str) -> Option<String> {
    Some(s.to_string())
}

fn bad_date() -> Result<Date, ClassificationError> {
    Err(ClassificationError::MalformedScalar(Scalar::Date))
}

#[test]
fn date_parses_iso_form() {
    assert_eq!(Date::parse("2023-04-05"), Ok(Date { year: 2023, month: 4, day: 5 }));
    assert_eq!(Date::parse("1999-12-31"), Ok(Date { year: 1999, month: 12, day: 31 }));
    assert_eq!(Date::parse("7-1-2"), Ok(Date { year: 7, month: 1, day: 2 }));
    assert_eq!(Date::parse("65535-255-255"), Ok(Date { year: 65535, month: 255, day: 255 }));
    assert_eq!(Date::parse("002023-004-005"), Ok(Date { year: 2023, month: 4, day: 5 }));
}

#[test]
fn date_rejects_other_forms() {
    assert_eq!(Date::parse(""), bad_date());
    assert_eq!(Date::parse("2023"), bad_date());
    assert_eq!(Date::parse("2023-04"), bad_date());
    assert_eq!(Date::parse("2023-04-"), bad_date());
    assert_eq!(Date::parse("2023--05"), bad_date());
    assert_eq!(Date::parse("-04-05"), bad_date());
    assert_eq!(Date::parse("2023-04-05-06"), bad_date());
    assert_eq!(Date::parse("2023-04-05 "), bad_date());
    assert_eq!(Date::parse("2023/04/05"), bad_date());
    assert_eq!(Date::parse("20x3-04-05"), bad_date());
    assert_eq!(Date::parse("65536-01-01"), bad_date());
    assert_eq!(Date::parse("2023-256-01"), bad_date());
    assert_eq!(Date::parse("2023-01-256"), bad_date());
    assert_eq!(Date::parse("2023-01-99999999999999999999999"), bad_date());
    assert_eq!(Date::parse("２０２３-04-05"), bad_date());
}

#[test]
fn date_is_written_padded() {
    assert_eq!(Date { year: 2023, month: 4, day: 5 }.to_string(), "2023-04-05");
    assert_eq!(Date { year: 7, month: 12, day: 31 }.to_string(), "0007-12-31");
    assert_eq!(Date { year: 65535, month: 255, day: 0 }.to_string(), "65535-255-00");
    assert_eq!(Date { year: 0, month: 0, day: 0 }.to_string(), "0000-00-00");
}

#[test]
fn date_round_trip() {
    let d = Date::parse("2023-04-05").unwrap();
    assert_eq!(Date::parse(&d.to_string()), Ok(d));
    for year in [0u16, 1, 9, 10, 999, 1000, 2023, 9999, 10000, 65535] {
        for month in [0u8, 1, 9, 10, 12, 99, 100, 255] {
            for day in [0u8, 1, 9, 10, 31, 99, 100, 255] {
                let d = Date { year, month, day };
                assert_eq!(Date::parse(&d.to_string()), Ok(d));
            }
        }
    }
}

#[test]
fn position_of_every_abbreviation() {
    let table = [
        ("P", Position::Pitcher),
        ("LHP", Position::Pitcher),
        ("RHP", Position::Pitcher),
        ("C", Position::Catcher),
        ("1B", Position::FirstBase),
        ("2B", Position::SecondBase),
        ("3B", Position::ThirdBase),
        ("SS", Position::Shortstop),
        ("LF", Position::LeftField),
        ("CF", Position::CenterField),
        ("RF", Position::RightField),
        ("DH", Position::DesignatedHitter),
        ("EH", Position::DesignatedHitter),
        ("PH", Position::PinchHitter),
        ("PR", Position::PinchRunner),
        ("TWP", Position::TwoWayPlayer),
        ("OF", Position::Outfield),
        ("IF", Position::Infield),
        ("UT", Position::Utility),
        ("UTIL", Position::Utility),
        ("RP", Position::ReliefPitcher),
        ("SP", Position::StartingPitcher),
    ];
    for (abbr, position) in table {
        assert_eq!(Position::from_abbr(abbr), Ok(position));
    }
}

#[test]
fn position_of_unknown_abbreviation_is_an_error() {
    let bad = Err(ClassificationError::MalformedScalar(Scalar::PositionCode));
    assert_eq!(Position::from_abbr(""), bad);
    assert_eq!(Position::from_abbr("p"), bad);
    assert_eq!(Position::from_abbr("SS "), bad);
    assert_eq!(Position::from_abbr("Shortstop"), bad);
    assert_eq!(Position::from_abbr("4B"), bad);
}

#[test]
fn position_names() {
    let table = [
        (Position::Pitcher, "PITCHER"),
        (Position::Catcher, "CATCHER"),
        (Position::FirstBase, "FIRST_BASE"),
        (Position::SecondBase, "SECOND_BASE"),
        (Position::ThirdBase, "THIRD_BASE"),
        (Position::Shortstop, "SHORTSTOP"),
        (Position::LeftField, "LEFT_FIELD"),
        (Position::CenterField, "CENTER_FIELD"),
        (Position::RightField, "RIGHT_FIELD"),
        (Position::DesignatedHitter, "DESIGNATED_HITTER"),
        (Position::PinchHitter, "PINCH_HITTER"),
        (Position::PinchRunner, "PINCH_RUNNER"),
        (Position::TwoWayPlayer, "TWO_WAY_PLAYER"),
        (Position::Outfield, "OUTFIELD"),
        (Position::Infield, "INFIELD"),
        (Position::Utility, "UTILITY"),
        (Position::ReliefPitcher, "RELIEF_PITCHER"),
        (Position::StartingPitcher, "STARTING_PITCHER"),
    ];
    for (position, name) in table {
        assert_eq!(position.to_string(), name);
        assert_eq!(position.name(), name);
    }
}

#[test]
fn inning_is_written_with_its_half() {
    assert_eq!(Inning { number: 1, top: true }.to_string(), "1 top");
    assert_eq!(Inning { number: 12, top: false }.to_string(), "12 bottom");
    assert_eq!(Inning { number: 0, top: false }.to_string(), "0 bottom");
    assert_eq!(Inning { number: 255, top: true }.to_string(), "255 top");
}

#[test]
fn base_lexicon_is_total() {
    assert_eq!(base_value_to_option_u8(&BaseValue::Null), Ok(None));
    assert_eq!(base_value_to_option_u8(&BaseValue::Code("1B".to_string())), Ok(Some(1)));
    assert_eq!(base_value_to_option_u8(&BaseValue::Code("2B".to_string())), Ok(Some(2)));
    assert_eq!(base_value_to_option_u8(&BaseValue::Code("3B".to_string())), Ok(Some(3)));
    assert_eq!(base_value_to_option_u8(&BaseValue::Code("4B".to_string())), Ok(Some(4)));
    assert_eq!(base_value_to_option_u8(&BaseValue::Code("score".to_string())), Ok(Some(4)));
}

#[test]
fn base_outside_the_lexicon_is_an_error() {
    let bad = Err(ClassificationError::MalformedScalar(Scalar::BaseCode));
    assert_eq!(base_value_to_option_u8(&BaseValue::Code("5B".to_string())), bad);
    assert_eq!(base_value_to_option_u8(&BaseValue::Code("".to_string())), bad);
    assert_eq!(base_value_to_option_u8(&BaseValue::Code("1b".to_string())), bad);
    assert_eq!(base_value_to_option_u8(&BaseValue::Code("Score".to_string())), bad);
    assert_eq!(base_value_to_option_u8(&BaseValue::Code("home".to_string())), bad);
    assert_eq!(base_value_to_option_u8(&BaseValue::Other), bad);
}

#[test]
fn movement_from_record() {
    let rec = MovementRecord {
        start: BaseValue::Code("2B".to_string()),
        end: BaseValue::Null,
        is_out: Some(true),
    };
    assert_eq!(
        Movement::from_record("R".to_string(), &rec),
        Ok(Movement { runner: "R".to_string(), start_base: Some(2), end_base: None, is_out: true })
    );
}

#[test]
fn movement_without_out_flag_is_not_out() {
    let rec = MovementRecord {
        start: BaseValue::Null,
        end: BaseValue::Code("score".to_string()),
        is_out: None,
    };
    assert_eq!(
        Movement::from_record("José Ramírez".to_string(), &rec),
        Ok(Movement {
            runner: "José Ramírez".to_string(),
            start_base: None,
            end_base: Some(4),
            is_out: false
        })
    );
}

#[test]
fn movement_with_bad_base_is_an_error() {
    let bad = Err(ClassificationError::MalformedScalar(Scalar::BaseCode));
    let start = MovementRecord {
        start: BaseValue::Code("9B".to_string()),
        end: BaseValue::Null,
        is_out: None,
    };
    assert_eq!(Movement::from_record("R".to_string(), &start), bad);
    let end = MovementRecord { start: BaseValue::Null, end: BaseValue::Other, is_out: None };
    assert_eq!(Movement::from_record("R".to_string(), &end), bad);
}

fn weather(condition: Option<&str>, temp: Option<&str>, wind: Option<&str>) -> WeatherRecord {
    WeatherRecord {
        condition: condition.map(str::to_string),
        temp: temp.map(str::to_string),
        wind: wind.map(str::to_string),
    }
}

#[test]
fn weather_from_record() {
    assert_eq!(
        Weather::from_record(&weather(Some("Partly Cloudy"), Some("72"), Some("10 mph, Out To CF"))),
        Ok(Weather { condition: "Partly Cloudy".to_string(), temperature: 72, wind_speed: 10 })
    );
    assert_eq!(
        Weather::from_record(&weather(Some(""), Some("0"), Some("0"))),
        Ok(Weather { condition: "".to_string(), temperature: 0, wind_speed: 0 })
    );
    assert_eq!(
        Weather::from_record(&weather(Some("Dome"), Some("255"), Some("255 mph"))),
        Ok(Weather { condition: "Dome".to_string(), temperature: 255, wind_speed: 255 })
    );
    assert_eq!(
        Weather::from_record(&weather(Some("Dome"), Some("068"), Some("7 mph, Varies ü"))),
        Ok(Weather { condition: "Dome".to_string(), temperature: 68, wind_speed: 7 })
    );
}

#[test]
fn weather_errors_in_order() {
    let missing = |f| Err(ClassificationError::MissingRequiredField(f));
    let malformed = |s| Err(ClassificationError::MalformedScalar(s));
    assert_eq!(Weather::from_record(&weather(None, None, None)), missing(Field::Condition));
    assert_eq!(Weather::from_record(&weather(Some("Sunny"), None, None)), missing(Field::Temperature));
    assert_eq!(
        Weather::from_record(&weather(Some("Sunny"), Some("hot"), None)),
        malformed(Scalar::Temperature)
    );
    assert_eq!(
        Weather::from_record(&weather(Some("Sunny"), Some("72 F"), Some("10 mph"))),
        malformed(Scalar::Temperature)
    );
    assert_eq!(
        Weather::from_record(&weather(Some("Sunny"), Some("256"), Some("10 mph"))),
        malformed(Scalar::Temperature)
    );
    assert_eq!(Weather::from_record(&weather(Some("Sunny"), Some("72"), None)), missing(Field::Wind));
    assert_eq!(
        Weather::from_record(&weather(Some("Sunny"), Some("72"), Some("calm"))),
        malformed(Scalar::WindSpeed)
    );
    assert_eq!(
        Weather::from_record(&weather(Some("Sunny"), Some("72"), Some("10mph"))),
        malformed(Scalar::WindSpeed)
    );
    assert_eq!(
        Weather::from_record(&weather(Some("Sunny"), Some("72"), Some(" 10 mph"))),
        malformed(Scalar::WindSpeed)
    );
    assert_eq!(
        Weather::from_record(&weather(Some("Sunny"), Some("72"), Some("300 mph"))),
        malformed(Scalar::WindSpeed)
    );
    assert_eq!(
        Weather::from_record(&weather(Some("Sunny"), Some("72"), Some(""))),
        malformed(Scalar::WindSpeed)
    );
}

fn player(name: Option<&str>, abbr: Option<&str>) -> PlayerRecord {
    PlayerRecord { name: name.map(str::to_string), abbreviation: abbr.map(str::to_string) }
}

#[test]
fn player_new_keeps_its_arguments() {
    assert_eq!(
        Player::new("A".to_string(), Position::Catcher),
        Player { name: "A".to_string(), position: Position::Catcher }
    );
}

#[test]
fn team_from_record() {
    let rec = TeamRecord {
        id: Some(147),
        venue: text("Yankee Stadium"),
        players: Some(vec![player(Some("A"), Some("SS")), player(Some("B"), Some("LHP"))]),
    };
    assert_eq!(
        Team::from_record(&rec),
        Ok(Team {
            id: 147,
            players: vec![
                Player { name: "A".to_string(), position: Position::Shortstop },
                Player { name: "B".to_string(), position: Position::Pitcher },
            ],
        })
    );
}

#[test]
fn team_identifier_is_kept_as_it_is() {
    for id in [0u64, 1, 44, 108, 158, 255] {
        let rec = TeamRecord { id: Some(id), venue: None, players: Some(vec![]) };
        assert_eq!(Team::from_record(&rec), Ok(Team { id: id as u8, players: vec![] }));
    }
}

#[test]
fn team_identifier_above_255_is_an_error() {
    let bad = Err(ClassificationError::MalformedScalar(Scalar::TeamId));
    for id in [256u64, 300, 511, 65536 + 44, u64::MAX] {
        let rec = TeamRecord { id: Some(id), venue: None, players: Some(vec![]) };
        assert_eq!(Team::from_record(&rec), bad);
        let no_players = TeamRecord { id: Some(id), venue: None, players: None };
        assert_eq!(Team::from_record(&no_players), bad);
    }
}

#[test]
fn inning_from_its_parts() {
    assert_eq!(Inning::from_parts(Some(7), Some(false)), Ok(Inning { number: 7, top: false }));
    assert_eq!(Inning::from_parts(Some(0), Some(true)), Ok(Inning { number: 0, top: true }));
    assert_eq!(Inning::from_parts(Some(255), Some(true)), Ok(Inning { number: 255, top: true }));
    let bad = Err(ClassificationError::MalformedScalar(Scalar::InningNumber));
    assert_eq!(Inning::from_parts(Some(256), Some(true)), bad);
    assert_eq!(Inning::from_parts(Some(300), Some(false)), bad);
    assert_eq!(Inning::from_parts(Some(u64::MAX), Some(true)), bad);
    let missing = Err(ClassificationError::MissingRequiredField(Field::Inning));
    assert_eq!(Inning::from_parts(None, Some(true)), missing);
    assert_eq!(Inning::from_parts(Some(1), None), missing);
    assert_eq!(Inning::from_parts(Some(300), None), missing);
    assert_eq!(Inning::from_parts(None, None), missing);
}

#[test]
fn team_errors() {
    let missing = |f| Err(ClassificationError::MissingRequiredField(f));
    let none = TeamRecord { id: None, venue: None, players: None };
    assert_eq!(Team::from_record(&none), missing(Field::TeamId));
    let no_players = TeamRecord { id: Some(1), venue: None, players: None };
    assert_eq!(Team::from_record(&no_players), missing(Field::Players));
    let no_name = TeamRecord {
        id: Some(1),
        venue: None,
        players: Some(vec![player(Some("A"), Some("C")), player(None, None)]),
    };
    assert_eq!(Team::from_record(&no_name), missing(Field::PlayerName));
    let no_abbr = TeamRecord {
        id: Some(1),
        venue: None,
        players: Some(vec![player(Some("A"), None), player(None, None)]),
    };
    assert_eq!(Team::from_record(&no_abbr), missing(Field::PositionAbbreviation));
    let bad_abbr = TeamRecord {
        id: Some(1),
        venue: None,
        players: Some(vec![player(Some("A"), Some("QB"))]),
    };
    assert_eq!(
        Team::from_record(&bad_abbr),
        Err(ClassificationError::MalformedScalar(Scalar::PositionCode))
    );
}

#[test]
fn error_messages() {
    assert_eq!(ClassificationError::MissingRequiredField(Field::Batter).message(), "No batter");
    assert_eq!(ClassificationError::MissingRequiredField(Field::Pitcher).message(), "No pitcher");
    assert_eq!(ClassificationError::MissingRequiredField(Field::Catcher).message(), "No catcher");
    assert_eq!(ClassificationError::MissingRequiredField(Field::Fielder).message(), "No fielder");
    assert_eq!(
        ClassificationError::MissingRequiredField(Field::ScoringRunner).message(),
        "No scoring runner"
    );
    assert_eq!(ClassificationError::MissingRequiredField(Field::Wind).message(), "No wind speed");
    assert_eq!(
        ClassificationError::MissingRequiredField(Field::PositionAbbreviation).message(),
        "No position abbreviation"
    );
    assert_eq!(ClassificationError::UnresolvedFielder(7).message(), "Failed to get player data");
    assert_eq!(ClassificationError::UnknownEventType.message(), "Unknown play type");
    assert_eq!(
        ClassificationError::MalformedScalar(Scalar::BaseCode).message(),
        "Unknown base value"
    );
    assert_eq!(
        ClassificationError::MalformedScalar(Scalar::PositionCode).message(),
        "Unknown position abbreviation"
    );
    assert_eq!(
        ClassificationError::MalformedScalar(Scalar::InningNumber).message(),
        "Unknown inning number"
    );
    assert_eq!(ClassificationError::MalformedScalar(Scalar::TeamId).message(), "Unknown team id");
    assert_eq!(ClassificationError::NotFinal.message(), "Game is not final");
}

#[test]
fn schema_drift_is_told_apart_from_missing_data() {
    assert!(ClassificationError::UnknownEventType.schema_drift());
    assert!(ClassificationError::MalformedScalar(Scalar::BaseCode).schema_drift());
    assert!(ClassificationError::MalformedScalar(Scalar::InningNumber).schema_drift());
    assert!(ClassificationError::MalformedScalar(Scalar::TeamId).schema_drift());
    assert!(!ClassificationError::MissingRequiredField(Field::Batter).schema_drift());
    assert!(!ClassificationError::UnresolvedFielder(1).schema_drift());
    assert!(!ClassificationError::NotFinal.schema_drift());
}
