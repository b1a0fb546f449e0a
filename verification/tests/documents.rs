use mlb_plays::{
    BaseValue, BoxscoreRecord, ClassificationError, Date, FeedRecord, Field, Game, GameContext,
    Inning, Movement, MovementRecord, Play, PlayRecord, Player, PlayerRecord, Position,
    Preprocess, RunnerRecord, Scalar, Team, TeamRecord, Weather, WeatherRecord,
};
use mlb_plays::feed::{date_game_pks, person_name, schedule_game_pks};
use serde_json::Value;

fn json(text: &str) -> Value {
    serde_json::from_str(text).unwrap()
}

const STRIKEOUT: &str = r#"{
    "result": {"event": "Strikeout"},
    "about": {"inning": 1, "isTopInning": true},
    "matchup": {"batter": {"fullName": "A"}, "pitcher": {"fullName": "B"}},
    "runners": []
}"#;

const PICKOFF: &str = r#"{
    "result": {"event": "Pickoff 2B"},
    "about": {"inning": 4, "isTopInning": false},
    "matchup": {"batter": {"fullName": "A"}, "pitcher": {"fullName": "B"}},
    "runners": [
        {
            "details": {"runner": {"fullName": "R"}},
            "movement": {"start": "2B", "end": null, "isOut": true},
            "credits": []
        }
    ]
}"#;

const GROUNDOUT: &str = r#"{
    "result": {"event": "Groundout"},
    "about": {"inning": 2, "isTopInning": true},
    "matchup": {
        "batter": {"fullName": "A"},
        "pitcher": {"fullName": "B"},
        "catcher": {"fullName": "C"}
    },
    "runners": [
        {
            "details": {"runner": {"fullName": "A"}, "fielder": {"fullName": "F"}, "pitcher": {"fullName": "P"}},
            "movement": {"start": null, "end": null, "isOut": true},
            "credits": [{"player": {"id": 500}}, {"player": {"id": 501}}]
        },
        {
            "details": {"runner": {"fullName": "R"}},
            "movement": {"start": "1B", "end": "2B"}
        },
        {
            "details": {"runner": {"fullName": "S"}},
            "movement": {"start": "3B", "end": "score", "isOut": false},
            "credits": [{"player": {"id": 502}}]
        }
    ]
}"#;

const BOXSCORE: &str = r#"{
    "teams": {
        "home": {
            "team": {"id": 111, "venue": {"name": "Fenway Park"}},
            "players": {
                "ID2": {"person": {"fullName": "H Two"}, "position": {"abbreviation": "P"}},
                "ID1": {"person": {"fullName": "H One"}, "position": {"abbreviation": "SS"}}
            }
        },
        "away": {
            "team": {"id": 147, "venue": {"name": "Yankee Stadium"}},
            "players": {
                "ID9": {"person": {"fullName": "A One"}, "position": {"abbreviation": "C"}}
            }
        }
    }
}"#;

fn feed(status: &str, plays: &[&str]) -> Value {
    json(&format!(
        r#"{{
            "gameData": {{
                "status": {{"detailedState": "{}"}},
                "datetime": {{"originalDate": "2023-04-05"}},
                "weather": {{"condition": "Sunny", "temp": "72", "wind": "10 mph, Out To CF"}}
            }},
            "liveData": {{"plays": {{"allPlays": [{}]}}}}
        }}"#,
        status,
        plays.join(",")
    ))
}

fn text(s: &str) -> Option<String> {
    Some(s.to_string())
}

#[test]
fn strikeout_record_from_a_document() {
    let play = Play::from_value(&json(STRIKEOUT), &vec![]);
    assert_eq!(
        play,
        Ok(Play::Strikeout {
            inning: Inning { number: 1, top: true },
            batter: "A".to_string(),
            pitcher: "B".to_string(),
            movements: vec![],
        })
    );
}

#[test]
fn pickoff_record_from_a_document() {
    let play = Play::from_value(&json(PICKOFF), &vec![]);
    assert_eq!(
        play,
        Ok(Play::Pickoff {
            inning: Inning { number: 4, top: false },
            base: 2,
            runner: "R".to_string(),
            fielders: vec![],
            movements: vec![Movement {
                runner: "R".to_string(),
                start_base: Some(2),
                end_base: None,
                is_out: true,
            }],
        })
    );
}

#[test]
fn unknown_event_from_a_document() {
    let value = json(r#"{"result": {"event": "Unknown Future Event"}, "about": {"inning": 1, "isTopInning": true}, "runners": []}"#);
    assert_eq!(Play::from_value(&value, &vec![]), Err(ClassificationError::UnknownEventType));
}

#[test]
fn play_record_reads_each_place() {
    let rec = PlayRecord::from_value(&json(GROUNDOUT));
    assert_eq!(
        rec,
        PlayRecord {
            event: text("Groundout"),
            inning: Some(2),
            is_top_inning: Some(true),
            batter: text("A"),
            pitcher: text("B"),
            catcher: text("C"),
            runners: Some(vec![
                RunnerRecord {
                    runner: text("A"),
                    fielder: text("F"),
                    pitcher: text("P"),
                    credit: Some(500),
                    movement: MovementRecord {
                        start: BaseValue::Null,
                        end: BaseValue::Null,
                        is_out: Some(true),
                    },
                },
                RunnerRecord {
                    runner: text("R"),
                    fielder: None,
                    pitcher: None,
                    credit: None,
                    movement: MovementRecord {
                        start: BaseValue::Code("1B".to_string()),
                        end: BaseValue::Code("2B".to_string()),
                        is_out: None,
                    },
                },
                RunnerRecord {
                    runner: text("S"),
                    fielder: None,
                    pitcher: None,
                    credit: Some(502),
                    movement: MovementRecord {
                        start: BaseValue::Code("3B".to_string()),
                        end: BaseValue::Code("score".to_string()),
                        is_out: Some(false),
                    },
                },
            ]),
        }
    );
    assert_eq!(Play::lookups(&rec), Ok(vec![500, 502]));
}

#[test]
fn play_record_of_an_empty_document() {
    let empty = PlayRecord {
        event: None,
        inning: None,
        is_top_inning: None,
        batter: None,
        pitcher: None,
        catcher: None,
        runners: None,
    };
    assert_eq!(PlayRecord::from_value(&json("{}")), empty);
    assert_eq!(PlayRecord::from_value(&json("null")), empty);
    assert_eq!(PlayRecord::from_value(&json("[1, 2]")), empty);
    assert_eq!(PlayRecord::from_value(&json(r#""text""#)), empty);
    assert_eq!(
        Play::from_value(&json("{}"), &vec![]),
        Err(ClassificationError::MissingRequiredField(Field::Event))
    );
}

#[test]
fn values_of_another_type_are_missing() {
    let value = json(
        r#"{
            "result": {"event": 7},
            "about": {"inning": "1", "isTopInning": "true"},
            "matchup": {"batter": {"fullName": null}, "pitcher": "B", "catcher": {"fullName": ["C"]}},
            "runners": {"0": {}}
        }"#,
    );
    assert_eq!(
        PlayRecord::from_value(&value),
        PlayRecord {
            event: None,
            inning: None,
            is_top_inning: None,
            batter: None,
            pitcher: None,
            catcher: None,
            runners: None,
        }
    );
}

#[test]
fn numbers_that_are_no_whole_numbers_from_zero_are_missing() {
    assert_eq!(
        Inning::from_value(&json(r#"{"inning": -1, "isTopInning": true}"#)),
        Err(ClassificationError::MissingRequiredField(Field::Inning))
    );
    assert_eq!(
        Inning::from_value(&json(r#"{"inning": 1.5, "isTopInning": true}"#)),
        Err(ClassificationError::MissingRequiredField(Field::Inning))
    );
    assert_eq!(
        Inning::from_value(&json(r#"{"inning": 7.0, "isTopInning": true}"#)),
        Err(ClassificationError::MissingRequiredField(Field::Inning))
    );
    assert_eq!(
        Inning::from_value(&json(r#"{"inning": 7e0, "isTopInning": true}"#)),
        Err(ClassificationError::MissingRequiredField(Field::Inning))
    );
}

#[test]
fn inning_above_255_from_a_document() {
    let bad = Err(ClassificationError::MalformedScalar(Scalar::InningNumber));
    assert_eq!(Inning::from_value(&json(r#"{"inning": 256, "isTopInning": true}"#)), bad);
    assert_eq!(Inning::from_value(&json(r#"{"inning": 300, "isTopInning": false}"#)), bad);
    assert_eq!(
        Inning::from_value(&json(r#"{"inning": 18446744073709551615, "isTopInning": false}"#)),
        bad
    );
    assert_eq!(
        Inning::from_value(&json(r#"{"inning": 255, "isTopInning": false}"#)),
        Ok(Inning { number: 255, top: false })
    );
    let play = json(
        r#"{"result": {"event": "Game Advisory"}, "about": {"inning": 300, "isTopInning": true}}"#,
    );
    assert_eq!(
        Play::from_value(&play, &vec![]),
        Err(ClassificationError::MalformedScalar(Scalar::InningNumber))
    );
}

#[test]
fn team_identifier_above_255_from_a_document() {
    let bad = Err(ClassificationError::MalformedScalar(Scalar::TeamId));
    assert_eq!(
        Team::from_boxscore_team_data_and_date(&json(r#"{"team": {"id": 300}, "players": {}}"#)),
        bad
    );
    assert_eq!(
        Team::from_boxscore_team_data_and_date(&json(r#"{"team": {"id": 256}, "players": {}}"#)),
        bad
    );
    assert_eq!(
        Team::from_boxscore_team_data_and_date(&json(r#"{"team": {"id": 255}, "players": {}}"#)),
        Ok(Team { id: 255, players: vec![] })
    );
    assert_eq!(
        Team::from_boxscore_team_data_and_date(&json(r#"{"team": {"id": 44}, "players": {}}"#)),
        Ok(Team { id: 44, players: vec![] })
    );
    let boxscore = json(
        r#"{"teams": {
            "home": {"team": {"id": 111, "venue": {"name": "V"}}, "players": {}},
            "away": {"team": {"id": 300}, "players": {}}
        }}"#,
    );
    assert_eq!(
        Game::from_game_pk(1, &feed("Final", &[]), &boxscore, &vec![]),
        Err(ClassificationError::MalformedScalar(Scalar::TeamId))
    );
}

#[test]
fn inning_from_a_document() {
    assert_eq!(
        Inning::from_value(&json(r#"{"inning": 9, "isTopInning": false}"#)),
        Ok(Inning { number: 9, top: false })
    );
    assert_eq!(
        Inning::from_value(&json(r#"{"inning": 9}"#)),
        Err(ClassificationError::MissingRequiredField(Field::Inning))
    );
    assert_eq!(
        Inning::from_value(&json(r#"{"isTopInning": true}"#)),
        Err(ClassificationError::MissingRequiredField(Field::Inning))
    );
}

#[test]
fn movement_record_tells_null_text_and_other_apart() {
    assert_eq!(
        MovementRecord::from_value(&json(r#"{"start": null, "end": "3B", "isOut": false}"#)),
        MovementRecord {
            start: BaseValue::Null,
            end: BaseValue::Code("3B".to_string()),
            is_out: Some(false),
        }
    );
    assert_eq!(
        MovementRecord::from_value(&json(r#"{"start": 2, "end": {"base": "3B"}}"#)),
        MovementRecord { start: BaseValue::Other, end: BaseValue::Other, is_out: None }
    );
    assert_eq!(
        MovementRecord::from_value(&json(r#"{"isOut": "yes"}"#)),
        MovementRecord { start: BaseValue::Null, end: BaseValue::Null, is_out: None }
    );
}

#[test]
fn movement_from_a_document() {
    assert_eq!(
        Movement::from_runner_and_value(
            "R".to_string(),
            &json(r#"{"start": "1B", "end": "score", "isOut": false}"#)
        ),
        Ok(Movement { runner: "R".to_string(), start_base: Some(1), end_base: Some(4), is_out: false })
    );
    assert_eq!(
        Movement::from_runner_and_value("R".to_string(), &json(r#"{"start": "4B"}"#)),
        Ok(Movement { runner: "R".to_string(), start_base: Some(4), end_base: None, is_out: false })
    );
    assert_eq!(
        Movement::from_runner_and_value("R".to_string(), &json(r#"{"start": "home"}"#)),
        Err(ClassificationError::MalformedScalar(Scalar::BaseCode))
    );
    assert_eq!(
        Movement::from_runner_and_value("R".to_string(), &json(r#"{"end": 3}"#)),
        Err(ClassificationError::MalformedScalar(Scalar::BaseCode))
    );
}

#[test]
fn credit_is_the_first_of_the_list() {
    let rec = RunnerRecord::from_value(&json(
        r#"{"credits": [{"player": {"id": 7}}, {"player": {"id": 8}}]}"#,
    ));
    assert_eq!(rec.credit, Some(7));
    let rec = RunnerRecord::from_value(&json(r#"{"credits": []}"#));
    assert_eq!(rec.credit, None);
    let rec = RunnerRecord::from_value(&json(r#"{"credits": {"0": {"player": {"id": 7}}}}"#));
    assert_eq!(rec.credit, None);
    let rec = RunnerRecord::from_value(&json(r#"{"credits": [{"player": {"id": "7"}}]}"#));
    assert_eq!(rec.credit, None);
}

#[test]
fn weather_from_a_document() {
    let value = json(r#"{"condition": "Sunny", "temp": "72", "wind": "10 mph, Out To CF"}"#);
    assert_eq!(
        WeatherRecord::from_value(&value),
        WeatherRecord { condition: text("Sunny"), temp: text("72"), wind: text("10 mph, Out To CF") }
    );
    assert_eq!(
        Weather::from_value(&value),
        Ok(Weather { condition: "Sunny".to_string(), temperature: 72, wind_speed: 10 })
    );
    assert_eq!(
        Weather::from_value(&json(r#"{"condition": "Sunny", "temp": "72"}"#)),
        Err(ClassificationError::MissingRequiredField(Field::Wind))
    );
    assert_eq!(
        Weather::from_value(&json(r#"{"condition": "Sunny", "temp": 72, "wind": "1 mph"}"#)),
        Err(ClassificationError::MissingRequiredField(Field::Temperature))
    );
}

#[test]
fn team_from_a_document_walks_players_in_the_order_of_the_object() {
    let value = json(BOXSCORE);
    let home = &value["teams"]["home"];
    let keys: Vec<String> = home["players"].as_object().unwrap().keys().cloned().collect();
    let rec = TeamRecord::from_value(home);
    assert_eq!(rec.id, Some(111));
    assert_eq!(rec.venue, text("Fenway Park"));
    let players = rec.players.clone().unwrap();
    assert_eq!(players.len(), 2);
    for (key, player) in keys.iter().zip(players.iter()) {
        let expected = if key == "ID1" {
            PlayerRecord { name: text("H One"), abbreviation: text("SS") }
        } else {
            PlayerRecord { name: text("H Two"), abbreviation: text("P") }
        };
        assert_eq!(player, &expected);
    }
    let team = Team::from_boxscore_team_data_and_date(home).unwrap();
    assert_eq!(team.id, 111);
    assert_eq!(team.players.len(), 2);
    assert!(team
        .players
        .contains(&Player { name: "H One".to_string(), position: Position::Shortstop }));
    assert!(team
        .players
        .contains(&Player { name: "H Two".to_string(), position: Position::Pitcher }));
}

#[test]
fn team_without_a_position_abbreviation() {
    let value = json(
        r#"{"team": {"id": 1}, "players": {"ID1": {"person": {"fullName": "X"}, "position": {}}}}"#,
    );
    assert_eq!(
        Team::from_boxscore_team_data_and_date(&value),
        Err(ClassificationError::MissingRequiredField(Field::PositionAbbreviation))
    );
    let value = json(r#"{"team": {"id": 1}, "players": [{"person": {"fullName": "X"}}]}"#);
    assert_eq!(
        Team::from_boxscore_team_data_and_date(&value),
        Err(ClassificationError::MissingRequiredField(Field::Players))
    );
}

#[test]
fn context_from_a_document() {
    let date = Date { year: 2023, month: 4, day: 5 };
    let weather = Weather { condition: "Sunny".to_string(), temperature: 72, wind_speed: 10 };
    let context = GameContext::from_game_boxscore_data_and_date_and_weather_and_game_pk(
        &json(BOXSCORE),
        date,
        weather.clone(),
        718780,
    )
    .unwrap();
    assert_eq!(context.game_pk, 718780);
    assert_eq!(context.date, date);
    assert_eq!(context.venue_name, "Fenway Park");
    assert_eq!(context.weather, weather);
    assert_eq!(context.home_team.id, 111);
    assert_eq!(context.away_team.id, 147);
    assert_eq!(
        context.away_team.players,
        vec![Player { name: "A One".to_string(), position: Position::Catcher }]
    );
}

#[test]
fn context_errors() {
    let date = Date { year: 2023, month: 4, day: 5 };
    let weather = Weather { condition: "Sunny".to_string(), temperature: 72, wind_speed: 10 };
    let build = |text: &str| {
        GameContext::from_game_boxscore_data_and_date_and_weather_and_game_pk(
            &json(text),
            date,
            weather.clone(),
            1,
        )
    };
    assert_eq!(build("{}"), Err(ClassificationError::MissingRequiredField(Field::TeamId)));
    assert_eq!(
        build(r#"{"teams": {"home": {"team": {"id": 1}, "players": {}}}}"#),
        Err(ClassificationError::MissingRequiredField(Field::Venue))
    );
    assert_eq!(
        build(r#"{"teams": {"home": {"team": {"id": 1, "venue": {"name": "V"}}, "players": {}}}}"#),
        Err(ClassificationError::MissingRequiredField(Field::TeamId))
    );
    assert_eq!(
        build(
            r#"{"teams": {"home": {"team": {"id": 1, "venue": {"name": "V"}}, "players": {}},
                          "away": {"team": {"id": 2}}}}"#
        ),
        Err(ClassificationError::MissingRequiredField(Field::Players))
    );
}

#[test]
fn feed_record_from_a_document() {
    let rec = FeedRecord::from_value(&feed("Final", &[STRIKEOUT, PICKOFF]));
    assert_eq!(rec.status, text("Final"));
    assert_eq!(rec.date, text("2023-04-05"));
    assert_eq!(
        rec.weather,
        WeatherRecord { condition: text("Sunny"), temp: text("72"), wind: text("10 mph, Out To CF") }
    );
    let plays = rec.plays.unwrap();
    assert_eq!(plays.len(), 2);
    assert_eq!(plays[0], PlayRecord::from_value(&json(STRIKEOUT)));
    assert_eq!(plays[1], PlayRecord::from_value(&json(PICKOFF)));
    let rec = BoxscoreRecord::from_value(&json(BOXSCORE));
    assert_eq!(rec.home.id, Some(111));
    assert_eq!(rec.away.id, Some(147));
    assert_eq!(rec.away.venue, text("Yankee Stadium"));
}

#[test]
fn game_from_documents() {
    let feed = feed("Final", &[STRIKEOUT, GROUNDOUT, PICKOFF]);
    let record = FeedRecord::from_value(&feed);
    let wanted = Game::lookups(record.plays.as_ref().unwrap());
    assert_eq!(wanted, vec![vec![], vec![500, 502], vec![]]);
    let names = vec![vec![], vec![text("F500"), text("F502")], vec![]];
    let game = Game::from_game_pk(718780, &feed, &json(BOXSCORE), &names).unwrap();
    assert_eq!(game.context.game_pk, 718780);
    assert_eq!(game.context.date, Date { year: 2023, month: 4, day: 5 });
    assert_eq!(game.context.venue_name, "Fenway Park");
    assert_eq!(game.plays.len(), 3);
    assert_eq!(game.plays[0], Play::from_value(&json(STRIKEOUT), &vec![]).unwrap());
    assert_eq!(
        game.plays[1],
        Play::Groundout {
            inning: Inning { number: 2, top: true },
            batter: "A".to_string(),
            pitcher: "B".to_string(),
            fielders: vec!["F500".to_string(), "F502".to_string()],
            movements: vec![
                Movement { runner: "A".to_string(), start_base: None, end_base: None, is_out: true },
                Movement { runner: "R".to_string(), start_base: Some(1), end_base: Some(2), is_out: false },
                Movement { runner: "S".to_string(), start_base: Some(3), end_base: Some(4), is_out: false },
            ],
        }
    );
    assert_eq!(game.file(718780), "data/2023/111/718780.json");
    assert!(game.preprocess().starts_with("[GAME] 718780 [DATE] 2023-04-05 [VENUE] Fenway Park "));
}

#[test]
fn game_that_is_not_final() {
    let names = vec![];
    assert_eq!(
        Game::from_game_pk(1, &feed("In Progress", &[STRIKEOUT]), &json(BOXSCORE), &names),
        Err(ClassificationError::NotFinal)
    );
    assert_eq!(
        Game::from_game_pk(1, &json("{}"), &json(BOXSCORE), &names),
        Err(ClassificationError::NotFinal)
    );
}

#[test]
fn one_bad_play_discards_the_game() {
    let unknown = r#"{"result": {"event": "Unknown Future Event"}, "about": {"inning": 1, "isTopInning": true}, "runners": []}"#;
    let names = vec![];
    assert_eq!(
        Game::from_game_pk(1, &feed("Final", &[STRIKEOUT, unknown, PICKOFF]), &json(BOXSCORE), &names),
        Err(ClassificationError::UnknownEventType)
    );
    assert_eq!(
        Game::from_game_pk(1, &feed("Final", &[STRIKEOUT, GROUNDOUT]), &json(BOXSCORE), &names),
        Err(ClassificationError::UnresolvedFielder(500))
    );
    assert_eq!(
        Game::from_game_pk(
            1,
            &feed("Final", &[STRIKEOUT, GROUNDOUT]),
            &json(BOXSCORE),
            &vec![vec![], vec![text("X"), None]]
        ),
        Err(ClassificationError::UnresolvedFielder(502))
    );
}

#[test]
fn game_errors_in_order() {
    let names = vec![];
    let no_date = json(r#"{"gameData": {"status": {"detailedState": "Final"}}}"#);
    assert_eq!(
        Game::from_game_pk(1, &no_date, &json(BOXSCORE), &names),
        Err(ClassificationError::MissingRequiredField(Field::Date))
    );
    let bad_date = json(
        r#"{"gameData": {"status": {"detailedState": "Final"}, "datetime": {"originalDate": "April 5"}}}"#,
    );
    assert_eq!(
        Game::from_game_pk(1, &bad_date, &json(BOXSCORE), &names),
        Err(ClassificationError::MalformedScalar(Scalar::Date))
    );
    let no_plays = json(
        r#"{"gameData": {"status": {"detailedState": "Final"}, "datetime": {"originalDate": "2023-04-05"}}}"#,
    );
    assert_eq!(
        Game::from_game_pk(1, &no_plays, &json(BOXSCORE), &names),
        Err(ClassificationError::MissingRequiredField(Field::Plays))
    );
    let no_weather = json(
        r#"{"gameData": {"status": {"detailedState": "Final"}, "datetime": {"originalDate": "2023-04-05"}},
            "liveData": {"plays": {"allPlays": []}}}"#,
    );
    assert_eq!(
        Game::from_game_pk(1, &no_weather, &json(BOXSCORE), &names),
        Err(ClassificationError::MissingRequiredField(Field::Condition))
    );
    assert_eq!(
        Game::from_game_pk(1, &feed("Final", &[]), &json("{}"), &names),
        Err(ClassificationError::MissingRequiredField(Field::TeamId))
    );
    let game = Game::from_game_pk(1, &feed("Final", &[]), &json(BOXSCORE), &names).unwrap();
    assert!(game.plays.is_empty());
}

#[test]
fn person_name_from_a_document() {
    assert_eq!(
        person_name(&json(r#"{"people": [{"fullName": "Mookie Betts"}, {"fullName": "Other"}]}"#)),
        text("Mookie Betts")
    );
    assert_eq!(person_name(&json(r#"{"people": []}"#)), None);
    assert_eq!(person_name(&json(r#"{"people": [{"fullName": 7}]}"#)), None);
    assert_eq!(person_name(&json(r#"{"people": {"0": {"fullName": "X"}}}"#)), None);
    assert_eq!(person_name(&json("{}")), None);
}

#[test]
fn schedule_from_a_document() {
    let schedule = json(
        r#"{"dates": [
            {"games": [{"gamePk": 3}, {"gamePk": 1}]},
            {"games": []},
            {"games": [{"gamePk": 2}]}
        ]}"#,
    );
    assert_eq!(schedule_game_pks(&schedule), Ok(vec![vec![3, 1], vec![], vec![2]]));
    assert_eq!(schedule_game_pks(&json(r#"{"dates": []}"#)), Ok(vec![]));
    assert_eq!(
        schedule_game_pks(&json("{}")),
        Err(ClassificationError::MissingRequiredField(Field::Dates))
    );
    assert_eq!(
        schedule_game_pks(&json(r#"{"dates": [{"games": [{"gamePk": 3}]}, {}]}"#)),
        Err(ClassificationError::MissingRequiredField(Field::Games))
    );
    assert_eq!(
        schedule_game_pks(&json(r#"{"dates": [{"games": [{"gamePk": 3}, {"gamePk": "4"}]}]}"#)),
        Err(ClassificationError::MissingRequiredField(Field::GamePk))
    );
    assert_eq!(date_game_pks(&json(r#"{"games": [{"gamePk": 9}]}"#)), Ok(vec![9]));
}
