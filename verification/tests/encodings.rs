use mlb_plays::{
    Date, Game, GameContext, Inning, Movement, Play, PlayKind, Player, Position, Preprocess, Team,
    Tokenize, Weather,
};

fn movement(runner: &str, start: Option<u8>, end: Option<u8>, is_out: bool) -> Movement {
    Movement { runner: runner.to_string(), start_base: start, end_base: end, is_out }
}

fn team(id: u8, players: &[(&str, Position)]) -> Team {
    Team {
        id,
        players: players
            .iter()
            .map(|(name, position)| Player { name: name.to_string(), position: *position })
            .collect(),
    }
}

fn context() -> GameContext {
    GameContext {
        game_pk: 718780,
        date: Date { year: 2023, month: 4, day: 5 },
        venue_name: "Fenway Park".to_string(),
        weather: Weather { condition: "Partly Cloudy".to_string(), temperature: 72, wind_speed: 10 },
        home_team: team(111, &[("H One", Position::Shortstop), ("H Two", Position::Pitcher)]),
        away_team: team(147, &[("A One", Position::Catcher)]),
    }
}

fn groundout() -> Play {
    Play::Groundout {
        inning: Inning { number: 3, top: false },
        batter: "A".to_string(),
        pitcher: "B".to_string(),
        fielders: vec!["F1".to_string(), "F2".to_string()],
        movements: vec![movement("A", None, Some(1), true), movement("R", Some(1), Some(2), false)],
    }
}

fn strikeout() -> Play {
    Play::Strikeout {
        inning: Inning { number: 1, top: true },
        batter: "A".to_string(),
        pitcher: "B".to_string(),
        movements: vec![],
    }
}

/// The number of spaces in front of each line.
fn indents(text: &str) -> Vec<usize> {
    text.split('\n').map(|l| l.len() - l.trim_start_matches(' ').len()).collect()
}

#[test]
fn flat_movement() {
    assert_eq!(movement("R", Some(2), None, true).preprocess(), "R 2 -> home [out]");
    assert_eq!(movement("R", None, Some(4), false).preprocess(), "R home -> 4");
    assert_eq!(movement("", None, None, false).preprocess(), " home -> home");
    assert_eq!(movement("José Ramírez", Some(1), Some(3), false).preprocess(), "José Ramírez 1 -> 3");
}

#[test]
fn flat_scalars() {
    assert_eq!(Date { year: 2023, month: 4, day: 5 }.preprocess(), "2023-04-05");
    assert_eq!(Inning { number: 7, top: false }.preprocess(), "7 bottom");
}

#[test]
fn flat_player_and_team() {
    let p = Player { name: "Derek Jeter".to_string(), position: Position::Shortstop };
    assert_eq!(p.preprocess(), "[SHORTSTOP] Derek Jeter");
    assert_eq!(
        team(147, &[("Derek Jeter", Position::Shortstop), ("X", Position::TwoWayPlayer)]).preprocess(),
        "[TEAM] 147\n[SHORTSTOP] Derek Jeter\n[TWO_WAY_PLAYER] X\n"
    );
    assert_eq!(team(0, &[]).preprocess(), "[TEAM] 0\n");
}

#[test]
fn flat_weather() {
    let w = Weather { condition: "Sunny".to_string(), temperature: 72, wind_speed: 10 };
    assert_eq!(w.preprocess(), "[WEATHER] Sunny 72 10");
}

#[test]
fn flat_context() {
    assert_eq!(
        context().preprocess(),
        "718780 [DATE] 2023-04-05 [VENUE] Fenway Park [WEATHER] Partly Cloudy 72 10\n\n\
         [TEAM] 111\n[SHORTSTOP] H One\n[PITCHER] H Two\n\n[TEAM] 147\n[CATCHER] A One\n"
    );
}

#[test]
fn flat_play_sections_come_in_a_fixed_order() {
    assert_eq!(strikeout().preprocess(), "[PLAY] Strikeout [INNING] 1 top [BATTER] A [PITCHER] B [MOVEMENTS]");
    assert_eq!(
        groundout().preprocess(),
        "[PLAY] Groundout [INNING] 3 bottom [BATTER] A [PITCHER] B [FIELDERS] F1, F2 \
         [MOVEMENTS] A home -> 1 [out], R 1 -> 2"
    );
    let sac_fly = Play::SacFly {
        inning: Inning { number: 5, top: true },
        batter: "A".to_string(),
        pitcher: "B".to_string(),
        fielders: vec!["F".to_string()],
        scoring_runner: "S".to_string(),
        movements: vec![movement("S", Some(3), Some(4), false)],
    };
    assert_eq!(
        sac_fly.preprocess(),
        "[PLAY] Sac Fly [INNING] 5 top [BATTER] A [PITCHER] B [FIELDERS] F [SCORING_RUNNER] S \
         [MOVEMENTS] S 3 -> 4"
    );
    let sac_bunt = Play::SacBunt {
        inning: Inning { number: 5, top: true },
        batter: "A".to_string(),
        pitcher: "B".to_string(),
        fielders: vec![],
        runner: "R".to_string(),
        movements: vec![],
    };
    assert_eq!(
        sac_bunt.preprocess(),
        "[PLAY] Sac Bunt [INNING] 5 top [BATTER] A [PITCHER] B [FIELDERS] [RUNNER] R [MOVEMENTS]"
    );
}

#[test]
fn flat_play_of_other_shapes() {
    let inning = Inning { number: 2, top: true };
    let pickoff = Play::Pickoff {
        inning,
        base: 2,
        runner: "R".to_string(),
        fielders: vec!["F".to_string()],
        movements: vec![movement("R", Some(2), None, true)],
    };
    assert_eq!(
        pickoff.preprocess(),
        "[PLAY] Pickoff [INNING] 2 top [BASE] 2 [FIELDERS] F [RUNNER] R [MOVEMENTS] R 2 -> home [out]"
    );
    let stolen = Play::StolenBase { inning, base: 4, runner: "R".to_string(), movements: vec![] };
    assert_eq!(stolen.preprocess(), "[PLAY] Stolen Base [INNING] 2 top [BASE] 4 [RUNNER] R [MOVEMENTS]");
    let passed = Play::PassedBall {
        inning,
        pitcher: "P".to_string(),
        catcher: "C".to_string(),
        movements: vec![],
    };
    assert_eq!(passed.preprocess(), "[PLAY] Passed Ball [INNING] 2 top [PITCHER] P [CATCHER] C [MOVEMENTS]");
    let field_out = Play::FieldOut {
        inning,
        fielder: "F".to_string(),
        runner: "R".to_string(),
        movements: vec![],
    };
    assert_eq!(field_out.preprocess(), "[PLAY] Field Out [INNING] 2 top [FIELDER] F [RUNNER] R [MOVEMENTS]");
    let batter_out = Play::BatterOut {
        inning,
        batter: "A".to_string(),
        catcher: "C".to_string(),
        movements: vec![],
    };
    assert_eq!(batter_out.preprocess(), "[PLAY] Batter Out [INNING] 2 top [BATTER] A [CATCHER] C [MOVEMENTS]");
    assert_eq!(Play::GameAdvisory { inning }.preprocess(), "[PLAY] Game Advisory [INNING] 2 top");
    assert_eq!(
        Play::Ejection { inning, movements: vec![] }.preprocess(),
        "[PLAY] Ejection [INNING] 2 top [MOVEMENTS]"
    );
    let gidp = Play::GroundedIntoDoublePlay {
        inning,
        batter: "A".to_string(),
        pitcher: "B".to_string(),
        fielders: vec![],
        movements: vec![],
    };
    assert_eq!(
        gidp.preprocess(),
        "[PLAY] Grounded Into Double Play [INNING] 2 top [BATTER] A [PITCHER] B [FIELDERS] [MOVEMENTS]"
    );
}

#[test]
fn flat_game_with_one_play() {
    let game = Game { context: context(), plays: vec![groundout()] };
    let text = game.preprocess();
    assert_eq!(
        text,
        "[GAME] 718780 [DATE] 2023-04-05 [VENUE] Fenway Park [WEATHER] Partly Cloudy 72 10\n\n\
         [TEAM] 111\n[SHORTSTOP] H One\n[PITCHER] H Two\n\n[TEAM] 147\n[CATCHER] A One\n\
         \n[GAME_START]\n\
         [PLAY] Groundout [INNING] 3 bottom [BATTER] A [PITCHER] B [FIELDERS] F1, F2 \
         [MOVEMENTS] A home -> 1 [out], R 1 -> 2\n\
         [GAME_END]\n"
    );
    let batter = text.find("[BATTER] A").unwrap();
    let pitcher = text.find("[PITCHER] B").unwrap();
    let fielders = text.find("[FIELDERS] F1, F2").unwrap();
    let movements = text.find("[MOVEMENTS] A home -> 1 [out], R 1 -> 2").unwrap();
    assert!(batter < pitcher && pitcher < fielders && fielders < movements);
    assert!(text.split('\n').all(|line| !line.starts_with(' ')));
}

#[test]
fn flat_game_without_plays() {
    let game = Game { context: context(), plays: vec![] };
    assert!(game.preprocess().ends_with("\n[GAME_START]\n[GAME_END]\n"));
}

#[test]
fn tags_date() {
    assert_eq!(
        Date { year: 2023, month: 4, day: 5 }.tokenize(),
        "<DATE>\n<YEAR>2023</YEAR>\n<MONTH>4</MONTH>\n<DAY>5</DAY>\n</DATE>"
    );
}

#[test]
fn tags_leaves() {
    assert_eq!(
        Inning { number: 3, top: false }.tokenize(),
        "<INNING>\n<NUMBER>3</NUMBER>\n<TOP>false</TOP>\n</INNING>"
    );
    assert_eq!(
        Weather { condition: "Sunny".to_string(), temperature: 72, wind_speed: 10 }.tokenize(),
        "<WEATHER>\n<CONDITION>Sunny</CONDITION>\n<TEMPERATURE>72</TEMPERATURE>\n\
         <WIND_SPEED>10</WIND_SPEED>\n</WEATHER>"
    );
    assert_eq!(
        Player { name: "X".to_string(), position: Position::LeftField }.tokenize(),
        "<PLAYER>\n<NAME>X</NAME>\n<POSITION>LEFT_FIELD</POSITION>\n</PLAYER>"
    );
    assert_eq!(
        movement("R", Some(2), None, true).tokenize(),
        "<MOVEMENT>\n<RUNNER>R</RUNNER>\n<START_BASE>2</START_BASE>\n<END_BASE>home</END_BASE>\n\
         <IS_OUT>true</IS_OUT>\n</MOVEMENT>"
    );
}

#[test]
fn tags_team_nests_its_players() {
    assert_eq!(
        team(147, &[("X", Position::Catcher)]).tokenize(),
        "<TEAM>\n<ID>147</ID>\n    <PLAYER>\n    <NAME>X</NAME>\n    <POSITION>CATCHER</POSITION>\n    </PLAYER>\n</TEAM>"
    );
    assert_eq!(team(1, &[]).tokenize(), "<TEAM>\n<ID>1</ID>\n</TEAM>");
}

#[test]
fn tags_play_nests_inning_and_movements() {
    let expected = [
        "<GROUNDOUT>",
        "    <INNING>",
        "    <NUMBER>3</NUMBER>",
        "    <TOP>false</TOP>",
        "    </INNING>",
        "<BATTER>A</BATTER>",
        "<PITCHER>B</PITCHER>",
        "<FIELDER>F1</FIELDER>",
        "<FIELDER>F2</FIELDER>",
        "    <MOVEMENT>",
        "    <RUNNER>A</RUNNER>",
        "    <START_BASE>home</START_BASE>",
        "    <END_BASE>1</END_BASE>",
        "    <IS_OUT>true</IS_OUT>",
        "    </MOVEMENT>",
        "    <MOVEMENT>",
        "    <RUNNER>R</RUNNER>",
        "    <START_BASE>1</START_BASE>",
        "    <END_BASE>2</END_BASE>",
        "    <IS_OUT>false</IS_OUT>",
        "    </MOVEMENT>",
        "</GROUNDOUT>",
    ];
    assert_eq!(groundout().tokenize(), expected.join("\n"));
}

#[test]
fn tags_play_without_parts() {
    assert_eq!(
        Play::GameAdvisory { inning: Inning { number: 1, top: true } }.tokenize(),
        "<GAME_ADVISORY>\n    <INNING>\n    <NUMBER>1</NUMBER>\n    <TOP>true</TOP>\n    </INNING>\n</GAME_ADVISORY>"
    );
}

#[test]
fn tags_game() {
    let game = Game { context: context(), plays: vec![strikeout(), groundout()] };
    let expected = [
        "<GAME>",
        "    <CONTEXT>",
        "    <GAME_PK>718780</GAME_PK>",
        "        <DATE>",
        "        <YEAR>2023</YEAR>",
        "        <MONTH>4</MONTH>",
        "        <DAY>5</DAY>",
        "        </DATE>",
        "    <VENUE_NAME>Fenway Park</VENUE_NAME>",
        "        <WEATHER>",
        "        <CONDITION>Partly Cloudy</CONDITION>",
        "        <TEMPERATURE>72</TEMPERATURE>",
        "        <WIND_SPEED>10</WIND_SPEED>",
        "        </WEATHER>",
        "        <HOME_TEAM>",
        "        <ID>111</ID>",
        "            <PLAYER>",
        "            <NAME>H One</NAME>",
        "            <POSITION>SHORTSTOP</POSITION>",
        "            </PLAYER>",
        "            <PLAYER>",
        "            <NAME>H Two</NAME>",
        "            <POSITION>PITCHER</POSITION>",
        "            </PLAYER>",
        "        </HOME_TEAM>",
        "        <AWAY_TEAM>",
        "        <ID>147</ID>",
        "            <PLAYER>",
        "            <NAME>A One</NAME>",
        "            <POSITION>CATCHER</POSITION>",
        "            </PLAYER>",
        "        </AWAY_TEAM>",
        "    </CONTEXT>",
        "    <STRIKEOUT>",
        "        <INNING>",
        "        <NUMBER>1</NUMBER>",
        "        <TOP>true</TOP>",
        "        </INNING>",
        "    <BATTER>A</BATTER>",
        "    <PITCHER>B</PITCHER>",
        "    </STRIKEOUT>",
        "    <GROUNDOUT>",
        "        <INNING>",
        "        <NUMBER>3</NUMBER>",
        "        <TOP>false</TOP>",
        "        </INNING>",
        "    <BATTER>A</BATTER>",
        "    <PITCHER>B</PITCHER>",
        "    <FIELDER>F1</FIELDER>",
        "    <FIELDER>F2</FIELDER>",
        "        <MOVEMENT>",
        "        <RUNNER>A</RUNNER>",
        "        <START_BASE>home</START_BASE>",
        "        <END_BASE>1</END_BASE>",
        "        <IS_OUT>true</IS_OUT>",
        "        </MOVEMENT>",
        "        <MOVEMENT>",
        "        <RUNNER>R</RUNNER>",
        "        <START_BASE>1</START_BASE>",
        "        <END_BASE>2</END_BASE>",
        "        <IS_OUT>false</IS_OUT>",
        "        </MOVEMENT>",
        "    </GROUNDOUT>",
        "</GAME>",
    ];
    assert_eq!(game.tokenize(), expected.join("\n"));
}

#[test]
fn tags_indentation_is_four_spaces_for_each_level() {
    let game = Game { context: context(), plays: vec![groundout()] };
    let text = game.tokenize();
    let found = indents(&text);
    assert!(found.iter().all(|n| n % 4 == 0 && *n <= 12));
    assert_eq!(found[0], 0);
    assert_eq!(*found.last().unwrap(), 0);
    assert!(found[1..found.len() - 1].iter().all(|n| *n >= 4));
    for (line, n) in text.split('\n').zip(found.iter()) {
        let tag = line.trim_start_matches(' ');
        assert!(tag.starts_with('<'));
        let expected = if tag.contains("GAME>") && !tag.contains("GAME_PK") {
            0
        } else if tag.contains("CONTEXT>") || tag.contains("GROUNDOUT>") {
            4
        } else if tag.contains("MOVEMENT>") || tag.contains("DATE>") || tag.contains("INNING>") {
            8
        } else if tag.contains("PLAYER>") {
            12
        } else {
            *n
        };
        assert_eq!(*n, expected, "{}", line);
    }
}

#[test]
fn encodings_are_deterministic() {
    let a = Game { context: context(), plays: vec![groundout(), strikeout()] };
    let b = Game { context: context(), plays: vec![groundout(), strikeout()] };
    assert_eq!(a.preprocess(), a.preprocess());
    assert_eq!(a.preprocess(), b.preprocess());
    assert_eq!(a.tokenize(), a.tokenize());
    assert_eq!(a.tokenize(), b.tokenize());
    assert_eq!(a.preprocess().into_bytes(), b.preprocess().into_bytes());
}

#[test]
fn game_is_kept_under_year_team_and_identifier() {
    let game = Game { context: context(), plays: vec![] };
    assert_eq!(game.directory(), "data/2023/111");
    assert_eq!(game.file(718780), "data/2023/111/718780.json");
    assert_eq!(game.file(0), "data/2023/111/0.json");
}

/// The bracketed sections of a flat-field line: each label with what
/// follows it.
fn sections(line: &str) -> Vec<(String, String)> {
    let mut found = Vec::new();
    for part in line.split('[').skip(1) {
        let (label, value) = part.split_once(']').unwrap();
        found.push((label.to_string(), value.trim().to_string()));
    }
    found
}

#[test]
fn flat_play_reproduces_the_values_of_the_play() {
    let play = Play::SacFly {
        inning: Inning { number: 5, top: true },
        batter: "Batter Name".to_string(),
        pitcher: "Pitcher Name".to_string(),
        fielders: vec!["First Fielder".to_string(), "Second Fielder".to_string()],
        scoring_runner: "Scoring Runner".to_string(),
        movements: vec![movement("Scoring Runner", Some(3), Some(4), false), movement("Batter Name", None, None, true)],
    };
    let game = Game { context: context(), plays: vec![play.clone()] };
    let text = game.preprocess();
    let lines: Vec<&str> = text.split('\n').collect();
    let start = lines.iter().position(|l| *l == "[GAME_START]").unwrap();
    assert_eq!(lines[start + 2], "[GAME_END]");
    let read = sections(lines[start + 1]);
    let labels: Vec<&str> = read.iter().map(|(l, _)| l.as_str()).collect();
    assert_eq!(
        labels,
        vec!["PLAY", "INNING", "BATTER", "PITCHER", "FIELDERS", "SCORING_RUNNER", "MOVEMENTS", "out"]
    );
    let f = play.fields();
    assert_eq!(read[0].1, f.kind.label());
    assert_eq!(read[1].1, f.inning.to_string());
    assert_eq!(&read[2].1, f.batter.unwrap());
    assert_eq!(&read[3].1, f.pitcher.unwrap());
    let fielders: Vec<String> = read[4].1.split(", ").map(str::to_string).collect();
    assert_eq!(&fielders, f.fielders.unwrap());
    assert_eq!(&read[5].1, f.scoring_runner.unwrap());
    let moves: Vec<String> = f.movements.unwrap().iter().map(|m| m.preprocess()).collect();
    assert_eq!(read[6].1, "Scoring Runner 3 -> 4, Batter Name home -> home");
    assert_eq!(read[7], ("out".to_string(), "".to_string()));
    assert!(lines[start + 1].ends_with(&format!("[MOVEMENTS] {}", moves.join(", "))));
    assert_eq!(moves, vec!["Scoring Runner 3 -> 4", "Batter Name home -> home [out]"]);
}

fn flyout(batter: &str, fielders: &[&str], movements: Vec<Movement>) -> Play {
    Play::Flyout {
        inning: Inning { number: 2, top: true },
        batter: batter.to_string(),
        pitcher: "B".to_string(),
        fielders: fielders.iter().map(|f| f.to_string()).collect(),
        movements,
    }
}

#[test]
fn plays_that_differ_are_written_differently() {
    let base = flyout("A", &["F", "G"], vec![movement("R", Some(1), Some(2), false)]);
    let others = vec![
        flyout("A ", &["F", "G"], vec![movement("R", Some(1), Some(2), false)]),
        flyout("A", &["G", "F"], vec![movement("R", Some(1), Some(2), false)]),
        flyout("A", &["F"], vec![movement("R", Some(1), Some(2), false)]),
        flyout("A", &["F", "G", ""], vec![movement("R", Some(1), Some(2), false)]),
        flyout("A", &[], vec![movement("R", Some(1), Some(2), false)]),
        flyout("A", &[""], vec![movement("R", Some(1), Some(2), false)]),
        flyout("A", &["F", "G"], vec![movement("R", Some(1), Some(2), true)]),
        flyout("A", &["F", "G"], vec![movement("R", None, Some(2), false)]),
        flyout("A", &["F", "G"], vec![movement("R", Some(1), None, false)]),
        flyout("A", &["F", "G"], vec![movement("R", Some(1), Some(3), false)]),
        flyout("A", &["F", "G"], vec![movement("R 1", Some(1), Some(2), false)]),
        flyout("A", &["F", "G"], vec![]),
        flyout("A", &["F", "G"], vec![movement("R", Some(1), Some(2), false), movement("", None, None, false)]),
        Play::Lineout {
            inning: Inning { number: 2, top: true },
            batter: "A".to_string(),
            pitcher: "B".to_string(),
            fielders: vec!["F".to_string(), "G".to_string()],
            movements: vec![movement("R", Some(1), Some(2), false)],
        },
        Play::Flyout {
            inning: Inning { number: 2, top: false },
            batter: "A".to_string(),
            pitcher: "B".to_string(),
            fielders: vec!["F".to_string(), "G".to_string()],
            movements: vec![movement("R", Some(1), Some(2), false)],
        },
        Play::Flyout {
            inning: Inning { number: 20, top: true },
            batter: "A".to_string(),
            pitcher: "B".to_string(),
            fielders: vec!["F".to_string(), "G".to_string()],
            movements: vec![movement("R", Some(1), Some(2), false)],
        },
    ];
    let text = base.preprocess();
    for (i, other) in others.iter().enumerate() {
        assert_ne!(&base, other);
        assert_ne!(text, other.preprocess(), "{}", i);
    }
    let pairs = [
        (PlayKind::Double, PlayKind::DoublePlay),
        (PlayKind::Pickoff, PlayKind::PickoffError),
        (PlayKind::Strikeout, PlayKind::StrikeoutDoublePlay),
        (PlayKind::SacFly, PlayKind::SacFlyDoublePlay),
        (PlayKind::FieldersChoice, PlayKind::FieldersChoiceOut),
    ];
    for (a, b) in pairs {
        assert!(b.label().starts_with(a.label()));
        assert_ne!(a.label(), b.label());
    }
}

#[test]
fn names_with_a_comma_or_a_bracket_can_be_written_alike() {
    let joined = flyout("A", &["F, G"], vec![]);
    let parted = flyout("A", &["F", "G"], vec![]);
    assert_ne!(joined, parted);
    assert_eq!(joined.preprocess(), parted.preprocess());
    let inning = Inning { number: 1, top: true };
    let with_bracket = Play::Strikeout {
        inning,
        batter: "A [PITCHER] B".to_string(),
        pitcher: "C".to_string(),
        movements: vec![],
    };
    assert_eq!(
        with_bracket.preprocess(),
        "[PLAY] Strikeout [INNING] 1 top [BATTER] A [PITCHER] B [PITCHER] C [MOVEMENTS]"
    );
}
