use mlb_plays::play::PlayParts;
use mlb_plays::season::{all_teams, games_to_fetch, is_among, teams_left};
use mlb_plays::text::{decimal_text, push_decimal, push_padded, push_spaces, read_numeral, text_eq};
use mlb_plays::weather::{read_leading_number, read_whole_number};
use mlb_plays::{
    ClassificationError, FeedRecord, Game, GameContext, Date, Inning, Movement, Play, PlayKind,
    PlayRecord, Team, Weather, WeatherRecord,
};

#[test]
fn texts_are_compared_by_their_characters() {
    assert!(text_eq("", ""));
    assert!(text_eq("Groundout", "Groundout"));
    assert!(!text_eq("Groundout", "Groundouts"));
    assert!(!text_eq("Groundout", "groundout"));
    assert!(!text_eq("a", ""));
    assert!(text_eq("José", "José"));
    assert!(!text_eq("José", "Jose"));
    assert!(!text_eq("é", "e\u{301}"));
}

#[test]
fn decimal_numerals() {
    assert_eq!(decimal_text(0), "0");
    assert_eq!(decimal_text(7), "7");
    assert_eq!(decimal_text(10), "10");
    assert_eq!(decimal_text(2023), "2023");
    assert_eq!(decimal_text(18446744073709551615), "18446744073709551615");
    let mut out = "x".to_string();
    push_decimal(&mut out, 405);
    assert_eq!(out, "x405");
}

#[test]
fn padded_numerals() {
    let mut out = String::new();
    push_padded(&mut out, 5, 2);
    push_padded(&mut out, 0, 3);
    push_padded(&mut out, 123, 2);
    push_padded(&mut out, 45, 0);
    push_padded(&mut out, 9, 1);
    assert_eq!(out, "05000123459");
}

#[test]
fn runs_of_spaces() {
    let mut out = "a".to_string();
    push_spaces(&mut out, 0);
    push_spaces(&mut out, 4);
    out.push('b');
    assert_eq!(out, "a    b");
}

#[test]
fn numerals_are_read_up_to_a_limit() {
    let n = read_numeral("123abc", 0, 255);
    assert_eq!((n.end, n.value), (3, Some(123)));
    let n = read_numeral("123abc", 1, 255);
    assert_eq!((n.end, n.value), (3, Some(23)));
    let n = read_numeral("123abc", 3, 255);
    assert_eq!((n.end, n.value), (3, None));
    let n = read_numeral("123abc", 6, 255);
    assert_eq!((n.end, n.value), (6, None));
    let n = read_numeral("256", 0, 255);
    assert_eq!((n.end, n.value), (3, None));
    let n = read_numeral("255", 0, 255);
    assert_eq!((n.end, n.value), (3, Some(255)));
    let n = read_numeral("000000000000000000000000255", 0, 255);
    assert_eq!((n.end, n.value), (27, Some(255)));
    let n = read_numeral("99999999999999999999999999", 0, 0xffff_ffff);
    assert_eq!((n.end, n.value), (26, None));
    let n = read_numeral("4294967295", 0, 0xffff_ffff);
    assert_eq!((n.end, n.value), (10, Some(4294967295)));
    let n = read_numeral("é12", 1, 255);
    assert_eq!((n.end, n.value), (3, Some(12)));
    let n = read_numeral("", 0, 255);
    assert_eq!((n.end, n.value), (0, None));
}

#[test]
fn whole_and_leading_numbers() {
    assert_eq!(read_whole_number("72"), Some(72));
    assert_eq!(read_whole_number("72 "), None);
    assert_eq!(read_whole_number("+72"), None);
    assert_eq!(read_whole_number("-1"), None);
    assert_eq!(read_whole_number(""), None);
    assert_eq!(read_leading_number("10 mph"), Some(10));
    assert_eq!(read_leading_number("10"), Some(10));
    assert_eq!(read_leading_number("10  mph"), Some(10));
    assert_eq!(read_leading_number("10,mph"), None);
    assert_eq!(read_leading_number("mph 10"), None);
    assert_eq!(read_leading_number("256 mph"), None);
}

#[test]
fn play_from_its_parts() {
    let inning = Inning { number: 6, top: true };
    let mut parts = PlayParts::bare(PlayKind::StolenBase, inning);
    parts.base = Some(3);
    parts.runner = Some("R".to_string());
    parts.movements = Some(vec![Movement {
        runner: "R".to_string(),
        start_base: Some(2),
        end_base: Some(3),
        is_out: false,
    }]);
    let play = Play::from_parts(parts);
    assert_eq!(
        play,
        Play::StolenBase {
            inning,
            base: 3,
            runner: "R".to_string(),
            movements: vec![Movement {
                runner: "R".to_string(),
                start_base: Some(2),
                end_base: Some(3),
                is_out: false,
            }],
        }
    );
    let fields = play.fields();
    assert_eq!(fields.kind, PlayKind::StolenBase);
    assert_eq!(fields.inning, inning);
    assert_eq!(fields.base, Some(3));
    assert_eq!(fields.runner, Some(&"R".to_string()));
    assert_eq!(fields.batter, None);
    assert_eq!(fields.fielders, None);
    assert_eq!(fields.movements.map(|ms| ms.len()), Some(1));
    let bare = Play::from_parts(PlayParts::bare(PlayKind::GameAdvisory, inning));
    assert_eq!(bare, Play::GameAdvisory { inning });
}

fn strikeout(batter: Option<&str>) -> PlayRecord {
    PlayRecord {
        event: Some("Strikeout".to_string()),
        inning: Some(1),
        is_top_inning: Some(true),
        batter: batter.map(str::to_string),
        pitcher: Some("B".to_string()),
        catcher: None,
        runners: Some(vec![]),
    }
}

#[test]
fn plays_are_classified_from_first_to_last() {
    let records = vec![strikeout(Some("A1")), strikeout(Some("A2"))];
    let plays = Game::classify_all(&records, &vec![]).unwrap();
    assert_eq!(plays.len(), 2);
    assert_eq!(plays[0].fields().batter, Some(&"A1".to_string()));
    assert_eq!(plays[1].fields().batter, Some(&"A2".to_string()));
    let records = vec![strikeout(Some("A1")), strikeout(None), strikeout(Some("A3"))];
    assert_eq!(
        Game::classify_all(&records, &vec![]),
        Err(ClassificationError::MissingRequiredField(mlb_plays::Field::Batter))
    );
    assert_eq!(Game::classify_all(&vec![], &vec![vec![None]]), Ok(vec![]));
    assert_eq!(Game::lookups(&records), vec![Vec::<u64>::new(), vec![], vec![]]);
}

#[test]
fn only_a_final_game_is_taken() {
    let feed = |status: Option<&str>| FeedRecord {
        status: status.map(str::to_string),
        date: None,
        weather: WeatherRecord { condition: None, temp: None, wind: None },
        plays: None,
    };
    assert!(Game::is_final(&feed(Some("Final"))));
    assert!(!Game::is_final(&feed(Some("final"))));
    assert!(!Game::is_final(&feed(Some("Final "))));
    assert!(!Game::is_final(&feed(Some("In Progress"))));
    assert!(!Game::is_final(&feed(None)));
}

#[test]
fn teams_of_a_game() {
    let game = Game {
        context: GameContext {
            game_pk: 1,
            date: Date { year: 2023, month: 4, day: 5 },
            venue_name: "V".to_string(),
            weather: Weather { condition: "Sunny".to_string(), temperature: 72, wind_speed: 10 },
            home_team: Team { id: 111, players: vec![] },
            away_team: Team { id: 147, players: vec![] },
        },
        plays: vec![],
    };
    assert!(game.involves(111));
    assert!(game.involves(147));
    assert!(!game.involves(112));
}

#[test]
fn teams_of_a_season() {
    let all = all_teams();
    assert_eq!(
        all,
        vec![
            108, 109, 110, 111, 112, 113, 114, 115, 116, 117, 118, 119, 120, 121, 133, 134, 135,
            136, 137, 138, 139, 140, 141, 142, 143, 144, 145, 146, 147, 158
        ]
    );
    assert_eq!(teams_left(&vec![108, 109, 110], 109), vec![108, 110]);
    assert_eq!(teams_left(&vec![108, 109, 108], 108), vec![109]);
    assert_eq!(teams_left(&vec![108, 109], 200), vec![108, 109]);
    assert_eq!(teams_left(&vec![], 108), Vec::<u8>::new());
    assert_eq!(teams_left(&all, 158).len(), 29);
}

#[test]
fn games_still_to_fetch() {
    assert_eq!(games_to_fetch(&vec![5, 3, 9, 3], &vec![3, 7]), vec![5, 9]);
    assert_eq!(games_to_fetch(&vec![5, 3], &vec![]), vec![5, 3]);
    assert_eq!(games_to_fetch(&vec![], &vec![1]), Vec::<usize>::new());
    assert!(is_among(&vec![1, 2, 3], 3));
    assert!(!is_among(&vec![1, 2, 3], 4));
    assert!(!is_among(&vec![], 0));
}
