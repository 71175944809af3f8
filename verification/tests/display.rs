use watcher::display::{
    border_color, concat_text, drop_empty_lines, format_mastery, format_participant,
    no_data, pad_for, spaces, win_percentage, ChampionMasteryDisplay, DisplayToText,
    LeagueEntryDisplay, MatchDisplay, SummonerDisplay, With,
};
use watcher::records::{
    ChampionMastery, Division, LeagueEntry, Match, Participant, Summoner, Team, TeamResult, Tier,
};
use watcher::text::{clone_line, Color, Fragment, Style, StyledText};
use watcher::ui::app::Window;

fn texts(line: &[Fragment]) -> Vec<String> {
    line.iter().map(|f| f.text.clone()).collect()
}

fn summoner(name: &str, level: u64) -> Summoner {
    Summoner {
        name: name.to_string(),
        id: "id-1".to_string(),
        puuid: "puuid-1".to_string(),
        summoner_level: level,
    }
}

fn entry(wins: u32, losses: u32) -> LeagueEntry {
    LeagueEntry {
        summoner_name: "Faker".to_string(),
        queue_type: "RANKED_SOLO_5x5".to_string(),
        tier: Some(Tier::Challenger),
        rank: Some(Division::II),
        wins,
        losses,
        hot_streak: true,
    }
}

fn participant(name: &str, team: Team, win: bool) -> Participant {
    Participant {
        summoner_name: name.to_string(),
        champion_name: "Ahri".to_string(),
        team_position: "MIDDLE".to_string(),
        team,
        kills: 3,
        deaths: 4,
        assists: 12,
        total_minions_killed: 187,
        win,
    }
}

fn game(participants: Vec<Participant>) -> Match {
    Match {
        game_mode: "CLASSIC".to_string(),
        teams: vec![
            TeamResult { team: Team::Blue, win: true, bans: vec![1, 2] },
            TeamResult { team: Team::Red, win: false, bans: vec![] },
        ],
        participants,
    }
}

#[test]
fn win_percentage_is_the_share_of_wins_rounded_down() {
    assert_eq!(win_percentage(7, 3), Some(70));
    assert_eq!(win_percentage(1, 2), Some(33));
    assert_eq!(win_percentage(2, 1), Some(66));
    assert_eq!(win_percentage(0, 5), Some(0));
    assert_eq!(win_percentage(5, 0), Some(100));
    assert_eq!(win_percentage(1, 199), Some(0));
    assert_eq!(win_percentage(199, 1), Some(99));
    assert_eq!(win_percentage(u32::MAX, u32::MAX), Some(50));
    assert_eq!(win_percentage(u32::MAX, 0), Some(100));
}

#[test]
fn win_percentage_of_no_games_is_none() {
    assert_eq!(win_percentage(0, 0), None);
}

#[test]
fn summoner_lines() {
    let shown = SummonerDisplay::with(summoner("Faker", 69));
    let text = shown.format();
    assert_eq!(text.lines.len(), 3);
    assert!(text.lines[0].is_empty());
    assert_eq!(texts(&text.lines[1]), vec!["Faker", "  ", "lvl", ":", "69"]);
    let name = &text.lines[1][0].style;
    assert_eq!(name.fg, Some(Color::Blue));
    assert!(name.bold && name.underline);
    assert_eq!(text.lines[1][1].style.fg, None);
    assert_eq!(text.lines[1][2].style.fg, Some(Color::Reset));
    assert_eq!(text.lines[1][4].style.fg, Some(Color::Cyan));
    assert_eq!(texts(&text.lines[2]), vec![" ".repeat(27)]);
}

#[test]
fn summoner_as_string() {
    let shown = SummonerDisplay::with(summoner("Faker", 69));
    assert_eq!(
        shown.to_string(),
        format!(
            "\n\u{1b}[38;5;12m\u{1b}[1m\u{1b}[4mFaker\u{1b}[0m  \u{1b}[39mlvl\u{1b}[39m:\u{1b}[38;5;14m69\u{1b}[39m\n{}",
            " ".repeat(27)
        )
    );
}

#[test]
fn summoner_text_drops_the_empty_line() {
    let shown = SummonerDisplay::with(summoner("Faker", 69));
    let text = shown.into_text();
    assert_eq!(text.lines.len(), 2);
    assert_eq!(texts(&text.lines[0]), vec!["Faker", "  ", "lvl", ":", "69"]);
    assert_eq!(texts(&text.lines[1]), vec![" ".repeat(27)]);
}

#[test]
fn default_summoner() {
    let shown = SummonerDisplay::default();
    assert_eq!(shown.0.name, "test");
    assert_eq!(shown.0.id, "lol");
    assert_eq!(shown.0.puuid, "24365");
    assert_eq!(shown.0.summoner_level, 69);
}

#[test]
fn league_entry_lines() {
    let shown = LeagueEntryDisplay::with(entry(7, 3));
    let text = shown.format();
    assert_eq!(text.lines.len(), 7);
    assert!(text.lines[0].is_empty());
    assert_eq!(texts(&text.lines[1]), vec!["Faker"]);
    assert_eq!(text.lines[1][0].style.fg, Some(Color::Yellow));
    assert_eq!(texts(&text.lines[2]), vec!["    ", "RANKED_SOLO_5x5"]);
    assert_eq!(text.lines[2][1].style.fg, Some(Color::Grey));
    assert!(text.lines[2][1].style.bold && text.lines[2][1].style.underline);
    assert_eq!(texts(&text.lines[3]), vec!["    ", "CHALLENGER", " ", "II"]);
    assert_eq!(text.lines[3][1].style.fg, Some(Color::Yellow));
    assert_eq!(text.lines[3][3].style.fg, Some(Color::Blue));
    assert_eq!(texts(&text.lines[4]), vec!["    ", "7", "/", "3", "  ", "70", "%"]);
    assert_eq!(text.lines[4][1].style.fg, Some(Color::Green));
    assert_eq!(text.lines[4][3].style.fg, Some(Color::Red));
    assert_eq!(text.lines[4][5].style.fg, Some(Color::Cyan));
    assert!(text.lines[4][5].style.bold);
    assert_eq!(texts(&text.lines[5]), vec!["    ", "\u{1F525}"]);
    assert!(text.lines[5][1].style.underline);
    assert_eq!(texts(&text.lines[6]), vec![" ".repeat(12)]);
}

#[test]
fn league_entry_without_games_shows_no_percentage() {
    let shown = LeagueEntryDisplay::with(entry(0, 0));
    let text = shown.format();
    assert_eq!(texts(&text.lines[4]), vec!["    ", "0", "/", "0", "  ", "N/A"]);
}

#[test]
fn league_entry_without_tier_is_iron_one() {
    let mut e = entry(1, 1);
    e.tier = None;
    e.rank = None;
    e.hot_streak = false;
    let text = LeagueEntryDisplay::with(e).format();
    assert_eq!(texts(&text.lines[3]), vec!["    ", "IRON", " ", "I"]);
    assert_eq!(texts(&text.lines[4]), vec!["    ", "1", "/", "1", "  ", "50", "%"]);
    assert_eq!(texts(&text.lines[5]), vec!["    ", "\u{2744}"]);
}

#[test]
fn league_entry_as_string() {
    let shown = LeagueEntryDisplay::with(entry(7, 3));
    let expected = format!(
        "\n{}\n    {}\n    {} {}\n    {}/{}  {}%\n    {}\n{}",
        "\u{1b}[38;5;11mFaker\u{1b}[39m",
        "\u{1b}[38;5;7m\u{1b}[1m\u{1b}[4mRANKED_SOLO_5x5\u{1b}[0m",
        "\u{1b}[38;5;11mCHALLENGER\u{1b}[39m",
        "\u{1b}[38;5;12mII\u{1b}[39m",
        "\u{1b}[38;5;10m7\u{1b}[39m",
        "\u{1b}[38;5;9m3\u{1b}[39m",
        "\u{1b}[38;5;14m\u{1b}[1m70\u{1b}[0m",
        "\u{1b}[4m\u{1F525}\u{1b}[0m",
        " ".repeat(12)
    );
    assert_eq!(shown.to_string(), expected);
    assert_eq!(shown.into_text().lines.len(), 6);
}

#[test]
fn tier_and_division_names() {
    assert_eq!(Tier::Challenger.name(), "CHALLENGER");
    assert_eq!(Tier::Grandmaster.name(), "GRANDMASTER");
    assert_eq!(Tier::Master.name(), "MASTER");
    assert_eq!(Tier::Diamond.name(), "DIAMOND");
    assert_eq!(Tier::Platinum.name(), "PLATINUM");
    assert_eq!(Tier::Gold.name(), "GOLD");
    assert_eq!(Tier::Silver.name(), "SILVER");
    assert_eq!(Tier::Bronze.name(), "BRONZE");
    assert_eq!(Tier::Iron.name(), "IRON");
    assert_eq!(Tier::Unranked.name(), "UNRANKED");
    assert_eq!(Division::I.name(), "I");
    assert_eq!(Division::II.name(), "II");
    assert_eq!(Division::III.name(), "III");
    assert_eq!(Division::IV.name(), "IV");
    assert_eq!(Division::V.name(), "V");
}

#[test]
fn padding_fragment_fills_up_to_the_width_of_the_escaped_text() {
    // five bytes of text between ten and five bytes of escape sequences
    let f = Fragment::styled("Faker", Style::colored(Color::Green));
    assert_eq!(f.to_ansi().len(), 20);
    assert_eq!(pad_for(&f, 30).text, " ".repeat(10));
    assert_eq!(pad_for(&f, 20).text, "");
    assert_eq!(pad_for(&f, 3).text, "");
    assert_eq!(spaces(4).text, "    ");
    assert_eq!(spaces(0).text, "");
}

#[test]
fn mastery_line_of_a_known_champion() {
    // 266 is the number of Aatrox
    let shown = ChampionMasteryDisplay::with(ChampionMastery {
        champion_id: 266,
        champion_points: 123456,
        champion_level: 7,
    });
    let text = shown.format();
    assert_eq!(text.lines.len(), 1);
    assert_eq!(
        texts(&text.lines[0]),
        vec![
            "Aatrox".to_string(),
            " ".repeat(9),
            " ".to_string(),
            "123456".to_string(),
            " ".repeat(2),
            " (".to_string(),
            "7".to_string(),
            ")".to_string()
        ]
    );
    assert_eq!(text.lines[0][0].style.fg, Some(Color::Green));
    assert_eq!(text.lines[0][3].style.fg, Some(Color::Yellow));
    assert_eq!(text.lines[0][6].style.fg, Some(Color::Cyan));
    assert!(text.lines[0][6].style.bold);
    assert_eq!(
        shown.to_string(),
        "\u{1b}[38;5;10mAatrox\u{1b}[39m          \u{1b}[38;5;11m123456\u{1b}[39m   (\u{1b}[38;5;14m\u{1b}[1m7\u{1b}[0m)"
    );
}

#[test]
fn mastery_line_of_an_unknown_champion() {
    let shown = ChampionMasteryDisplay::with(ChampionMastery {
        champion_id: 32000,
        champion_points: 5,
        champion_level: 1,
    });
    let text = shown.format();
    assert_eq!(text.lines[0][0].text, "UNKNOWN");
    assert_eq!(text.lines[0][1].text, " ".repeat(8));
}

#[test]
fn mastery_line_from_a_name() {
    let line = format_mastery(Some("Ahri".to_string()), 10, 2);
    assert_eq!(
        texts(&line),
        vec![
            "Ahri".to_string(),
            " ".repeat(11),
            " ".to_string(),
            "10".to_string(),
            " ".repeat(6),
            " (".to_string(),
            "2".to_string(),
            ")".to_string()
        ]
    );
    let line = format_mastery(None, 10, 2);
    assert_eq!(line[0].text, "UNKNOWN");
}

#[test]
fn participant_line() {
    let line = format_participant(&participant("Faker", Team::Red, true));
    assert_eq!(
        texts(&line),
        vec![
            "      ".to_string(),
            "MIDDLE".to_string(),
            " ".repeat(4),
            " ".to_string(),
            "Faker".to_string(),
            " ".repeat(16),
            " ".to_string(),
            "Ahri".to_string(),
            " ".repeat(11),
            "  |  ".to_string(),
            "3/4/12".to_string(),
            String::new(),
            " ".to_string(),
            "187".to_string()
        ]
    );
    assert_eq!(line[1].style.fg, Some(Color::Cyan));
    assert_eq!(line[4].style.fg, Some(Color::Red));
    assert_eq!(line[7].style.fg, Some(Color::Yellow));
    assert_eq!(line[10].style.fg, Some(Color::Green));
    assert_eq!(line[13].style.fg, Some(Color::Cyan));
}

#[test]
fn match_lines_group_the_participants_by_side() {
    let shown = MatchDisplay::with(game(vec![
        participant("b1", Team::Blue, true),
        participant("r1", Team::Red, false),
        participant("b2", Team::Blue, true),
        participant("x", Team::Other, false),
        participant("r2", Team::Red, false),
    ]));
    let text = shown.format();
    assert_eq!(text.lines.len(), 7);
    assert_eq!(texts(&text.lines[0]), vec!["CLASSIC"]);
    assert_eq!(text.lines[0][0].style.fg, Some(Color::Reset));
    assert!(text.lines[0][0].style.bold && text.lines[0][0].style.underline);
    assert_eq!(texts(&text.lines[1]), vec!["Team Red"]);
    assert_eq!(text.lines[1][0].style.fg, Some(Color::Red));
    assert_eq!(text.lines[2][4].text, "r1");
    assert_eq!(text.lines[3][4].text, "r2");
    assert_eq!(texts(&text.lines[4]), vec!["Team Blue"]);
    assert_eq!(text.lines[4][0].style.fg, Some(Color::Blue));
    assert_eq!(text.lines[5][4].text, "b1");
    assert_eq!(text.lines[6][4].text, "b2");
    assert_eq!(shown.into_text().lines.len(), 7);
}

#[test]
fn match_without_participants_has_its_headings() {
    let shown = MatchDisplay::with(game(Vec::new()));
    assert_eq!(
        shown.to_string(),
        "\u{1b}[39m\u{1b}[1m\u{1b}[4mCLASSIC\u{1b}[0m\n\u{1b}[38;5;9m\u{1b}[1m\u{1b}[4mTeam Red\u{1b}[0m\n\u{1b}[38;5;12m\u{1b}[1m\u{1b}[4mTeam Blue\u{1b}[0m"
    );
}

#[test]
fn list_label_of_a_won_match() {
    let mut shown = MatchDisplay::with(game(vec![
        participant("other", Team::Blue, false),
        participant("Faker", Team::Red, true),
    ]));
    let lines = shown.list("Faker".to_string());
    assert_eq!(lines.len(), 1);
    assert_eq!(lines[0].len(), 1);
    assert_eq!(lines[0][0].text, "won");
    assert_eq!(lines[0][0].style.fg, Some(Color::Green));
    assert!(lines[0][0].style.bold);
    assert_eq!(shown.0.participants.len(), 2);
    assert_eq!(shown.label("Faker").text, "won");
}

#[test]
fn list_label_of_a_lost_match() {
    let mut shown = MatchDisplay::with(game(vec![
        participant("Faker", Team::Blue, false),
        participant("other", Team::Red, true),
    ]));
    let lines = shown.list("Faker".to_string());
    assert_eq!(lines[0][0].text, "lose");
    assert_eq!(lines[0][0].style.fg, Some(Color::Red));
    assert!(lines[0][0].style.bold);
}

#[test]
fn list_label_without_the_player() {
    let mut shown = MatchDisplay::with(game(vec![participant("other", Team::Red, true)]));
    let lines = shown.list("Faker".to_string());
    assert_eq!(lines.len(), 1);
    assert_eq!(lines[0].len(), 1);
    assert_eq!(lines[0][0].text, "no_data");
    assert_eq!(lines[0][0].style.fg, Some(Color::Red));
    assert!(!lines[0][0].style.bold);
    assert_eq!(MatchDisplay::with(game(Vec::new())).label("Faker").text, "no_data");
}

#[test]
fn list_label_compares_names_exactly() {
    let shown = MatchDisplay::with(game(vec![participant("Faker", Team::Red, true)]));
    assert_eq!(shown.label("faker").text, "no_data");
    assert_eq!(shown.label("Faker ").text, "no_data");
    assert_eq!(shown.label(" Faker").text, "no_data");
    assert_eq!(shown.label("").text, "no_data");
    assert_eq!(shown.label("Faker").text, "won");
}

#[test]
fn list_label_goes_by_the_last_participant_of_the_name() {
    let shown = MatchDisplay::with(game(vec![
        participant("Faker", Team::Red, true),
        participant("Faker", Team::Blue, false),
    ]));
    assert_eq!(shown.label("Faker").text, "lose");
}

#[test]
fn no_data_is_one_plain_line() {
    let text = no_data();
    assert_eq!(text.lines.len(), 1);
    assert_eq!(texts(&text.lines[0]), vec!["no data"]);
    assert_eq!(text.lines[0][0].style.fg, None);
    assert_eq!(text.to_ansi(), "no data");
}

#[test]
fn empty_lines_are_dropped() {
    let mut text = StyledText::new();
    text.push_line(Vec::new());
    text.push_line(vec![Fragment::plain("a")]);
    text.push_line(vec![Fragment::plain("")]);
    text.push_line(vec![Fragment::plain(" ")]);
    text.push_line(vec![Fragment::styled("", Style::colored(Color::Red))]);
    let kept = drop_empty_lines(&text);
    assert_eq!(kept.lines.len(), 3);
    assert_eq!(texts(&kept.lines[0]), vec!["a"]);
    assert_eq!(texts(&kept.lines[1]), vec![" "]);
    assert_eq!(texts(&kept.lines[2]), vec![""]);
    assert_eq!(kept.lines[2][0].style.fg, Some(Color::Red));
    let copy = clone_line(&text.lines[1]);
    assert_eq!(texts(&copy), vec!["a"]);
    let whole = text.clone();
    assert_eq!(whole.lines.len(), 5);
    assert_eq!(whole.to_ansi(), text.to_ansi());
    assert_eq!(whole.lines[4][0].style.fg, Some(Color::Red));
}

#[test]
fn concat_text_starts_with_an_empty_line() {
    let mut first = StyledText::new();
    first.push_line(vec![Fragment::plain("a")]);
    first.push_line(vec![Fragment::plain("b")]);
    let second = StyledText::styled("c", Style::colored(Color::Red));
    let text = concat_text(vec![first, StyledText::new(), second]);
    assert_eq!(text.lines.len(), 4);
    assert!(text.lines[0].is_empty());
    assert_eq!(texts(&text.lines[1]), vec!["a"]);
    assert_eq!(texts(&text.lines[2]), vec!["b"]);
    assert_eq!(texts(&text.lines[3]), vec!["c"]);
    assert_eq!(text.lines[3][0].style.fg, Some(Color::Red));
    let empty = concat_text(Vec::new());
    assert_eq!(empty.lines.len(), 1);
    assert!(empty.lines[0].is_empty());
}

#[test]
fn border_is_black_with_the_focus_and_white_without() {
    let focused = border_color(Window::Rank, Some(Window::Rank), None);
    assert_eq!(focused.fg, Some(Color::Black));
    assert!(!focused.bold && !focused.underline);
    assert_eq!(border_color(Window::Rank, Some(Window::List), None).fg, Some(Color::White));
    assert_eq!(border_color(Window::Rank, None, None).fg, Some(Color::White));
}

#[test]
fn border_takes_the_colours_it_is_given() {
    let colors = Some((Color::DarkGreen, Color::Grey));
    assert_eq!(border_color(Window::Input, Some(Window::Input), colors).fg, Some(Color::DarkGreen));
    assert_eq!(border_color(Window::Input, Some(Window::Header), colors).fg, Some(Color::Grey));
    assert_eq!(border_color(Window::Input, None, colors).fg, Some(Color::Grey));
}
