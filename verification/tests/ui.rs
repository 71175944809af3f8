use watcher::records::{ChampionMastery, LeagueEntry, Match, Participant, Summoner, Team};
use watcher::text::{Color, StyledText};
use watcher::ui::app::{App, Fetched, Games, Msg, Window};
use watcher::ui::ui::{
    draw, game_text, games_list, header_text, input_text, masteries_text, rank_text,
    remaining_tick, HIGHLIGHT_SYMBOL, TICK_RATE,
};
use watcher::utils::Region;

fn rows(text: &StyledText) -> Vec<String> {
    text.lines.iter().map(|l| l.iter().map(|f| f.text.as_str()).collect::<String>()).collect()
}

fn game(mode: &str, player: &str, win: bool) -> Match {
    Match {
        game_mode: mode.to_string(),
        teams: Vec::new(),
        participants: vec![Participant {
            summoner_name: player.to_string(),
            champion_name: "Ahri".to_string(),
            team_position: "MIDDLE".to_string(),
            team: Team::Blue,
            kills: 1,
            deaths: 2,
            assists: 3,
            total_minions_killed: 4,
            win,
        }],
    }
}

fn searched() -> App {
    let mut app = App::default();
    app.msg = Some(Msg::Search(Region::KR, "Faker".to_string()));
    let _ = app.msg();
    let _ = app.fetched(Fetched::Summoner(Some(Summoner {
        name: "Faker".to_string(),
        id: "id".to_string(),
        puuid: "puuid".to_string(),
        summoner_level: 500,
    })));
    let _ = app.fetched(Fetched::Rank(Some(vec![LeagueEntry {
        summoner_name: "Faker".to_string(),
        queue_type: "RANKED_SOLO_5x5".to_string(),
        tier: None,
        rank: None,
        wins: 3,
        losses: 1,
        hot_streak: false,
    }])));
    let _ = app.fetched(Fetched::Masteries(Some(vec![
        ChampionMastery { champion_id: 266, champion_points: 9, champion_level: 1 },
        ChampionMastery { champion_id: 103, champion_points: 8, champion_level: 2 },
    ])));
    let _ = app.fetched(Fetched::Games(Some(vec![
        game("CLASSIC", "Faker", true),
        game("ARAM", "Faker", false),
        game("URF", "Someone", true),
    ])));
    app
}

#[test]
fn tick_is_a_quarter_of_a_second() {
    assert_eq!(TICK_RATE, 250);
}

#[test]
fn remaining_tick_is_floored_at_zero() {
    assert_eq!(remaining_tick(250, 0), 250);
    assert_eq!(remaining_tick(250, 100), 150);
    assert_eq!(remaining_tick(250, 250), 0);
    assert_eq!(remaining_tick(250, 251), 0);
    assert_eq!(remaining_tick(250, u64::MAX), 0);
    assert_eq!(remaining_tick(0, 0), 0);
}

#[test]
fn empty_state_shows_no_data() {
    let app = App::default();
    assert_eq!(rows(&header_text(&app)), vec!["no data"]);
    assert_eq!(rows(&rank_text(&app)), vec!["", "no data"]);
    assert_eq!(rows(&masteries_text(&app)), vec!["", "no data"]);
    let entries = games_list(&app);
    assert_eq!(entries.len(), 1);
    assert_eq!(rows(&entries[0]), vec!["no data"]);
    assert!(game_text(&app).lines.is_empty());
}

#[test]
fn input_shows_what_is_typed() {
    let mut app = App::default();
    let text = input_text(&app);
    assert_eq!(rows(&text), vec!["Input"]);
    assert_eq!(text.lines[0][0].style.fg, Some(Color::DarkYellow));
    app.input.set("Fak".to_string());
    let text = input_text(&app);
    assert_eq!(rows(&text), vec!["Fak"]);
    assert_eq!(text.lines[0][0].style.fg, Some(Color::DarkGreen));
}

#[test]
fn found_player_is_shown() {
    let app = searched();
    assert_eq!(rows(&header_text(&app)), vec!["Faker  lvl:500".to_string(), " ".repeat(27)]);
    let rank = rows(&rank_text(&app));
    assert_eq!(
        rank,
        vec![
            "".to_string(),
            "Faker".to_string(),
            "    RANKED_SOLO_5x5".to_string(),
            "    IRON I".to_string(),
            "    3/1  75%".to_string(),
            "    \u{2744}".to_string(),
            " ".repeat(12)
        ]
    );
    let masteries = rows(&masteries_text(&app));
    assert_eq!(masteries.len(), 3);
    assert_eq!(masteries[0], "");
    assert!(masteries[1].starts_with("Aatrox "));
    assert!(masteries[1].ends_with(" (1)"));
    assert!(masteries[2].starts_with("Ahri "));
}

#[test]
fn matches_are_listed_with_their_labels() {
    let app = searched();
    let entries = games_list(&app);
    assert_eq!(entries.len(), 3);
    assert_eq!(rows(&entries[0]), vec!["won"]);
    assert_eq!(rows(&entries[1]), vec!["lose"]);
    assert_eq!(rows(&entries[2]), vec!["no_data"]);
}

#[test]
fn selected_match_is_shown() {
    let mut app = searched();
    assert_eq!(rows(&game_text(&app))[0], "CLASSIC");
    app.down();
    assert_eq!(rows(&game_text(&app))[0], "ARAM");
    app.up();
    app.up();
    let shown = rows(&game_text(&app));
    assert_eq!(shown.len(), 4);
    assert_eq!(shown[0], "URF");
    assert_eq!(shown[1], "Team Red");
    assert_eq!(shown[2], "Team Blue");
    assert!(shown[3].contains("Someone"));
    if let Games::G(list) = &mut app.data.games {
        list.unselect();
    }
    assert_eq!(rows(&game_text(&app))[0], "CLASSIC");
    if let Games::G(list) = &mut app.data.games {
        list.state.select(Some(9));
    }
    assert!(game_text(&app).lines.is_empty());
}

#[test]
fn frame_has_every_pane() {
    let mut app = searched();
    app.input.set("next".to_string());
    let screen = draw(&app);
    assert_eq!(rows(&screen.header.text)[0], "Faker  lvl:500");
    assert_eq!(rows(&screen.input.text), vec!["next"]);
    assert_eq!(
        rows(&screen.routes.text),
        vec!["kr | ru | br | jp | la1 | la2 | na | oce | ph | sg | th | tr | tw | eune | euw | "]
    );
    assert_eq!(rows(&screen.rank.text).len(), 7);
    assert_eq!(rows(&screen.masteries.text).len(), 3);
    assert_eq!(screen.games.len(), 3);
    assert_eq!(screen.selection.selected, Some(0));
    assert_eq!(rows(&screen.game.text)[0], "CLASSIC");
    assert!(rows(&screen.footer.text)[0].starts_with("\"q\"/\"Esc\" -> Quit | \"i\" -> focus input"));
    assert!(rows(&screen.logs.text)[0].ends_with(":search finished"));
    assert!(rows(&screen.logs.text)[0].starts_with("Info=> "));
}

#[test]
fn focused_pane_has_the_dark_border() {
    let mut app = App::default();
    let screen = draw(&app);
    // the focus is on the list of matches, which has no border of its own
    assert_eq!(screen.header.border.fg, Some(Color::White));
    assert_eq!(screen.input.border.fg, Some(Color::White));
    assert_eq!(screen.routes.border.fg, Some(Color::White));
    assert_eq!(screen.rank.border.fg, Some(Color::White));
    assert_eq!(screen.masteries.border.fg, Some(Color::White));
    assert_eq!(screen.game.border.fg, Some(Color::White));
    assert_eq!(screen.footer.border.fg, Some(Color::White));
    assert_eq!(screen.logs.border.fg, Some(Color::White));
    assert_eq!(screen.selection.selected, None);
    app.focus = Some(Window::Input);
    let screen = draw(&app);
    assert_eq!(screen.input.border.fg, Some(Color::DarkGreen));
    assert_eq!(screen.header.border.fg, Some(Color::White));
    app.focus = Some(Window::Footer);
    let screen = draw(&app);
    assert_eq!(screen.footer.border.fg, Some(Color::Black));
    assert_eq!(screen.logs.border.fg, Some(Color::Black));
    assert_eq!(screen.input.border.fg, Some(Color::White));
    for (pane, focus) in [
        (0, Window::Header),
        (1, Window::Route),
        (2, Window::Rank),
        (3, Window::Masteries),
        (4, Window::Games),
    ] {
        app.focus = Some(focus);
        let screen = draw(&app);
        let borders = [
            screen.header.border.fg,
            screen.routes.border.fg,
            screen.rank.border.fg,
            screen.masteries.border.fg,
            screen.game.border.fg,
        ];
        for (i, fg) in borders.iter().enumerate() {
            assert_eq!(*fg, Some(if i == pane { Color::Black } else { Color::White }));
        }
    }
}

#[test]
fn list_of_matches_has_its_styles() {
    let screen = draw(&App::default());
    assert_eq!(screen.list_style.fg, Some(Color::Grey));
    assert!(!screen.list_style.bold && !screen.list_style.underline);
    assert_eq!(screen.highlight_style.fg, Some(Color::Cyan));
    assert!(screen.highlight_style.bold && !screen.highlight_style.underline);
    assert_eq!(HIGHLIGHT_SYMBOL, "=>");
}

#[test]
fn keys_and_status_line_are_wrapped() {
    let screen = draw(&App::default());
    assert!(screen.footer.wrap);
    assert!(screen.logs.wrap);
    assert!(!screen.header.wrap);
    assert!(!screen.input.wrap);
    assert!(!screen.routes.wrap);
    assert!(!screen.rank.wrap);
    assert!(!screen.masteries.wrap);
    assert!(!screen.game.wrap);
}

#[test]
fn drawing_leaves_the_state_alone() {
    let app = searched();
    let _ = draw(&app);
    let _ = draw(&app);
    assert_eq!(app.focus, Some(Window::List));
    assert_eq!(app.route, Region::KR);
    assert!(matches!(&app.data.games, Games::G(list) if list.state.selected == Some(0)));
}
