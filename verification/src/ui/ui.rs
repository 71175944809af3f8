//! What the screen shows: the text of each pane and the colour of its
//! border, computed from the state.

use vstd::prelude::*;
use vstd::string::*;

use crate::display::{
    border_color, border_style, concat_lines, concat_text, league_text, mastery_text,
    match_label, match_text, no_data, no_data_text, summoner_text, visible_lines,
    ChampionMasteryDisplay, DisplayToText, LeagueEntryDisplay, MatchDisplay,
};
use crate::text::{
    empty_line, fragment, push_fragment, push_text, Color, FragmentView, Style, StyledText,
};
use crate::ui::app::{route_fragments, App, Games, ListState, Window};
use crate::ui::keys::keys_fragments;
use crate::utils::log_text;

verus! {

/// How long one tick lasts, in milliseconds.
pub const TICK_RATE: u64 = 250;

/// What is left of a tick of `tick` milliseconds after `elapsed`
/// milliseconds: nothing where more than the tick has passed.
pub fn remaining_tick(tick: u64, elapsed: u64) -> (left: u64)
    ensures
        left == if elapsed >= tick {
            0
        } else {
            tick - elapsed
        },
{
    if elapsed >= tick {
        0
    } else {
        tick - elapsed
    }
}

/// The mark that stands before the selected entry of the list of matches.
pub const HIGHLIGHT_SYMBOL: &'static str = "=>";

/// A pane: its text, the style of its border, and whether lines that are
/// too long are wrapped, and trimmed at their start.
#[derive(Debug)]
pub struct Pane {
    pub text: StyledText,
    pub border: Style,
    pub wrap: bool,
}

/// All that one frame shows.
#[derive(Debug)]
pub struct Screen {
    /// The profile that was found.
    pub header: Pane,
    /// The text that is being typed.
    pub input: Pane,
    /// The regions to choose from.
    pub routes: Pane,
    pub rank: Pane,
    pub masteries: Pane,
    /// The entries of the list of matches.
    pub games: Vec<StyledText>,
    /// Which entry of the list of matches is selected.
    pub selection: ListState,
    /// The style of the list of matches.
    pub list_style: Style,
    /// The style of the selected entry of the list of matches.
    pub highlight_style: Style,
    /// The match that is selected.
    pub game: Pane,
    /// The keys.
    pub footer: Pane,
    /// The status line.
    pub logs: Pane,
}

/// The profile without its empty lines; `no data` where none was found.
pub open spec fn header_lines(app: App) -> Seq<Seq<FragmentView>> {
    match app.data.summoner {
        Some(summoner) => visible_lines(summoner_text(summoner.0)),
        None => no_data_text(),
    }
}

/// What is typed, in dark green; the word `Input` in dark yellow where
/// nothing is typed.
pub open spec fn input_lines(app: App) -> Seq<Seq<FragmentView>> {
    if app.input.content@.len() == 0 {
        seq![seq![fragment("Input"@, Some(Color::DarkYellow), false, false)]]
    } else {
        seq![seq![fragment(app.input.content@, Some(Color::DarkGreen), false, false)]]
    }
}

/// The standings one after another, each without its empty lines; `no data`
/// where none were found.
pub open spec fn rank_lines(app: App) -> Seq<Seq<FragmentView>> {
    match app.data.rank {
        Some(list) => concat_lines(
            list@.map_values(|e: LeagueEntryDisplay| visible_lines(league_text(e.0))),
        ),
        None => concat_lines(seq![no_data_text()]),
    }
}

/// The masteries one after another; `no data` where none were found.
pub open spec fn masteries_lines(app: App) -> Seq<Seq<FragmentView>> {
    match app.data.masteries {
        Some(list) => concat_lines(
            list@.map_values(|m: ChampionMasteryDisplay| visible_lines(mastery_text(m.0))),
        ),
        None => concat_lines(seq![no_data_text()]),
    }
}

/// The name by which the player of the last search is found in a match:
/// empty where no player was found yet.
pub open spec fn tracked_name(app: App) -> Seq<char> {
    match app.data.current_search {
        Some(current) => current.1@,
        None => Seq::empty(),
    }
}

/// The entries of the list of matches: for each match its label for the
/// player of the last search; one entry `no data` where no matches were
/// fetched.
pub open spec fn games_entries(app: App) -> Seq<Seq<Seq<FragmentView>>> {
    match app.data.games {
        Games::G(list) => list.items@.map_values(
            |m: MatchDisplay| seq![seq![match_label(m.0.participants@, tracked_name(app))]],
        ),
        Games::N => seq![no_data_text()],
    }
}

/// Which entry of the list of matches is selected.
pub open spec fn games_selection(app: App) -> Option<usize> {
    match app.data.games {
        Games::G(list) => list.state.selected,
        Games::N => None,
    }
}

/// The match at the cursor without its empty lines; nothing where there is
/// no match at the cursor.
pub open spec fn game_lines(app: App) -> Seq<Seq<FragmentView>> {
    match app.data.games {
        Games::G(list) => if list.cursor() < list.items@.len() {
            visible_lines(match_text(list.items@[list.cursor() as int].0))
        } else {
            Seq::empty()
        },
        Games::N => Seq::empty(),
    }
}

/// The frame that `app` is shown as: each pane with its text and the colour
/// of its border. The keys and the status line, which share the border of
/// the footer, are wrapped; no other pane is. The list of matches is grey,
/// and its selected entry cyan and bold.
pub open spec fn frame_of(app: App, screen: Screen) -> bool {
    &&& !screen.header.wrap && !screen.input.wrap && !screen.routes.wrap && !screen.rank.wrap
        && !screen.masteries.wrap && !screen.game.wrap
    &&& screen.footer.wrap && screen.logs.wrap
    &&& screen.list_style == (Style { fg: Some(Color::Grey), bold: false, underline: false })
    &&& screen.highlight_style == (Style { fg: Some(Color::Cyan), bold: true, underline: false })
    &&& screen.header.text@ == header_lines(app)
    &&& screen.header.border == border_style(Window::Header, app.focus, None)
    &&& screen.input.text@ == input_lines(app)
    &&& screen.input.border == border_style(
        Window::Input,
        app.focus,
        Some((Color::DarkGreen, Color::White)),
    )
    &&& screen.routes.text@ == seq![route_fragments(app.routes.items@, app.routes.cursor())]
    &&& screen.routes.border == border_style(Window::Route, app.focus, None)
    &&& screen.rank.text@ == rank_lines(app)
    &&& screen.rank.border == border_style(Window::Rank, app.focus, None)
    &&& screen.masteries.text@ == masteries_lines(app)
    &&& screen.masteries.border == border_style(Window::Masteries, app.focus, None)
    &&& screen.games.deep_view() == games_entries(app)
    &&& screen.selection.selected == games_selection(app)
    &&& screen.game.text@ == game_lines(app)
    &&& screen.game.border == border_style(Window::Games, app.focus, None)
    &&& screen.footer.text@ == seq![keys_fragments(app.keys@)]
    &&& screen.footer.border == border_style(Window::Footer, app.focus, None)
    &&& screen.logs.text@ == log_text(app.log)
    &&& screen.logs.border == border_style(Window::Footer, app.focus, None)
}

/// The text of the pane of the profile.
pub fn header_text(app: &App) -> (text: StyledText)
    ensures
        text@ == header_lines(*app),
{
    match &app.data.summoner {
        Some(summoner) => summoner.into_text(),
        None => no_data(),
    }
}

/// The text of the pane of the input.
pub fn input_text(app: &App) -> (text: StyledText)
    ensures
        text@ == input_lines(*app),
{
    if app.input.content.as_str().is_empty() {
        StyledText::styled("Input", Style::colored(Color::DarkYellow))
    } else {
        StyledText::styled(app.input.content.as_str(), Style::colored(Color::DarkGreen))
    }
}

/// The text of the pane of the standings.
pub fn rank_text(app: &App) -> (text: StyledText)
    ensures
        text@ == rank_lines(*app),
{
    let mut texts: Vec<StyledText> = Vec::new();
    match &app.data.rank {
        Some(list) => {
            let ghost shown = |e: LeagueEntryDisplay| visible_lines(league_text(e.0));
            let mut i: usize = 0;
            assert(texts.deep_view() =~= list@.take(0).map_values(shown));
            while i < list.len()
                invariant
                    i <= list.len(),
                    shown == (|e: LeagueEntryDisplay| visible_lines(league_text(e.0))),
                    texts.deep_view() == list@.take(i as int).map_values(shown),
                decreases list.len() - i,
            {
                push_text(&mut texts, list[i].into_text());
                assert(texts.deep_view() =~= list@.take(i + 1).map_values(shown));
                i += 1;
            }
            assert(list@.take(i as int) =~= list@);
        },
        None => {
            push_text(&mut texts, no_data());
            assert(texts.deep_view() =~= seq![no_data_text()]);
        },
    }
    concat_text(texts)
}

/// The text of the pane of the masteries.
pub fn masteries_text(app: &App) -> (text: StyledText)
    ensures
        text@ == masteries_lines(*app),
{
    let mut texts: Vec<StyledText> = Vec::new();
    match &app.data.masteries {
        Some(list) => {
            let ghost shown = |m: ChampionMasteryDisplay| visible_lines(mastery_text(m.0));
            let mut i: usize = 0;
            assert(texts.deep_view() =~= list@.take(0).map_values(shown));
            while i < list.len()
                invariant
                    i <= list.len(),
                    shown == (|m: ChampionMasteryDisplay| visible_lines(mastery_text(m.0))),
                    texts.deep_view() == list@.take(i as int).map_values(shown),
                decreases list.len() - i,
            {
                push_text(&mut texts, list[i].into_text());
                assert(texts.deep_view() =~= list@.take(i + 1).map_values(shown));
                i += 1;
            }
            assert(list@.take(i as int) =~= list@);
        },
        None => {
            push_text(&mut texts, no_data());
            assert(texts.deep_view() =~= seq![no_data_text()]);
        },
    }
    concat_text(texts)
}

/// The entries of the list of matches.
pub fn games_list(app: &App) -> (entries: Vec<StyledText>)
    ensures
        entries.deep_view() == games_entries(*app),
{
    let mut entries: Vec<StyledText> = Vec::new();
    match &app.data.games {
        Games::G(list) => {
            let name: &str = match &app.data.current_search {
                Some(current) => current.1.as_str(),
                None => "",
            };
            proof {
                reveal_strlit("");
                assert(name@ =~= tracked_name(*app));
            }
            let ghost label = |m: MatchDisplay|
                seq![seq![match_label(m.0.participants@, tracked_name(*app))]];
            let mut i: usize = 0;
            assert(entries.deep_view() =~= list.items@.take(0).map_values(label));
            while i < list.items.len()
                invariant
                    i <= list.items.len(),
                    name@ == tracked_name(*app),
                    label == (|m: MatchDisplay|
                        seq![seq![match_label(m.0.participants@, tracked_name(*app))]]),
                    entries.deep_view() == list.items@.take(i as int).map_values(label),
                decreases list.items.len() - i,
            {
                let mut line = empty_line();
                push_fragment(&mut line, list.items[i].label(name));
                let mut entry = StyledText::new();
                entry.push_line(line);
                assert(entry@ =~= label(list.items@[i as int]));
                push_text(&mut entries, entry);
                assert(entries.deep_view() =~= list.items@.take(i + 1).map_values(label));
                i += 1;
            }
            assert(list.items@.take(i as int) =~= list.items@);
        },
        Games::N => {
            push_text(&mut entries, no_data());
            assert(entries.deep_view() =~= seq![no_data_text()]);
        },
    }
    entries
}

/// The text of the pane of the selected match.
pub fn game_text(app: &App) -> (text: StyledText)
    ensures
        text@ == game_lines(*app),
{
    match &app.data.games {
        Games::G(list) => {
            let cursor = match list.state.selected() {
                Some(i) => i,
                None => 0,
            };
            if cursor < list.items.len() {
                list.items[cursor].into_text()
            } else {
                StyledText::new()
            }
        },
        Games::N => StyledText::new(),
    }
}

/// One frame: what `app` is shown as. The state stays as it is.
pub fn draw(app: &App) -> (screen: Screen)
    ensures
        frame_of(*app, screen),
{
    let mut routes = StyledText::new();
    routes.push_line(app.routes.print());
    assert(routes@ =~= seq![route_fragments(app.routes.items@, app.routes.cursor())]);
    let selection = match &app.data.games {
        Games::G(list) => list.state,
        Games::N => ListState::default(),
    };
    Screen {
        header: Pane {
            text: header_text(app),
            border: border_color(Window::Header, app.focus, None),
            wrap: false,
        },
        input: Pane {
            text: input_text(app),
            border: border_color(Window::Input, app.focus, Some((Color::DarkGreen, Color::White))),
            wrap: false,
        },
        routes: Pane {
            text: routes,
            border: border_color(Window::Route, app.focus, None),
            wrap: false,
        },
        rank: Pane {
            text: rank_text(app),
            border: border_color(Window::Rank, app.focus, None),
            wrap: false,
        },
        masteries: Pane {
            text: masteries_text(app),
            border: border_color(Window::Masteries, app.focus, None),
            wrap: false,
        },
        games: games_list(app),
        selection,
        list_style: Style::colored(Color::Grey),
        highlight_style: Style::colored(Color::Cyan).bold(),
        game: Pane {
            text: game_text(app),
            border: border_color(Window::Games, app.focus, None),
            wrap: false,
        },
        footer: Pane {
            text: app.keys.format(),
            border: border_color(Window::Footer, app.focus, None),
            wrap: true,
        },
        logs: Pane {
            text: app.log.format(),
            border: border_color(Window::Footer, app.focus, None),
            wrap: true,
        },
    }
}

} // verus!
