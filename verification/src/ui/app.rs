//! The state of the interactive mode and the messages that change it.

use vstd::prelude::*;
use vstd::string::*;

use crate::display::{
    ChampionMasteryDisplay, LeagueEntryDisplay, MatchDisplay, SummonerDisplay,
};
use crate::records::{ChampionMastery, LeagueEntry, Match, Summoner};
use crate::text::{
    empty_line, fragment, plain, push_fragment, Color, Fragment, FragmentView, Style,
};
use crate::ui::keys::{default_keys, Keys};
use crate::utils::{all_regions, parse_route, region_of_code, routes, Log, LogKind, Region};

verus! {

/// A pane of the screen.
#[derive(Clone, Copy, Debug, PartialEq, Eq, Structural)]
pub enum Window {
    Header,
    Input,
    Route,
    Rank,
    Masteries,
    List,
    Games,
    Footer,
}

impl Window {
    /// The pane's place in the order in which the focus goes round.
    pub open spec fn position(self) -> nat {
        match self {
            Window::Header => 0,
            Window::Input => 1,
            Window::Route => 2,
            Window::Rank => 3,
            Window::Masteries => 4,
            Window::List => 5,
            Window::Games => 6,
            Window::Footer => 7,
        }
    }

    /// The pane at the place `position`, counted round the eight panes.
    pub open spec fn at(position: nat) -> Window {
        let place = position % 8;
        if place == 0 {
            Window::Header
        } else if place == 1 {
            Window::Input
        } else if place == 2 {
            Window::Route
        } else if place == 3 {
            Window::Rank
        } else if place == 4 {
            Window::Masteries
        } else if place == 5 {
            Window::List
        } else if place == 6 {
            Window::Games
        } else {
            Window::Footer
        }
    }

    /// The pane that gets the focus after this one.
    pub open spec fn spec_next(&self) -> Window {
        Window::at(self.position() + 1)
    }

    /// The pane that has the focus after it moved on `times` times.
    pub open spec fn after(self, times: nat) -> Window
        decreases times,
    {
        if times == 0 {
            self
        } else {
            self.after((times - 1) as nat).spec_next()
        }
    }

    /// The pane that gets the focus after this one: the panes follow each
    /// other in the order Header, Input, Route, Rank, Masteries, List,
    /// Games, Footer, and Header follows Footer.
    #[verifier::when_used_as_spec(spec_next)]
    pub fn next(&self) -> (w: Window)
        ensures
            w == self.spec_next(),
    {
        match self {
            Window::Header => Window::Input,
            Window::Input => Window::Route,
            Window::Route => Window::Rank,
            Window::Rank => Window::Masteries,
            Window::Masteries => Window::List,
            Window::List => Window::Games,
            Window::Games => Window::Footer,
            Window::Footer => Window::Header,
        }
    }
}

/// Moving the focus on `times` times moves it `times` places round.
pub proof fn lemma_focus_after(start: Window, times: nat)
    ensures
        start.after(times) == Window::at(start.position() + times),
    decreases times,
{
    if times > 0 {
        lemma_focus_after(start, (times - 1) as nat);
    }
}

/// Moving the focus on once for each of the eight panes brings it back to
/// where it was.
pub proof fn lemma_focus_cycle(start: Window)
    ensures
        start.after(8) == start,
{
    lemma_focus_after(start, 8);
}

/// Which entry of a list is selected, if any.
#[derive(Clone, Copy, Debug)]
pub struct ListState {
    pub selected: Option<usize>,
}

impl ListState {
    /// The index of the selected entry.
    pub fn selected(&self) -> (i: Option<usize>)
        ensures
            i == self.selected,
    {
        self.selected
    }

    /// Selects the entry at `index`, or none.
    pub fn select(&mut self, index: Option<usize>)
        ensures
            final(self).selected == index,
    {
        self.selected = index;
    }
}

impl Default for ListState {
    /// Nothing is selected.
    fn default() -> (s: ListState)
        ensures
            s.selected is None,
    {
        ListState { selected: None }
    }
}

/// The index that follows `selected` in a list of `len` entries, which is
/// not empty: the first entry where nothing is selected or the selection is
/// at the last entry or beyond it.
pub open spec fn index_after(selected: Option<usize>, len: nat) -> nat {
    match selected {
        Some(i) => if i >= len - 1 {
            0
        } else {
            (i + 1) as nat
        },
        None => 0,
    }
}

/// The index that precedes `selected` in a list of `len` entries, which is
/// not empty: the last entry where the selection is at the first, and the
/// first entry where nothing is selected.
pub open spec fn index_before(selected: Option<usize>, len: nat) -> nat {
    match selected {
        Some(i) => if i == 0 {
            (len - 1) as nat
        } else {
            (i - 1) as nat
        },
        None => 0,
    }
}

/// The matches of the last search, and the one that is selected.
#[derive(Debug)]
pub struct GamesList {
    pub state: ListState,
    pub items: Vec<MatchDisplay>,
}

impl GamesList {
    /// The selection lies within the list.
    pub open spec fn wf(&self) -> bool {
        self.state.selected matches Some(i) ==> i < self.items@.len()
    }

    /// The index of the match that is shown: the selected one, the first
    /// where none is selected.
    pub open spec fn cursor(&self) -> nat {
        match self.state.selected {
            Some(i) => i as nat,
            None => 0,
        }
    }

    /// A list of `items` with none selected.
    pub fn with(items: Vec<MatchDisplay>) -> (list: GamesList)
        ensures
            list.items == items,
            list.state.selected is None,
            list.wf(),
    {
        GamesList { state: ListState::default(), items }
    }

    /// A list of `items` with none selected.
    pub fn default(items: Vec<MatchDisplay>) -> (list: GamesList)
        ensures
            list.items == items,
            list.state.selected is None,
            list.wf(),
    {
        GamesList { state: ListState::default(), items }
    }

    /// Selects the next match, the first after the last. An empty list
    /// stays as it is.
    pub fn next(&mut self)
        ensures
            final(self).items == old(self).items,
            old(self).items@.len() == 0 ==> *final(self) == *old(self),
            old(self).items@.len() > 0 ==> final(self).state.selected == Some(
                index_after(old(self).state.selected, old(self).items@.len()) as usize,
            ),
            old(self).items@.len() > 0 ==> final(self).wf(),
    {
        if self.items.len() > 0 {
            let i: usize = match self.state.selected() {
                Some(i) => {
                    if i >= self.items.len() - 1 {
                        0
                    } else {
                        i + 1
                    }
                },
                None => 0,
            };
            self.state.select(Some(i));
        }
    }

    /// Selects the previous match, the last before the first. An empty list
    /// stays as it is.
    pub fn previous(&mut self)
        ensures
            final(self).items == old(self).items,
            old(self).items@.len() == 0 ==> *final(self) == *old(self),
            old(self).items@.len() > 0 ==> final(self).state.selected == Some(
                index_before(old(self).state.selected, old(self).items@.len()) as usize,
            ),
            old(self).wf() && old(self).items@.len() > 0 ==> final(self).wf(),
    {
        if self.items.len() > 0 {
            let i: usize = match self.state.selected() {
                Some(i) => {
                    if i == 0 {
                        self.items.len() - 1
                    } else {
                        i - 1
                    }
                },
                None => 0,
            };
            self.state.select(Some(i));
        }
    }

    /// Selects no match.
    pub fn unselect(&mut self)
        ensures
            final(self).items == old(self).items,
            final(self).state.selected is None,
    {
        self.state.select(None);
    }

    /// The selected match; none where none is selected or the selection
    /// lies beyond the list.
    pub fn get_item(&self) -> (item: Option<&MatchDisplay>)
        ensures
            match self.state.selected {
                Some(i) if i < self.items@.len() => item == Some(&self.items@[i as int]),
                _ => item is None,
            },
    {
        match self.state.selected() {
            None => None,
            Some(i) => {
                if i < self.items.len() {
                    Some(&self.items[i])
                } else {
                    None
                }
            },
        }
    }
}

/// From the first of `len` matches, one step back selects the last; from
/// the last, one step on selects the first.
pub proof fn lemma_selection_wraps(len: nat)
    requires
        1 <= len <= usize::MAX,
    ensures
        index_before(Some(0usize), len) == len - 1,
        index_after(Some((len - 1) as usize), len) == 0,
{
}

/// The text that is being typed.
#[derive(Debug)]
pub struct Input {
    pub content: String,
}

/// `String::pop` takes the last character off the string and returns it;
/// an empty string stays empty and nothing is returned.
pub assume_specification[ String::pop ](s: &mut String) -> (last: Option<char>)
    ensures
        old(s)@.len() == 0 ==> last is None && final(s)@ == old(s)@,
        old(s)@.len() > 0 ==> last == Some(old(s)@.last()) && final(s)@ == old(s)@.drop_last(),
;

impl Clone for Input {
    fn clone(&self) -> (r: Input)
        ensures
            r == *self,
    {
        Input { content: self.content.clone() }
    }
}

impl Input {
    /// The text.
    pub fn get(self) -> (text: String)
        ensures
            text == self.content,
    {
        self.content
    }

    /// Adds `rhs` at the end of the text.
    pub fn append(&mut self, rhs: String)
        ensures
            final(self).content@ == old(self).content@ + rhs@,
    {
        self.content.append(rhs.as_str());
    }

    /// Replaces the text by `text`.
    pub fn set(&mut self, text: String)
        ensures
            final(self).content == text,
    {
        self.content = text;
    }

    /// Empties the text.
    pub fn clear(&mut self)
        ensures
            final(self).content@ == Seq::<char>::empty(),
    {
        self.content = String::new();
    }

    /// Takes the last character off the text; empty text stays empty.
    pub fn delete(&mut self)
        ensures
            old(self).content@.len() == 0 ==> final(self).content@ == old(self).content@,
            old(self).content@.len() > 0 ==> final(self).content@ == old(self).content@.drop_last(),
    {
        let _ = self.content.pop();
    }
}

/// The regions to choose from, and the one that is selected.
#[derive(Debug)]
pub struct RouteList {
    pub state: ListState,
    pub items: Vec<(String, Region)>,
}

/// The entries of the list of regions as fragments: each code, in dark cyan
/// where it is the entry at `cursor` and in dark red else, with a bar after
/// it.
pub open spec fn route_fragments(items: Seq<(String, Region)>, cursor: nat) -> Seq<FragmentView>
    decreases items.len(),
{
    if items.len() == 0 {
        Seq::empty()
    } else {
        let i = (items.len() - 1) as nat;
        route_fragments(items.drop_last(), cursor).push(
            fragment(
                items.last().0@,
                Some(
                    if i == cursor {
                        Color::DarkCyan
                    } else {
                        Color::DarkRed
                    },
                ),
                false,
                false,
            ),
        ).push(plain(" | "@))
    }
}

impl RouteList {
    /// The selection lies within the list.
    pub open spec fn wf(&self) -> bool {
        self.state.selected matches Some(i) ==> i < self.items@.len()
    }

    /// The index of the region that is shown as chosen: the selected one,
    /// the first where none is selected.
    pub open spec fn cursor(&self) -> nat {
        match self.state.selected {
            Some(i) => i as nat,
            None => 0,
        }
    }

    /// The region that the list stands at: that of the entry at the cursor,
    /// `KR` where the cursor lies beyond the list.
    pub open spec fn current(&self) -> Region {
        if self.cursor() < self.items@.len() {
            self.items@[self.cursor() as int].1
        } else {
            Region::KR
        }
    }

    /// A list of `items` with none selected.
    pub fn with(items: Vec<(String, Region)>) -> (list: RouteList)
        ensures
            list.items == items,
            list.state.selected is None,
            list.wf(),
    {
        RouteList { state: ListState::default(), items }
    }

    /// Selects the next region, the first after the last. An empty list
    /// stays as it is.
    pub fn next(&mut self)
        ensures
            final(self).items == old(self).items,
            old(self).items@.len() == 0 ==> *final(self) == *old(self),
            old(self).items@.len() > 0 ==> final(self).state.selected == Some(
                index_after(old(self).state.selected, old(self).items@.len()) as usize,
            ),
            old(self).items@.len() > 0 ==> final(self).wf(),
    {
        if self.items.len() > 0 {
            let i: usize = match self.state.selected() {
                Some(i) => {
                    if i >= self.items.len() - 1 {
                        0
                    } else {
                        i + 1
                    }
                },
                None => 0,
            };
            self.state.select(Some(i));
        }
    }

    /// Selects the previous region, the last before the first. An empty
    /// list stays as it is.
    pub fn previous(&mut self)
        ensures
            final(self).items == old(self).items,
            old(self).items@.len() == 0 ==> *final(self) == *old(self),
            old(self).items@.len() > 0 ==> final(self).state.selected == Some(
                index_before(old(self).state.selected, old(self).items@.len()) as usize,
            ),
            old(self).wf() && old(self).items@.len() > 0 ==> final(self).wf(),
    {
        if self.items.len() > 0 {
            let i: usize = match self.state.selected() {
                Some(i) => {
                    if i == 0 {
                        self.items.len() - 1
                    } else {
                        i - 1
                    }
                },
                None => 0,
            };
            self.state.select(Some(i));
        }
    }

    /// Selects no region.
    pub fn unselect(&mut self)
        ensures
            final(self).items == old(self).items,
            final(self).state.selected is None,
    {
        self.state.select(None);
    }

    /// The list as fragments for one line: each code, in dark cyan where it
    /// is the entry at the cursor and in dark red else, with a bar after it.
    pub fn print(&self) -> (line: Vec<Fragment>)
        ensures
            line.deep_view() == route_fragments(self.items@, self.cursor()),
    {
        let cursor = match self.state.selected() {
            Some(i) => i,
            None => 0,
        };
        let mut line = empty_line();
        let mut i: usize = 0;
        assert(self.items@.take(0) =~= Seq::<(String, Region)>::empty());
        while i < self.items.len()
            invariant
                i <= self.items.len(),
                cursor == self.cursor(),
                line.deep_view() == route_fragments(self.items@.take(i as int), cursor as nat),
            decreases self.items.len() - i,
        {
            let color = if cursor == i {
                Color::DarkCyan
            } else {
                Color::DarkRed
            };
            push_fragment(
                &mut line,
                Fragment::styled(self.items[i].0.as_str(), Style::colored(color)),
            );
            push_fragment(&mut line, Fragment::plain(" | "));
            proof {
                assert(self.items@.take(i + 1).drop_last() =~= self.items@.take(i as int));
                assert(self.items@.take(i + 1).last() == self.items@[i as int]);
            }
            i += 1;
        }
        assert(self.items@.take(i as int) =~= self.items@);
        line
    }

    /// The region with the code `key`, where a key is given; else the region
    /// that the list stands at.
    pub fn get_item(&self, key: Option<String>) -> (region: Region)
        ensures
            region == match key {
                Some(k) => region_of_code(k@),
                None => self.current(),
            },
    {
        match key {
            Some(key) => parse_route(key),
            None => {
                let idx = match self.state.selected() {
                    Some(i) => i,
                    None => 0,
                };
                if idx >= self.items.len() {
                    return Region::KR;
                }
                self.items[idx].1
            },
        }
    }
}

/// Whether `c` is whitespace: a character with the Unicode property
/// `White_Space`.
pub open spec fn white_space(c: char) -> bool {
    let n = c as u32;
    ||| 0x09 <= n <= 0x0D
    ||| n == 0x20
    ||| n == 0x85
    ||| n == 0xA0
    ||| n == 0x1680
    ||| 0x2000 <= n <= 0x200A
    ||| n == 0x2028
    ||| n == 0x2029
    ||| n == 0x202F
    ||| n == 0x205F
    ||| n == 0x3000
}

/// Whether `c` is whitespace.
pub fn is_white_space(c: char) -> (white: bool)
    ensures
        white == white_space(c),
{
    let n = c as u32;
    (0x09 <= n && n <= 0x0D) || n == 0x20 || n == 0x85 || n == 0xA0 || n == 0x1680 || (0x2000 <= n
        && n <= 0x200A) || n == 0x2028 || n == 0x2029 || n == 0x202F || n == 0x205F || n == 0x3000
}

/// The first index from `i` on at which `s` holds no whitespace; the length
/// of `s` where it holds whitespace from `i` to its end.
pub open spec fn first_kept(s: Seq<char>, i: int) -> int
    decreases s.len() - i,
{
    if 0 <= i < s.len() && white_space(s[i]) {
        first_kept(s, i + 1)
    } else {
        i
    }
}

/// The least end `j`, not below `from`, such that `s` holds only whitespace
/// from `j` up to `end`.
pub open spec fn last_kept(s: Seq<char>, from: int, end: int) -> int
    decreases end,
{
    if 0 <= from < end <= s.len() && white_space(s[end - 1]) {
        last_kept(s, from, end - 1)
    } else {
        end
    }
}

/// `s` without the whitespace at its start and at its end.
pub open spec fn trimmed(s: Seq<char>) -> Seq<char> {
    let from = first_kept(s, 0);
    s.subrange(from, last_kept(s, from, s.len() as int))
}

/// From `i` up to the first index that is kept, `s` holds whitespace only,
/// and at that index it holds none.
pub proof fn lemma_first_kept(s: Seq<char>, i: int)
    requires
        0 <= i <= s.len(),
    ensures
        i <= first_kept(s, i) <= s.len(),
        forall|j: int| i <= j < first_kept(s, i) ==> white_space(#[trigger] s[j]),
        first_kept(s, i) < s.len() ==> !white_space(s[first_kept(s, i)]),
    decreases s.len() - i,
{
    if i < s.len() && white_space(s[i]) {
        lemma_first_kept(s, i + 1);
    }
}

/// From the end that is kept up to `end`, `s` holds whitespace only, and
/// before that end, where it lies beyond `from`, it holds none.
pub proof fn lemma_last_kept(s: Seq<char>, from: int, end: int)
    requires
        0 <= from <= end <= s.len(),
    ensures
        from <= last_kept(s, from, end) <= end,
        forall|j: int| last_kept(s, from, end) <= j < end ==> white_space(#[trigger] s[j]),
        from < last_kept(s, from, end) ==> !white_space(s[last_kept(s, from, end) - 1]),
    decreases end,
{
    if from < end && white_space(s[end - 1]) {
        lemma_last_kept(s, from, end - 1);
    }
}

/// What is trimmed off a text is whitespace, and what is left neither
/// begins nor ends with whitespace.
pub proof fn lemma_trimmed(s: Seq<char>)
    ensures
        ({
            let from = first_kept(s, 0);
            let end = last_kept(s, from, s.len() as int);
            &&& 0 <= from <= end <= s.len()
            &&& trimmed(s) == s.subrange(from, end)
            &&& forall|j: int| 0 <= j < from ==> white_space(#[trigger] s[j])
            &&& forall|j: int| end <= j < s.len() ==> white_space(#[trigger] s[j])
            &&& trimmed(s).len() > 0 ==> !white_space(trimmed(s).first()) && !white_space(
                trimmed(s).last(),
            )
        }),
{
    lemma_first_kept(s, 0);
    lemma_last_kept(s, first_kept(s, 0), s.len() as int);
}

/// `name` without the whitespace at its start and at its end.
pub fn trim(name: &str) -> (out: String)
    ensures
        out@ == trimmed(name@),
{
    let len = name.unicode_len();
    let mut from: usize = 0;
    while from < len && is_white_space(name.get_char(from))
        invariant
            from <= len,
            len == name@.len(),
            first_kept(name@, 0) == first_kept(name@, from as int),
        decreases len - from,
    {
        from += 1;
    }
    let mut end: usize = len;
    while end > from && is_white_space(name.get_char(end - 1))
        invariant
            from <= end <= len,
            len == name@.len(),
            last_kept(name@, from as int, len as int) == last_kept(name@, from as int, end as int),
        decreases end,
    {
        end -= 1;
    }
    name.substring_char(from, end).to_owned()
}

/// What went wrong.
#[derive(Debug)]
pub enum WatcherErr {
    SearchFalied { name: String, puuid: String },
    Riot(String),
}

/// What the application is doing.
#[derive(Debug)]
pub enum State {
    /// The player of this name was found in this region, and the player's
    /// data is being fetched.
    Searching(String, Region),
    /// No player of this name was found in this region.
    Failed(String, Region),
    Error(WatcherErr),
    Idle,
}

/// A request to change the state.
#[derive(Debug)]
pub enum Msg {
    Quit,
    /// Give the focus to this pane.
    Focus(Window),
    /// Look the player of this name up in this region.
    Search(Region, String),
    /// Move the selection up.
    Up,
    /// Move the selection down.
    Down,
    /// Change nothing.
    NoOp,
}

/// The player that was found last: identifier and name.
#[derive(Debug)]
pub struct CurrentSearch(pub String, pub String);

/// The matches of the last search.
#[derive(Debug)]
pub enum Games {
    /// No matches were fetched.
    N,
    G(GamesList),
}

/// What the last search found.
#[derive(Debug)]
pub struct Data {
    pub rank: Option<Vec<LeagueEntryDisplay>>,
    pub current_search: Option<CurrentSearch>,
    /// The name and the code of the region of the quick search.
    pub env_search: Option<(String, String)>,
    pub masteries: Option<Vec<ChampionMasteryDisplay>>,
    pub summoner: Option<SummonerDisplay>,
    pub games: Games,
}

/// The state of the interactive mode.
#[derive(Debug)]
pub struct App {
    pub api_key: String,
    pub state: State,
    pub msg: Option<Msg>,
    pub focus: Option<Window>,
    pub data: Data,
    pub input: Input,
    pub route: Region,
    pub routes: RouteList,
    pub keys: Keys,
    pub log: Log,
}

/// A lookup that the application asks for.
#[derive(Debug)]
pub enum Fetch {
    /// The profile of the player called `name`.
    Summoner { route: Region, name: String },
    /// The standings of the player with the identifier `id`.
    Rank { route: Region, id: String },
    /// The `top` highest masteries of the player with the identifier `id`.
    Masteries { route: Region, id: String, top: usize },
    /// The matches of the player with the identifier `puuid`.
    Games { route: Region, puuid: String },
}

/// What a lookup returned. `None` stands for a lookup that failed, and for a
/// player that was not found.
#[derive(Debug)]
pub enum Fetched {
    Summoner(Option<Summoner>),
    Rank(Option<Vec<LeagueEntry>>),
    Masteries(Option<Vec<ChampionMastery>>),
    Games(Option<Vec<Match>>),
}

/// In which direction the selection moves.
#[derive(Clone, Copy, Debug, PartialEq, Eq, Structural)]
pub enum Direction {
    Up,
    Down,
}

/// How many masteries a search asks for.
pub const TOP_MASTERIES: usize = 10;

/// The standings, each ready to be shown.
pub fn wrap_rank(entries: Vec<LeagueEntry>) -> (shown: Vec<LeagueEntryDisplay>)
    ensures
        shown@.len() == entries@.len(),
        forall|i: int| 0 <= i < shown@.len() ==> (#[trigger] shown@[i]).0 == entries@[i],
{
    let mut shown: Vec<LeagueEntryDisplay> = Vec::new();
    let mut i: usize = 0;
    while i < entries.len()
        invariant
            i <= entries.len(),
            shown@.len() == i,
            forall|j: int| 0 <= j < i ==> (#[trigger] shown@[j]).0 == entries@[j],
        decreases entries.len() - i,
    {
        shown.push(LeagueEntryDisplay(entries[i].clone()));
        i += 1;
    }
    shown
}

/// The masteries, each ready to be shown.
pub fn wrap_masteries(entries: Vec<ChampionMastery>) -> (shown: Vec<ChampionMasteryDisplay>)
    ensures
        shown@.len() == entries@.len(),
        forall|i: int| 0 <= i < shown@.len() ==> (#[trigger] shown@[i]).0 == entries@[i],
{
    let mut shown: Vec<ChampionMasteryDisplay> = Vec::new();
    let mut i: usize = 0;
    while i < entries.len()
        invariant
            i <= entries.len(),
            shown@.len() == i,
            forall|j: int| 0 <= j < i ==> (#[trigger] shown@[j]).0 == entries@[j],
        decreases entries.len() - i,
    {
        shown.push(ChampionMasteryDisplay(entries[i]));
        i += 1;
    }
    shown
}

/// The matches, each ready to be shown.
pub fn wrap_games(entries: Vec<Match>) -> (shown: Vec<MatchDisplay>)
    ensures
        shown@.len() == entries@.len(),
        forall|i: int| 0 <= i < shown@.len() ==> (#[trigger] shown@[i]).0 == entries@[i],
{
    let mut entries = entries;
    let ghost all = entries@;
    let mut shown: Vec<MatchDisplay> = Vec::new();
    while entries.len() > 0
        invariant
            entries@.len() <= all.len(),
            entries@ == all.take(entries@.len() as int),
            shown@.len() == all.len() - entries@.len(),
            forall|j: int|
                0 <= j < shown@.len() ==> (#[trigger] shown@[j]).0 == all[all.len() - 1 - j],
        decreases entries.len(),
    {
        let last = entries.pop().unwrap();
        shown.push(MatchDisplay(last));
        assert(entries@ =~= all.take(entries@.len() as int));
    }
    let ghost reversed = shown@;
    let mut ordered: Vec<MatchDisplay> = Vec::new();
    while shown.len() > 0
        invariant
            shown@.len() <= reversed.len(),
            shown@ == reversed.take(shown@.len() as int),
            ordered@.len() == reversed.len() - shown@.len(),
            forall|j: int|
                0 <= j < ordered@.len() ==> #[trigger] ordered@[j] == reversed[reversed.len() - 1 - j],
        decreases shown.len(),
    {
        let last = shown.pop().unwrap();
        ordered.push(last);
        assert(shown@ =~= reversed.take(shown@.len() as int));
    }
    ordered
}

/// Whether `shown` holds the standings `found`, in their order: nothing
/// where nothing was found.
pub open spec fn shows_rank(
    found: Option<Vec<LeagueEntry>>,
    shown: Option<Vec<LeagueEntryDisplay>>,
) -> bool {
    match found {
        Some(entries) => shown matches Some(list) && list@.len() == entries@.len() && forall|i: int|
            0 <= i < list@.len() ==> (#[trigger] list@[i]).0 == entries@[i],
        None => shown is None,
    }
}

/// Whether `shown` holds the masteries `found`, in their order: nothing
/// where nothing was found.
pub open spec fn shows_masteries(
    found: Option<Vec<ChampionMastery>>,
    shown: Option<Vec<ChampionMasteryDisplay>>,
) -> bool {
    match found {
        Some(entries) => shown matches Some(list) && list@.len() == entries@.len() && forall|i: int|
            0 <= i < list@.len() ==> (#[trigger] list@[i]).0 == entries@[i],
        None => shown is None,
    }
}

/// Whether `shown` holds the matches `found`, in their order, with the
/// first selected where there is one: no list where nothing was found.
pub open spec fn shows_games(found: Option<Vec<Match>>, shown: Games) -> bool {
    match found {
        Some(entries) => shown matches Games::G(list) && list.items@.len() == entries@.len() && (
        forall|i: int| 0 <= i < list.items@.len() ==> (#[trigger] list.items@[i]).0 == entries@[i])
            && list.state.selected == (if entries@.len() > 0 {
            Some(0usize)
        } else {
            None
        }),
        None => shown is N,
    }
}

/// Whether `log` says that a search has finished.
pub open spec fn search_finished(log: Log) -> bool {
    log.kind == LogKind::Info && log.msg@ == "search finished"@
}

/// The list after the selection moved one step in `direction`.
pub open spec fn games_moved(list: GamesList, direction: Direction) -> GamesList {
    if list.items@.len() == 0 {
        list
    } else {
        GamesList {
            state: ListState {
                selected: Some(
                    match direction {
                        Direction::Up => index_before(list.state.selected, list.items@.len()) as usize,
                        Direction::Down => index_after(list.state.selected, list.items@.len()) as usize,
                    },
                ),
            },
            items: list.items,
        }
    }
}

/// The list after the selection moved one step in `direction`.
pub open spec fn routes_moved(list: RouteList, direction: Direction) -> RouteList {
    if list.items@.len() == 0 {
        list
    } else {
        RouteList {
            state: ListState {
                selected: Some(
                    match direction {
                        Direction::Up => index_before(list.state.selected, list.items@.len()) as usize,
                        Direction::Down => index_after(list.state.selected, list.items@.len()) as usize,
                    },
                ),
            },
            items: list.items,
        }
    }
}

/// The state after the selection moved one step in `direction`: with the
/// focus on the list of matches, the selected match changes; with the focus
/// on the list of regions, the selected region changes and becomes the
/// region of the next search; with the focus elsewhere, nothing changes.
pub open spec fn moved(app: App, direction: Direction) -> App {
    match app.focused() {
        Window::List => match app.data.games {
            Games::G(list) => App {
                data: Data { games: Games::G(games_moved(list, direction)), ..app.data },
                ..app
            },
            Games::N => app,
        },
        Window::Route => App {
            routes: routes_moved(app.routes, direction),
            route: routes_moved(app.routes, direction).current(),
            ..app
        },
        _ => app,
    }
}

/// What one returned lookup does to the state, and what it asks for next.
///
/// The profile starts the search that the pending message asks for. Where no
/// player was found, the status says for which name, trimmed, and in which
/// region the search failed, and nothing else changes but the log; what an
/// earlier search found stays. Where a player was found, the profile is
/// stored, what an earlier search found of standings, masteries and matches
/// is dropped, and the standings are asked for.
///
/// Standings, masteries and matches each fill their own section, with
/// nothing where the lookup failed, and ask for the next: the ten highest
/// masteries, then the matches. With the matches the search ends: the
/// pending message is gone, the focus is on the list of matches, the first
/// match is selected and the status is idle.
///
/// A lookup that the state does not wait for changes nothing.
pub open spec fn fetched_step(pre: App, event: Fetched, post: App, next: Option<Fetch>) -> bool {
    match event {
        Fetched::Summoner(found) => match pre.msg {
            Some(Msg::Search(route, name)) => match found {
                None => {
                    &&& next is None
                    &&& post.state matches State::Failed(n, r) && n@ == trimmed(name@) && r == route
                    &&& search_finished(post.log)
                    &&& post == (App { state: post.state, log: post.log, ..pre })
                },
                Some(summoner) => {
                    &&& next matches Some(Fetch::Rank { route: r, id }) && r == route && id@
                        == summoner.id@
                    &&& post.state matches State::Searching(n, r) && n@ == trimmed(name@) && r
                        == route
                    &&& post.data.summoner == Some(SummonerDisplay(summoner))
                    &&& post.data.current_search matches Some(current) && current.0@ == summoner.id@
                        && current.1@ == summoner.name@
                    &&& post.data.rank is None
                    &&& post.data.masteries is None
                    &&& post.data.games is N
                    &&& post.data.env_search == pre.data.env_search
                    &&& post == (App { state: post.state, data: post.data, ..pre })
                },
            },
            _ => next is None && post == pre,
        },
        Fetched::Rank(found) => match (pre.state, pre.data.current_search) {
            (State::Searching(_, route), Some(current)) => {
                &&& next matches Some(Fetch::Masteries { route: r, id, top }) && r == route && id@
                    == current.0@ && top == TOP_MASTERIES
                &&& shows_rank(found, post.data.rank)
                &&& post == (App { data: Data { rank: post.data.rank, ..pre.data }, ..pre })
            },
            _ => next is None && post == pre,
        },
        Fetched::Masteries(found) => match (pre.state, pre.data.summoner) {
            (State::Searching(_, route), Some(summoner)) => {
                &&& next matches Some(Fetch::Games { route: r, puuid }) && r == route && puuid@
                    == summoner.0.puuid@
                &&& shows_masteries(found, post.data.masteries)
                &&& post == (App { data: Data { masteries: post.data.masteries, ..pre.data }, ..pre })
            },
            _ => next is None && post == pre,
        },
        Fetched::Games(found) => match pre.state {
            State::Searching(_, _) => {
                &&& next is None
                &&& shows_games(found, post.data.games)
                &&& post.msg is None
                &&& post.focus == Some(Window::List)
                &&& post.state is Idle
                &&& search_finished(post.log)
                &&& post == (App {
                    data: Data { games: post.data.games, ..pre.data },
                    msg: post.msg,
                    focus: post.focus,
                    state: post.state,
                    log: post.log,
                    ..pre
                })
            },
            _ => next is None && post == pre,
        },
    }
}

impl App {
    /// The selections lie within their lists, and of matches that were
    /// found one is selected.
    pub open spec fn wf(&self) -> bool {
        &&& self.routes.wf()
        &&& self.data.games matches Games::G(list) ==> list.wf() && (list.items@.len() > 0
            ==> list.state.selected is Some)
    }

    /// The pane that has the focus: the header where none has it.
    pub open spec fn focused(&self) -> Window {
        match self.focus {
            Some(w) => w,
            None => Window::Header,
        }
    }

    /// The state at the start: nothing found, nothing typed, the region
    /// `KR`, and the focus on the list of matches.
    pub fn default() -> (app: App)
        ensures
            app.api_key@ == Seq::<char>::empty(),
            app.state is Idle,
            app.msg is None,
            app.focus == Some(Window::List),
            app.input.content@ == Seq::<char>::empty(),
            app.route == Region::KR,
            app.routes.state.selected is None,
            app.routes.items@.len() == all_regions().len(),
            forall|i: int|
                0 <= i < app.routes.items@.len() ==> (#[trigger] app.routes.items@[i]).1
                    == all_regions()[i] && app.routes.items@[i].0@ == all_regions()[i].spec_code(),
            app.keys@ == default_keys(),
            app.log.kind == LogKind::Info,
            app.log.msg@ == "App start"@,
            app.data.rank is None,
            app.data.current_search is None,
            app.data.env_search is None,
            app.data.masteries is None,
            app.data.summoner is None,
            app.data.games is N,
            app.wf(),
    {
        App {
            keys: Keys::default(),
            log: Log::new(LogKind::Info, "App start".to_owned()),
            api_key: String::new(),
            state: State::Idle,
            msg: None,
            focus: Some(Window::List),
            input: Input { content: String::new() },
            route: Region::KR,
            routes: RouteList::with(routes()),
            data: Data {
                rank: None,
                current_search: None,
                env_search: None,
                masteries: None,
                summoner: None,
                games: Games::N,
            },
        }
    }

    /// Applies the pending message. A change of focus and a move of the
    /// selection are done and the message is gone. A search empties the
    /// input and asks for the profile of the player of that name, trimmed;
    /// the message stays until the search has ended. Any other message
    /// changes nothing.
    pub fn msg(&mut self) -> (next: Option<Fetch>)
        ensures
            match old(self).msg {
                Some(Msg::Focus(w)) => next is None && *final(self) == (App {
                    focus: Some(w),
                    msg: None,
                    ..*old(self)
                }),
                Some(Msg::Up) => next is None && *final(self) == (App {
                    msg: None,
                    ..moved(*old(self), Direction::Up)
                }),
                Some(Msg::Down) => next is None && *final(self) == (App {
                    msg: None,
                    ..moved(*old(self), Direction::Down)
                }),
                Some(Msg::Search(route, name)) => {
                    &&& next matches Some(Fetch::Summoner { route: r, name: n }) && r == route && n@
                        == trimmed(name@)
                    &&& final(self).input.content@ == Seq::<char>::empty()
                    &&& *final(self) == (App { input: final(self).input, ..*old(self) })
                },
                _ => next is None && *final(self) == *old(self),
            },
            old(self).wf() ==> final(self).wf(),
    {
        let (focus, direction, search) = match &self.msg {
            Some(Msg::Focus(w)) => (Some(*w), None, None),
            Some(Msg::Up) => (None, Some(Direction::Up), None),
            Some(Msg::Down) => (None, Some(Direction::Down), None),
            Some(Msg::Search(route, name)) => (
                None,
                None,
                Some(Fetch::Summoner { route: *route, name: trim(name.as_str()) }),
            ),
            _ => (None, None, None),
        };
        if let Some(w) = focus {
            self.focus = Some(w);
            self.msg = None;
        }
        if let Some(d) = direction {
            self.move_selection(d);
            self.msg = None;
        }
        if search.is_some() {
            self.input.clear();
        }
        search
    }

    /// Takes what a lookup returned, and says what to look up next.
    pub fn fetched(&mut self, event: Fetched) -> (next: Option<Fetch>)
        ensures
            fetched_step(*old(self), event, *final(self), next),
            old(self).wf() ==> final(self).wf(),
    {
        match event {
            Fetched::Summoner(found) => {
                let (route, name) = match &self.msg {
                    Some(Msg::Search(route, name)) => (*route, trim(name.as_str())),
                    _ => {
                        return None;
                    },
                };
                match found {
                    None => {
                        self.state = State::Failed(name, route);
                        self.log = Log::new(LogKind::Info, "search finished".to_owned());
                        None
                    },
                    Some(summoner) => {
                        let id = summoner.id.clone();
                        self.state = State::Searching(name, route);
                        self.data.current_search = Some(
                            CurrentSearch(summoner.id.clone(), summoner.name.clone()),
                        );
                        self.data.summoner = Some(SummonerDisplay(summoner));
                        self.data.rank = None;
                        self.data.masteries = None;
                        self.data.games = Games::N;
                        Some(Fetch::Rank { route, id })
                    },
                }
            },
            Fetched::Rank(found) => {
                let route = match &self.state {
                    State::Searching(_, route) => *route,
                    _ => {
                        return None;
                    },
                };
                let id = match &self.data.current_search {
                    Some(current) => current.0.clone(),
                    None => {
                        return None;
                    },
                };
                self.data.rank = match found {
                    Some(entries) => Some(wrap_rank(entries)),
                    None => None,
                };
                Some(Fetch::Masteries { route, id, top: TOP_MASTERIES })
            },
            Fetched::Masteries(found) => {
                let route = match &self.state {
                    State::Searching(_, route) => *route,
                    _ => {
                        return None;
                    },
                };
                let puuid = match &self.data.summoner {
                    Some(summoner) => summoner.0.puuid.clone(),
                    None => {
                        return None;
                    },
                };
                self.data.masteries = match found {
                    Some(entries) => Some(wrap_masteries(entries)),
                    None => None,
                };
                Some(Fetch::Games { route, puuid })
            },
            Fetched::Games(found) => {
                match &self.state {
                    State::Searching(_, _) => {},
                    _ => {
                        return None;
                    },
                }
                self.data.games = match found {
                    Some(entries) => {
                        let mut list = GamesList::with(wrap_games(entries));
                        list.next();
                        Games::G(list)
                    },
                    None => Games::N,
                };
                self.msg = None;
                self.focus = Some(Window::List);
                self.state = State::Idle;
                self.log = Log::new(LogKind::Info, "search finished".to_owned());
                None
            },
        }
    }

    /// Stores the name and the region of the quick search, where both are
    /// given.
    pub fn get_env_search(&mut self, name: Option<String>, region: Option<String>) -> (r: Result<
        (),
        (),
    >)
        ensures
            match (name, region) {
                (Some(n), Some(c)) => r is Ok && *final(self) == (App {
                    data: Data { env_search: Some((n, c)), ..old(self).data },
                    ..*old(self)
                }),
                _ => r is Err && *final(self) == *old(self),
            },
    {
        match name {
            Some(name) => match region {
                Some(region) => {
                    self.data.env_search = Some((name, region));
                    Ok(())
                },
                None => Err(()),
            },
            None => Err(()),
        }
    }

    /// Gives the focus to the next pane; to the pane after the header where
    /// no pane has it.
    pub fn focus_next(&mut self)
        ensures
            *final(self) == (App { focus: Some(old(self).focused().spec_next()), ..*old(self) }),
    {
        let current = match self.focus {
            Some(w) => w,
            None => Window::Header,
        };
        self.focus = Some(current.next());
    }

    /// Moves the selection of the focused list one step in `direction`, and
    /// round its ends.
    pub fn move_selection(&mut self, direction: Direction)
        ensures
            *final(self) == moved(*old(self), direction),
            old(self).wf() ==> final(self).wf(),
    {
        let focused = match self.focus {
            Some(w) => w,
            None => Window::Header,
        };
        match focused {
            Window::List => match &mut self.data.games {
                Games::G(list) => match direction {
                    Direction::Up => list.previous(),
                    Direction::Down => list.next(),
                },
                Games::N => {},
            },
            Window::Route => {
                match direction {
                    Direction::Up => self.routes.previous(),
                    Direction::Down => self.routes.next(),
                }
                self.route = self.routes.get_item(None);
            },
            _ => {},
        }
    }

    /// Moves the selection of the focused list one step up.
    pub fn up(&mut self)
        ensures
            *final(self) == moved(*old(self), Direction::Up),
            old(self).wf() ==> final(self).wf(),
    {
        self.move_selection(Direction::Up)
    }

    /// Moves the selection of the focused list one step down.
    pub fn down(&mut self)
        ensures
            *final(self) == moved(*old(self), Direction::Down),
            old(self).wf() ==> final(self).wf(),
    {
        self.move_selection(Direction::Down)
    }

    /// The message of the enter key: with the focus on the list of regions,
    /// a search for what is typed in the chosen region; else none.
    pub fn enter(&self) -> (msg: Msg)
        ensures
            match self.focused() {
                Window::Route => msg matches Msg::Search(route, name) && route == self.route && name
                    == self.input.content,
                _ => msg is NoOp,
            },
    {
        let focused = match self.focus {
            Some(w) => w,
            None => Window::Header,
        };
        match focused {
            Window::Route => Msg::Search(self.route, self.input.content.clone()),
            _ => Msg::NoOp,
        }
    }

    /// The region with the code `text`; `KR` where no region has that code.
    pub fn into_route(&self, text: String) -> (region: Region)
        ensures
            region == region_of_code(text@),
    {
        self.routes.get_item(Some(text))
    }
}

/// With the focus on the list of matches, a step up from the first match
/// selects the last and a step down from the last selects the first; where
/// there are no matches, a step changes nothing.
pub proof fn lemma_move_selection_wraps(app: App)
    requires
        app.focused() == Window::List,
    ensures
        match app.data.games {
            Games::G(list) => {
                let len = list.items.len();
                &&& len >= 1 && list.state.selected == Some(0usize) ==> games_moved(
                    list,
                    Direction::Up,
                ).state.selected == Some((len - 1) as usize)
                &&& len >= 1 && list.state.selected == Some((len - 1) as usize) ==> games_moved(
                    list,
                    Direction::Down,
                ).state.selected == Some(0usize)
                &&& len == 0 ==> moved(app, Direction::Up) == app && moved(app, Direction::Down)
                    == app
                &&& moved(app, Direction::Up).data.games == Games::G(games_moved(list, Direction::Up))
                &&& moved(app, Direction::Down).data.games == Games::G(
                    games_moved(list, Direction::Down),
                )
            },
            Games::N => moved(app, Direction::Up) == app && moved(app, Direction::Down) == app,
        },
{
}

/// A search that finds a player replaces all that the search before it
/// found: after the four lookups the sections hold what these returned, and
/// a section whose lookup failed holds nothing, whatever it held before.
pub proof fn lemma_search_replaces(
    start: App,
    summoner: Summoner,
    rank: Option<Vec<LeagueEntry>>,
    masteries: Option<Vec<ChampionMastery>>,
    games: Option<Vec<Match>>,
    found: App,
    ranked: App,
    mastered: App,
    end: App,
    first: Option<Fetch>,
    second: Option<Fetch>,
    third: Option<Fetch>,
    last: Option<Fetch>,
)
    requires
        start.msg matches Some(Msg::Search(_, _)),
        fetched_step(start, Fetched::Summoner(Some(summoner)), found, first),
        fetched_step(found, Fetched::Rank(rank), ranked, second),
        fetched_step(ranked, Fetched::Masteries(masteries), mastered, third),
        fetched_step(mastered, Fetched::Games(games), end, last),
    ensures
        end.data.summoner == Some(SummonerDisplay(summoner)),
        shows_rank(rank, end.data.rank),
        shows_masteries(masteries, end.data.masteries),
        shows_games(games, end.data.games),
        end.state is Idle,
        end.focus == Some(Window::List),
        end.msg is None,
        last is None,
{
}

/// Whatever a lookup returns, the selections stay within their lists, and a
/// list of matches that is not empty has a match selected.
pub proof fn lemma_fetched_keeps_selection(pre: App, event: Fetched, post: App, next: Option<Fetch>)
    requires
        pre.wf(),
        fetched_step(pre, event, post, next),
    ensures
        post.wf(),
{
}

/// Moving the selection keeps it within its list.
pub proof fn lemma_moved_keeps_selection(app: App, direction: Direction)
    requires
        app.wf(),
    ensures
        moved(app, direction).wf(),
{
    match app.data.games {
        Games::G(list) => {
            assert(list.items.len() == list.items@.len());
        },
        Games::N => {},
    }
    assert(app.routes.items.len() == app.routes.items@.len());
}

/// A search that finds no player leaves what the search before it found.
pub proof fn lemma_failed_search_keeps(start: App, end: App, next: Option<Fetch>)
    requires
        start.msg matches Some(Msg::Search(_, _)),
        fetched_step(start, Fetched::Summoner(None), end, next),
    ensures
        end.data == start.data,
        end.focus == start.focus,
        end.state is Failed,
        next is None,
{
}

} // verus!
