//! Formatters: each turns one record into styled text.

use vstd::prelude::*;
use vstd::string::*;

use crate::records::{
    ChampionMastery, Division, LeagueEntry, Match, Participant, Summoner, Team, Tier,
};
use crate::text::{
    clone_line, decimal, decimal_string, empty_line, fill_len, fragment, line_ansi, line_to_ansi,
    plain, push_fragment, push_repeated, repeat, text_ansi, Color, Fragment, FragmentView, Style,
    StyledText,
};
use crate::ui::app::Window;

verus! {

/// The lines of `lines` that do not render as the empty string.
pub open spec fn visible_lines(lines: Seq<Seq<FragmentView>>) -> Seq<Seq<FragmentView>> {
    lines.filter(|line: Seq<FragmentView>| line_ansi(line).len() > 0)
}

/// Drops the lines that render as the empty string.
pub fn drop_empty_lines(text: &StyledText) -> (kept: StyledText)
    ensures
        kept@ == visible_lines(text@),
{
    let mut kept = StyledText::new();
    let mut i: usize = 0;
    proof {
        reveal(Seq::filter);
        assert(text@.take(0) =~= Seq::<Seq<FragmentView>>::empty());
    }
    while i < text.lines.len()
        invariant
            i <= text.lines.len(),
            kept@ == visible_lines(text@.take(i as int)),
        decreases text.lines.len() - i,
    {
        let rendered = line_to_ansi(&text.lines[i]);
        proof {
            reveal(Seq::filter);
            let all = text@;
            assert(all.take(i + 1).drop_last() =~= all.take(i as int));
            assert(all.take(i + 1).last() == text.lines[i as int].deep_view());
        }
        if !rendered.as_str().is_empty() {
            kept.push_line(clone_line(&text.lines[i]));
        }
        i += 1;
    }
    assert(text@.take(i as int) =~= text@);
    kept
}

/// A type that wraps one record.
pub trait With: Sized {
    type Struct;

    /// The record that the value wraps.
    spec fn entry(&self) -> Self::Struct;

    fn with(entry: Self::Struct) -> (wrapped: Self)
        ensures
            wrapped.entry() == entry,
    ;
}

/// A type that is shown as styled text.
pub trait DisplayToText: Sized {
    /// The value as styled text, line by line.
    spec fn styled(&self) -> Seq<Seq<FragmentView>>;

    /// The value as styled text, line by line.
    fn format(&self) -> (text: StyledText)
        ensures
            text@ == self.styled(),
    ;

    /// The value as one string with escape sequences.
    fn to_string(&self) -> (out: String)
        ensures
            out@ == text_ansi(self.styled()),
    {
        self.format().to_ansi()
    }

    /// The value as styled text, without the lines that render as the empty
    /// string.
    fn into_text(&self) -> (text: StyledText)
        ensures
            text@ == visible_lines(self.styled()),
    {
        drop_empty_lines(&self.format())
    }
}

/// The text that stands for data that is not there: one plain line.
pub open spec fn no_data_text() -> Seq<Seq<FragmentView>> {
    seq![seq![plain("no data"@)]]
}

/// The text that stands for data that is not there.
pub fn no_data() -> (text: StyledText)
    ensures
        text@ == no_data_text(),
{
    StyledText::styled("no data", Style::plain())
}

/// A player's profile, ready to be shown.
#[derive(Debug)]
pub struct SummonerDisplay(pub Summoner);

/// The profile's lines: an empty line; the name, blue, bold and underlined,
/// two spaces, `lvl` in the terminal's own colour, a colon and the level in
/// cyan; a line of spaces.
pub open spec fn summoner_text(s: Summoner) -> Seq<Seq<FragmentView>> {
    seq![
        Seq::empty(),
        seq![
            fragment(s.name@, Some(Color::Blue), true, true),
            plain("  "@),
            fragment("lvl"@, Some(Color::Reset), false, false),
            plain(":"@),
            fragment(decimal(s.summoner_level as nat), Some(Color::Cyan), false, false),
        ],
        seq![plain(repeat(' ', 27))],
    ]
}

impl With for SummonerDisplay {
    type Struct = Summoner;

    open spec fn entry(&self) -> Summoner {
        self.0
    }

    fn with(entry: Summoner) -> (wrapped: SummonerDisplay) {
        SummonerDisplay(entry)
    }
}

/// A plain fragment of `n` spaces.
pub fn spaces(n: usize) -> (f: Fragment)
    ensures
        f@ == plain(repeat(' ', n as nat)),
{
    let mut text = String::new();
    push_repeated(&mut text, ' ', n);
    assert(text@ =~= repeat(' ', n as nat));
    Fragment::new(text, Style::plain())
}

impl DisplayToText for SummonerDisplay {
    open spec fn styled(&self) -> Seq<Seq<FragmentView>> {
        summoner_text(self.0)
    }

    fn format(&self) -> (text: StyledText) {
        let mut text = StyledText::new();
        text.push_line(empty_line());
        let mut line = empty_line();
        push_fragment(
            &mut line,
            Fragment::styled(self.0.name.as_str(), Style::colored(Color::Blue).bold().underlined()),
        );
        push_fragment(&mut line, Fragment::plain("  "));
        push_fragment(&mut line, Fragment::styled("lvl", Style::colored(Color::Reset)));
        push_fragment(&mut line, Fragment::plain(":"));
        push_fragment(
            &mut line,
            Fragment::new(decimal_string(self.0.summoner_level), Style::colored(Color::Cyan)),
        );
        text.push_line(line);
        let mut last = empty_line();
        push_fragment(&mut last, spaces(27));
        text.push_line(last);
        assert(text@ =~~= summoner_text(self.0));
        text
    }
}

impl Default for SummonerDisplay {
    /// A profile to try the display with.
    fn default() -> (d: SummonerDisplay)
        ensures
            d.0.name@ == "test"@,
            d.0.id@ == "lol"@,
            d.0.puuid@ == "24365"@,
            d.0.summoner_level == 69,
    {
        SummonerDisplay(
            Summoner {
                name: "test".to_owned(),
                id: "lol".to_owned(),
                puuid: "24365".to_owned(),
                summoner_level: 69,
            },
        )
    }
}

/// The share of wins among `wins + losses` games in percent, rounded down;
/// nothing where no game was played.
pub open spec fn win_percentage_of(wins: nat, losses: nat) -> Option<nat> {
    if wins + losses == 0 {
        None
    } else {
        Some((wins * 100) / (wins + losses))
    }
}

/// The share of wins among `wins + losses` games in percent, rounded down;
/// `None` where no game was played.
pub fn win_percentage(wins: u32, losses: u32) -> (p: Option<u32>)
    ensures
        win_percentage_of(wins as nat, losses as nat) == match p {
            Some(n) => Some(n as nat),
            None => None,
        },
        p matches Some(n) ==> n <= 100,
{
    let games: u64 = wins as u64 + losses as u64;
    if games == 0 {
        None
    } else {
        let share: u64 = (wins as u64 * 100) / games;
        assert(share <= 100) by (nonlinear_arith)
            requires
                share == (wins as int * 100) / (games as int),
                games >= wins,
                games > 0,
        ;
        Some(share as u32)
    }
}

/// The name of the tier, IRON where there is none.
pub open spec fn tier_label(tier: Option<Tier>) -> Seq<char> {
    match tier {
        Some(t) => t.spec_name(),
        None => Tier::Iron.spec_name(),
    }
}

/// The name of the division, I where there is none.
pub open spec fn division_label(rank: Option<Division>) -> Seq<char> {
    match rank {
        Some(d) => d.spec_name(),
        None => Division::I.spec_name(),
    }
}

/// The share of wins in cyan and bold, with a percent sign after it; `N/A`
/// where no game was played.
pub open spec fn percentage_fragments(wins: nat, losses: nat) -> Seq<FragmentView> {
    match win_percentage_of(wins, losses) {
        Some(p) => seq![fragment(decimal(p), Some(Color::Cyan), true, false), plain("%"@)],
        None => seq![fragment("N/A"@, Some(Color::Cyan), true, false)],
    }
}

/// The mark of a winning streak, and of none.
pub open spec fn streak_mark(hot_streak: bool) -> Seq<char> {
    if hot_streak {
        "\u{1F525}"@
    } else {
        "\u{2744}"@
    }
}

/// A standing's lines: an empty line; the player's name in yellow; the
/// queue in grey, bold and underlined; tier and division; wins, losses and
/// the share of wins; the streak mark, underlined; a line of spaces. All
/// but the first two lines begin with four spaces.
pub open spec fn league_text(e: LeagueEntry) -> Seq<Seq<FragmentView>> {
    seq![
        Seq::empty(),
        seq![fragment(e.summoner_name@, Some(Color::Yellow), false, false)],
        seq![plain("    "@), fragment(e.queue_type@, Some(Color::Grey), true, true)],
        seq![
            plain("    "@),
            fragment(tier_label(e.tier), Some(Color::Yellow), false, false),
            plain(" "@),
            fragment(division_label(e.rank), Some(Color::Blue), false, false),
        ],
        seq![
            plain("    "@),
            fragment(decimal(e.wins as nat), Some(Color::Green), false, false),
            plain("/"@),
            fragment(decimal(e.losses as nat), Some(Color::Red), false, false),
            plain("  "@),
        ] + percentage_fragments(e.wins as nat, e.losses as nat),
        seq![plain("    "@), fragment(streak_mark(e.hot_streak), None, false, true)],
        seq![plain(repeat(' ', 12))],
    ]
}

/// A player's standing in one queue, ready to be shown.
#[derive(Debug)]
pub struct LeagueEntryDisplay(pub LeagueEntry);

impl With for LeagueEntryDisplay {
    type Struct = LeagueEntry;

    open spec fn entry(&self) -> LeagueEntry {
        self.0
    }

    fn with(entry: LeagueEntry) -> (wrapped: LeagueEntryDisplay) {
        LeagueEntryDisplay(entry)
    }
}

impl DisplayToText for LeagueEntryDisplay {
    open spec fn styled(&self) -> Seq<Seq<FragmentView>> {
        league_text(self.0)
    }

    fn format(&self) -> (text: StyledText) {
        let e = &self.0;
        let mut text = StyledText::new();
        text.push_line(empty_line());

        let mut name = empty_line();
        push_fragment(
            &mut name,
            Fragment::styled(e.summoner_name.as_str(), Style::colored(Color::Yellow)),
        );
        text.push_line(name);

        let mut queue = empty_line();
        push_fragment(&mut queue, Fragment::plain("    "));
        push_fragment(
            &mut queue,
            Fragment::styled(e.queue_type.as_str(), Style::colored(Color::Grey).bold().underlined()),
        );
        text.push_line(queue);

        let tier = match e.tier {
            Some(t) => t.name(),
            None => Tier::Iron.name(),
        };
        let division = match e.rank {
            Some(d) => d.name(),
            None => Division::I.name(),
        };
        let mut rank = empty_line();
        push_fragment(&mut rank, Fragment::plain("    "));
        push_fragment(&mut rank, Fragment::styled(tier, Style::colored(Color::Yellow)));
        push_fragment(&mut rank, Fragment::plain(" "));
        push_fragment(&mut rank, Fragment::styled(division, Style::colored(Color::Blue)));
        text.push_line(rank);

        let mut games = empty_line();
        push_fragment(&mut games, Fragment::plain("    "));
        push_fragment(
            &mut games,
            Fragment::new(decimal_string(e.wins as u64), Style::colored(Color::Green)),
        );
        push_fragment(&mut games, Fragment::plain("/"));
        push_fragment(
            &mut games,
            Fragment::new(decimal_string(e.losses as u64), Style::colored(Color::Red)),
        );
        push_fragment(&mut games, Fragment::plain("  "));
        match win_percentage(e.wins, e.losses) {
            Some(p) => {
                push_fragment(
                    &mut games,
                    Fragment::new(decimal_string(p as u64), Style::colored(Color::Cyan).bold()),
                );
                push_fragment(&mut games, Fragment::plain("%"));
            },
            None => {
                push_fragment(
                    &mut games,
                    Fragment::styled("N/A", Style::colored(Color::Cyan).bold()),
                );
            },
        }
        assert(games.deep_view() =~= league_text(self.0)[4]);
        text.push_line(games);

        let mark = if e.hot_streak {
            "\u{1F525}"
        } else {
            "\u{2744}"
        };
        let mut streak = empty_line();
        push_fragment(&mut streak, Fragment::plain("    "));
        push_fragment(&mut streak, Fragment::styled(mark, Style::plain().underlined()));
        text.push_line(streak);

        let mut last = empty_line();
        push_fragment(&mut last, spaces(12));
        text.push_line(last);
        assert(text@ =~~= league_text(self.0));
        text
    }
}

/// Plain spaces that bring `fragment`, rendered with its escape sequences,
/// to `amount` bytes; an empty fragment where it is that long already.
pub open spec fn pad_after(fragment: FragmentView, amount: nat) -> FragmentView {
    plain(repeat(' ', fill_len(fragment.ansi(), amount)))
}

/// The spaces that bring `fragment`, rendered with its escape sequences, to
/// `amount` bytes.
pub fn pad_for(fragment: &Fragment, amount: usize) -> (pad: Fragment)
    ensures
        pad@ == pad_after(fragment@, amount as nat),
{
    let rendered = fragment.to_ansi();
    let len = rendered.as_str().as_bytes().len();
    let fill: usize = if amount > len {
        amount - len
    } else {
        0
    };
    spaces(fill)
}

/// Appends `fragment` to `line`, and after it the spaces that bring it to
/// `amount` bytes.
pub fn push_padded(line: &mut Vec<Fragment>, fragment: Fragment, amount: usize)
    ensures
        final(line).deep_view() == old(line).deep_view().push(fragment@).push(
            pad_after(fragment@, amount as nat),
        ),
{
    let pad = pad_for(&fragment, amount);
    push_fragment(line, fragment);
    push_fragment(line, pad);
}

/// What `riven::consts::Champion::name` returns for the champion with the
/// number `id`: its name, or nothing where the number is not that of a
/// champion.
pub uninterp spec fn champion_name_of(id: i16) -> Option<Seq<char>>;

/// Looks the champion's name up with `riven::consts::Champion::name`, which
/// matches the number against a fixed table.
#[verifier::external_body]
fn champion_name(id: i16) -> (name: Option<String>)
    ensures
        match name {
            Some(n) => champion_name_of(id) == Some(n@),
            None => champion_name_of(id) is None,
        },
{
    riven::consts::Champion(id).name().map(|name| name.to_string())
}

/// The name under which a champion is shown: `UNKNOWN` where it has none.
pub open spec fn champion_label(name: Option<Seq<char>>) -> Seq<char> {
    match name {
        Some(n) => n,
        None => "UNKNOWN"@,
    }
}

/// The line of a mastery: the champion's name in green, brought to 30
/// bytes; the points in yellow, brought to 23 bytes; the level in cyan and
/// bold, in brackets.
pub open spec fn mastery_line(name: Seq<char>, points: nat, level: nat) -> Seq<FragmentView> {
    let champion = fragment(name, Some(Color::Green), false, false);
    let score = fragment(decimal(points), Some(Color::Yellow), false, false);
    seq![
        champion,
        pad_after(champion, 30),
        plain(" "@),
        score,
        pad_after(score, 23),
        plain(" ("@),
        fragment(decimal(level), Some(Color::Cyan), true, false),
        plain(")"@),
    ]
}

/// The line of a mastery of the champion that `name` names, if it names
/// one.
pub fn format_mastery(name: Option<String>, points: u32, level: u32) -> (line: Vec<Fragment>)
    ensures
        line.deep_view() == mastery_line(
            champion_label(
                match name {
                    Some(n) => Some(n@),
                    None => None,
                },
            ),
            points as nat,
            level as nat,
        ),
{
    let champion = match name {
        Some(n) => Fragment::new(n, Style::colored(Color::Green)),
        None => Fragment::styled("UNKNOWN", Style::colored(Color::Green)),
    };
    let mut line = empty_line();
    push_padded(&mut line, champion, 30);
    push_fragment(&mut line, Fragment::plain(" "));
    push_padded(
        &mut line,
        Fragment::new(decimal_string(points as u64), Style::colored(Color::Yellow)),
        23,
    );
    push_fragment(&mut line, Fragment::plain(" ("));
    push_fragment(
        &mut line,
        Fragment::new(decimal_string(level as u64), Style::colored(Color::Cyan).bold()),
    );
    push_fragment(&mut line, Fragment::plain(")"));
    assert(line.deep_view() =~= mastery_line(
        champion_label(
            match name {
                Some(n) => Some(n@),
                None => None,
            },
        ),
        points as nat,
        level as nat,
    ));
    line
}

/// A mastery's text: its one line, under the champion's name.
pub open spec fn mastery_text(m: ChampionMastery) -> Seq<Seq<FragmentView>> {
    seq![
        mastery_line(
            champion_label(champion_name_of(m.champion_id)),
            m.champion_points as nat,
            m.champion_level as nat,
        ),
    ]
}

/// A player's mastery of one champion, ready to be shown.
#[derive(Clone, Copy, Debug)]
pub struct ChampionMasteryDisplay(pub ChampionMastery);

impl With for ChampionMasteryDisplay {
    type Struct = ChampionMastery;

    open spec fn entry(&self) -> ChampionMastery {
        self.0
    }

    fn with(entry: ChampionMastery) -> (wrapped: ChampionMasteryDisplay) {
        ChampionMasteryDisplay(entry)
    }
}

impl DisplayToText for ChampionMasteryDisplay {
    open spec fn styled(&self) -> Seq<Seq<FragmentView>> {
        mastery_text(self.0)
    }

    fn format(&self) -> (text: StyledText) {
        let name = champion_name(self.0.champion_id);
        let line = format_mastery(name, self.0.champion_points, self.0.champion_level);
        let mut text = StyledText::new();
        text.push_line(line);
        assert(text@ =~= mastery_text(self.0));
        text
    }
}

/// Kills, deaths and assists, with a slash between each two.
pub open spec fn kda(p: Participant) -> Seq<char> {
    decimal(p.kills as nat) + "/"@ + decimal(p.deaths as nat) + "/"@ + decimal(p.assists as nat)
}

/// A participant's line: six spaces; the position in cyan, brought to 25
/// bytes; the player's name in red, brought to 35 bytes; the champion in
/// yellow, brought to 30 bytes; a bar; kills, deaths and assists in green,
/// brought to 20 bytes; the minions killed in cyan.
pub open spec fn participant_line(p: Participant) -> Seq<FragmentView> {
    let position = fragment(p.team_position@, Some(Color::Cyan), false, false);
    let player = fragment(p.summoner_name@, Some(Color::Red), false, false);
    let champion = fragment(p.champion_name@, Some(Color::Yellow), false, false);
    let score = fragment(kda(p), Some(Color::Green), false, false);
    seq![
        plain("      "@),
        position,
        pad_after(position, 25),
        plain(" "@),
        player,
        pad_after(player, 35),
        plain(" "@),
        champion,
        pad_after(champion, 30),
        plain("  |  "@),
        score,
        pad_after(score, 20),
        plain(" "@),
        fragment(decimal(p.total_minions_killed as nat), Some(Color::Cyan), false, false),
    ]
}

/// The lines of the participants that played on `team`, in their order.
pub open spec fn team_lines(participants: Seq<Participant>, team: Team) -> Seq<Seq<FragmentView>> {
    participants.filter(|p: Participant| p.team == team).map_values(
        |p: Participant| participant_line(p),
    )
}

/// A match's lines: the game mode in the terminal's own colour, bold and
/// underlined; the heading of the red side and its participants; the
/// heading of the blue side and its participants.
pub open spec fn match_text(m: Match) -> Seq<Seq<FragmentView>> {
    seq![
        seq![fragment(m.game_mode@, Some(Color::Reset), true, true)],
        seq![fragment("Team Red"@, Some(Color::Red), true, true)],
    ] + team_lines(m.participants@, Team::Red) + seq![
        seq![fragment("Team Blue"@, Some(Color::Blue), true, true)],
    ] + team_lines(m.participants@, Team::Blue)
}

/// The line of one participant.
pub fn format_participant(p: &Participant) -> (line: Vec<Fragment>)
    ensures
        line.deep_view() == participant_line(*p),
{
    let mut score = decimal_string(p.kills as u64);
    score.append("/");
    let deaths = decimal_string(p.deaths as u64);
    score.append(deaths.as_str());
    score.append("/");
    let assists = decimal_string(p.assists as u64);
    score.append(assists.as_str());
    assert(score@ =~= kda(*p));

    let mut line = empty_line();
    push_fragment(&mut line, Fragment::plain("      "));
    push_padded(
        &mut line,
        Fragment::styled(p.team_position.as_str(), Style::colored(Color::Cyan)),
        25,
    );
    push_fragment(&mut line, Fragment::plain(" "));
    push_padded(
        &mut line,
        Fragment::styled(p.summoner_name.as_str(), Style::colored(Color::Red)),
        35,
    );
    push_fragment(&mut line, Fragment::plain(" "));
    push_padded(
        &mut line,
        Fragment::styled(p.champion_name.as_str(), Style::colored(Color::Yellow)),
        30,
    );
    push_fragment(&mut line, Fragment::plain("  |  "));
    push_padded(&mut line, Fragment::new(score, Style::colored(Color::Green)), 20);
    push_fragment(&mut line, Fragment::plain(" "));
    push_fragment(
        &mut line,
        Fragment::new(decimal_string(p.total_minions_killed as u64), Style::colored(Color::Cyan)),
    );
    assert(line.deep_view() =~= participant_line(*p));
    line
}

/// Appends the lines of the participants that played on `team`.
pub fn push_team_lines(text: &mut StyledText, participants: &Vec<Participant>, team: Team)
    ensures
        final(text)@ == old(text)@ + team_lines(participants@, team),
{
    let mut i: usize = 0;
    proof {
        reveal(Seq::filter);
        assert(participants@.take(0) =~= Seq::<Participant>::empty());
        assert(text@ =~= old(text)@ + team_lines(participants@.take(0), team));
    }
    while i < participants.len()
        invariant
            i <= participants.len(),
            text@ == old(text)@ + team_lines(participants@.take(i as int), team),
        decreases participants.len() - i,
    {
        proof {
            reveal(Seq::filter);
            assert(participants@.take(i + 1).drop_last() =~= participants@.take(i as int));
            assert(participants@.take(i + 1).last() == participants@[i as int]);
        }
        if participants[i].team == team {
            text.push_line(format_participant(&participants[i]));
            assert(text@ =~= old(text)@ + team_lines(participants@.take(i + 1), team));
        }
        i += 1;
    }
    assert(participants@.take(i as int) =~= participants@);
}

/// Whether a participant is called `name`, character by character.
pub open spec fn is_called(name: Seq<char>) -> spec_fn(Participant) -> bool {
    |p: Participant| p.summoner_name@ == name
}

/// The label of a match in a list of matches: `won` in green where the
/// participant called `name` won, `lose` in red where that participant
/// lost, both bold; `no_data` in red where no participant is called `name`.
/// The name is compared character by character. Where several participants
/// have the name, the last of them counts.
pub open spec fn match_label(participants: Seq<Participant>, name: Seq<char>) -> FragmentView {
    let named = participants.filter(is_called(name));
    if named.len() == 0 {
        fragment("no_data"@, Some(Color::Red), false, false)
    } else if named.last().win {
        fragment("won"@, Some(Color::Green), true, false)
    } else {
        fragment("lose"@, Some(Color::Red), true, false)
    }
}

/// One finished match, ready to be shown.
#[derive(Debug)]
pub struct MatchDisplay(pub Match);

impl With for MatchDisplay {
    type Struct = Match;

    open spec fn entry(&self) -> Match {
        self.0
    }

    fn with(entry: Match) -> (wrapped: MatchDisplay) {
        MatchDisplay(entry)
    }
}

impl DisplayToText for MatchDisplay {
    open spec fn styled(&self) -> Seq<Seq<FragmentView>> {
        match_text(self.0)
    }

    fn format(&self) -> (text: StyledText) {
        let m = &self.0;
        let mut text = StyledText::new();
        let mut mode = empty_line();
        push_fragment(
            &mut mode,
            Fragment::styled(m.game_mode.as_str(), Style::colored(Color::Reset).bold().underlined()),
        );
        text.push_line(mode);
        let mut red = empty_line();
        push_fragment(
            &mut red,
            Fragment::styled("Team Red", Style::colored(Color::Red).bold().underlined()),
        );
        text.push_line(red);
        push_team_lines(&mut text, &m.participants, Team::Red);
        let mut blue = empty_line();
        push_fragment(
            &mut blue,
            Fragment::styled("Team Blue", Style::colored(Color::Blue).bold().underlined()),
        );
        text.push_line(blue);
        push_team_lines(&mut text, &m.participants, Team::Blue);
        assert(text@ =~= match_text(self.0));
        text
    }
}

impl MatchDisplay {
    /// The label that the match has for the player called `name`.
    pub fn label(&self, name: &str) -> (label: Fragment)
        ensures
            label@ == match_label(self.0.participants@, name@),
    {
        let participants = &self.0.participants;
        let mut won: Option<bool> = None;
        let mut i: usize = 0;
        let ghost named = is_called(name@);
        proof {
            reveal(Seq::filter);
            assert(participants@.take(0) =~= Seq::<Participant>::empty());
        }
        while i < participants.len()
            invariant
                i <= participants.len(),
                named == is_called(name@),
                match won {
                    Some(w) => participants@.take(i as int).filter(named).len() > 0
                        && participants@.take(i as int).filter(named).last().win == w,
                    None => participants@.take(i as int).filter(named).len() == 0,
                },
            decreases participants.len() - i,
        {
            proof {
                reveal(Seq::filter);
                assert(participants@.take(i + 1).drop_last() =~= participants@.take(i as int));
                assert(participants@.take(i + 1).last() == participants@[i as int]);
            }
            if participants[i].summoner_name.as_str().eq(name) {
                won = Some(participants[i].win);
            }
            i += 1;
        }
        assert(participants@.take(i as int) =~= participants@);
        match won {
            Some(true) => Fragment::styled("won", Style::colored(Color::Green).bold()),
            Some(false) => Fragment::styled("lose", Style::colored(Color::Red).bold()),
            None => Fragment::styled("no_data", Style::colored(Color::Red)),
        }
    }

    /// The match as an entry of a list of matches: one line with the label
    /// that the match has for the player called `name`. The match stays as
    /// it is.
    pub fn list(&mut self, name: String) -> (lines: Vec<Vec<Fragment>>)
        ensures
            lines.deep_view() == seq![seq![match_label(old(self).0.participants@, name@)]],
            *final(self) == *old(self),
    {
        let mut line = empty_line();
        push_fragment(&mut line, self.label(name.as_str()));
        let mut lines: Vec<Vec<Fragment>> = Vec::new();
        lines.push(line);
        assert(lines.deep_view() =~= seq![seq![match_label(self.0.participants@, name@)]]);
        lines
    }
}

/// Where one participant alone is called `name`, the label says whether
/// that participant won.
pub proof fn lemma_label_of_the_one(participants: Seq<Participant>, name: Seq<char>, at: int)
    requires
        0 <= at < participants.len(),
        participants[at].summoner_name@ == name,
        forall|j: int|
            0 <= j < participants.len() && j != at ==> (#[trigger] participants[j]).summoner_name@
                != name,
    ensures
        match_label(participants, name) == if participants[at].win {
            fragment("won"@, Some(Color::Green), true, false)
        } else {
            fragment("lose"@, Some(Color::Red), true, false)
        },
{
    assert(participants.take(participants.len() as int) =~= participants);
    lemma_named_alone(participants, name, at, participants.len() as int);
    let found = participants.filter(is_called(name));
    assert(found == seq![participants[at]]);
    assert(found.last() == participants[at]);
}

/// Where no participant is called `name`, the label says that nothing is
/// known.
pub proof fn lemma_label_of_none(participants: Seq<Participant>, name: Seq<char>)
    requires
        forall|j: int| 0 <= j < participants.len() ==> (#[trigger] participants[j]).summoner_name@ != name,
    ensures
        match_label(participants, name) == fragment("no_data"@, Some(Color::Red), false, false),
{
    assert(participants.take(participants.len() as int) =~= participants);
    lemma_named_none(participants, name, participants.len() as int);
}

/// Where no participant is called `name`, none of the first `upto` is.
proof fn lemma_named_none(participants: Seq<Participant>, name: Seq<char>, upto: int)
    requires
        0 <= upto <= participants.len(),
        forall|j: int| 0 <= j < participants.len() ==> (#[trigger] participants[j]).summoner_name@ != name,
    ensures
        participants.take(upto).filter(is_called(name)) == Seq::<Participant>::empty(),
    decreases upto,
{
    reveal(Seq::filter);
    if upto == 0 {
        assert(participants.take(0) =~= Seq::<Participant>::empty());
    } else {
        lemma_named_none(participants, name, upto - 1);
        assert(participants.take(upto).drop_last() =~= participants.take(upto - 1));
        assert(participants.take(upto).last() == participants[upto - 1]);
    }
}

/// Among the first `upto` participants, those called `name` are none
/// before the place `at` and the one at `at` from there on.
proof fn lemma_named_alone(participants: Seq<Participant>, name: Seq<char>, at: int, upto: int)
    requires
        0 <= at < participants.len(),
        0 <= upto <= participants.len(),
        participants[at].summoner_name@ == name,
        forall|j: int|
            0 <= j < participants.len() && j != at ==> (#[trigger] participants[j]).summoner_name@
                != name,
    ensures
        participants.take(upto).filter(is_called(name)) == if upto <= at {
            Seq::<Participant>::empty()
        } else {
            seq![participants[at]]
        },
    decreases upto,
{
    reveal(Seq::filter);
    let named = is_called(name);
    if upto == 0 {
        assert(participants.take(0) =~= Seq::<Participant>::empty());
    } else {
        lemma_named_alone(participants, name, at, upto - 1);
        assert(participants.take(upto).drop_last() =~= participants.take(upto - 1));
        assert(participants.take(upto).last() == participants[upto - 1]);
        if upto - 1 == at {
            assert(participants.take(upto).filter(named) =~= seq![participants[at]]);
        }
    }
}

/// An empty line, and after it the lines of all of `texts`, in their order.
pub open spec fn concat_lines(texts: Seq<Seq<Seq<FragmentView>>>) -> Seq<Seq<FragmentView>> {
    seq![Seq::<FragmentView>::empty()] + texts.flatten()
}

/// One text of an empty line and the lines of all of `texts`.
pub fn concat_text(texts: Vec<StyledText>) -> (text: StyledText)
    ensures
        text@ == concat_lines(texts.deep_view()),
{
    let mut text = StyledText::new();
    text.push_line(empty_line());
    let mut i: usize = 0;
    proof {
        assert(texts.deep_view().take(0) =~= Seq::<Seq<Seq<FragmentView>>>::empty());
        assert(text@ =~= concat_lines(texts.deep_view().take(0)));
    }
    while i < texts.len()
        invariant
            i <= texts.len(),
            text@ == concat_lines(texts.deep_view().take(i as int)),
        decreases texts.len() - i,
    {
        let part = &texts[i];
        let ghost before = text@;
        let mut j: usize = 0;
        assert(text@ =~= before + part@.take(0));
        while j < part.lines.len()
            invariant
                j <= part.lines.len(),
                text@ == before + part@.take(j as int),
            decreases part.lines.len() - j,
        {
            text.push_line(clone_line(&part.lines[j]));
            assert(text@ =~= before + part@.take(j + 1));
            j += 1;
        }
        proof {
            let all = texts.deep_view();
            assert(part@.take(j as int) =~= part@);
            assert(all.take(i + 1) =~= all.take(i as int).push(part@));
            all.take(i as int).lemma_flatten_push(part@);
            assert(text@ =~= concat_lines(all.take(i + 1)));
        }
        i += 1;
    }
    assert(texts.deep_view().take(i as int) =~= texts.deep_view());
    text
}

/// The colour of a pane's border: the first of `colors` where the pane
/// `curr` has the focus, the second where it has not. Without `colors` the
/// border is black with the focus and white without.
pub open spec fn border_style(
    curr: Window,
    focused: Option<Window>,
    colors: Option<(Color, Color)>,
) -> Style {
    let pair = match colors {
        Some(c) => c,
        None => (Color::Black, Color::White),
    };
    Style {
        fg: Some(
            if focused == Some(curr) {
                pair.0
            } else {
                pair.1
            },
        ),
        bold: false,
        underline: false,
    }
}

/// The style of the border of the pane `curr`, given which pane has the
/// focus.
pub fn border_color(
    curr: Window,
    focused: Option<Window>,
    colors: Option<(Color, Color)>,
) -> (style: Style)
    ensures
        style == border_style(curr, focused, colors),
{
    let color = match colors {
        Some(c) => c,
        None => (Color::Black, Color::White),
    };
    if let Some(focused) = focused {
        if curr == focused {
            return Style::colored(color.0);
        }
    }
    Style::colored(color.1)
}

} // verus!
