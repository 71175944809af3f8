//! The arguments of the command line: how each is read, and what they ask
//! for.

use vstd::prelude::*;
use vstd::string::*;

use crate::text::{
    empty_line, fragment, plain, push_fragment, Color, Fragment, FragmentView, Style, StyledText,
};
use crate::utils::{
    all_regions, is_region_code, lemma_route_names, parse_number, parsed_number, region_of_code,
    route_of, Region, ROUTE_NAMES,
};

verus! {

/// One argument, read.
#[derive(Debug)]
pub enum Arg {
    Route(Region),
    /// A player's name.
    Indent(String),
    Int(usize),
    HelpFlag,
    SummonerFlag,
    RankFlag,
    MasteryFlag,
    /// The match at this index is asked for.
    GameFlag(usize),
}

/// What an argument holds.
pub enum ArgView {
    Route(Region),
    Indent(Seq<char>),
    Int(usize),
    HelpFlag,
    SummonerFlag,
    RankFlag,
    MasteryFlag,
    GameFlag(usize),
}

impl View for Arg {
    type V = ArgView;

    open spec fn view(&self) -> ArgView {
        match self {
            Arg::Route(r) => ArgView::Route(*r),
            Arg::Indent(s) => ArgView::Indent(s@),
            Arg::Int(n) => ArgView::Int(*n),
            Arg::HelpFlag => ArgView::HelpFlag,
            Arg::SummonerFlag => ArgView::SummonerFlag,
            Arg::RankFlag => ArgView::RankFlag,
            Arg::MasteryFlag => ArgView::MasteryFlag,
            Arg::GameFlag(n) => ArgView::GameFlag(*n),
        }
    }
}

impl DeepView for Arg {
    type V = ArgView;

    open spec fn deep_view(&self) -> ArgView {
        self@
    }
}

/// The arguments of one call, read.
#[derive(Debug)]
pub struct Args {
    pub args: Vec<Arg>,
}

/// Something to print, that the arguments ask for.
#[derive(Clone, Copy, Debug, PartialEq, Eq, Structural)]
pub enum Command {
    Help,
    Summoner,
    Rank,
    Mastery,
    /// The match at this index.
    Game(usize),
}

/// What a call of the program asks for.
#[derive(Clone, Copy, Debug, PartialEq, Eq, Structural)]
pub enum Mode {
    /// The full-screen mode.
    Interactive,
    /// The help text and nothing else.
    Help,
    /// What the arguments ask to print.
    OneShot,
}

/// What a call with the arguments `tokens` asks for: the full-screen mode
/// where there are none, the help text where the only one asks for help,
/// and else what they ask to print.
pub open spec fn mode_for(tokens: Seq<Seq<char>>) -> Mode {
    if tokens.len() == 0 {
        Mode::Interactive
    } else if tokens.len() == 1 && (tokens[0] == "-h"@ || tokens[0] == "--help"@) {
        Mode::Help
    } else {
        Mode::OneShot
    }
}

/// What a call with the arguments `input`, the program's name not among
/// them, asks for.
pub fn mode_of(input: &Vec<String>) -> (mode: Mode)
    ensures
        mode == mode_for(input.deep_view()),
{
    if input.len() == 0 {
        Mode::Interactive
    } else if input.len() == 1 && (input[0].as_str().eq("-h") || input[0].as_str().eq("--help")) {
        assert(input.deep_view()[0] == input[0]@);
        Mode::Help
    } else {
        proof {
            if input.len() == 1 {
                assert(input.deep_view()[0] == input[0]@);
            }
        }
        Mode::OneShot
    }
}

/// Whether `token` is the flag that asks for a match.
pub open spec fn is_game_flag(token: Seq<char>) -> bool {
    token == "-g"@ || token == "-game"@
}

/// How a token that does not ask for a match is read: as a flag; else as a
/// number; else as the code of a region; else as a name.
pub open spec fn classified(token: Seq<char>) -> ArgView {
    if token == "-h"@ || token == "--help"@ {
        ArgView::HelpFlag
    } else if token == "-s"@ || token == "--sum"@ {
        ArgView::SummonerFlag
    } else if token == "-r"@ || token == "--rank"@ {
        ArgView::RankFlag
    } else if token == "-m"@ || token == "-mastery"@ {
        ArgView::MasteryFlag
    } else if parsed_number(token) is Some {
        ArgView::Int(parsed_number(token)->0 as usize)
    } else if is_region_code(token) {
        ArgView::Route(region_of_code(token))
    } else {
        ArgView::Indent(token)
    }
}

/// How the tokens of a command line are read, one after another. The flag
/// that asks for a match takes the token after it as the index, where that
/// token is a number; else the index is 0 and the token after it is read on
/// its own.
pub open spec fn parsed(tokens: Seq<Seq<char>>) -> Seq<ArgView>
    decreases tokens.len(),
{
    if tokens.len() == 0 {
        Seq::empty()
    } else if is_game_flag(tokens[0]) {
        if tokens.len() > 1 && parsed_number(tokens[1]) is Some {
            seq![ArgView::GameFlag(parsed_number(tokens[1])->0 as usize)] + parsed(
                tokens.subrange(2, tokens.len() as int),
            )
        } else {
            seq![ArgView::GameFlag(0)] + parsed(tokens.drop_first())
        }
    } else {
        seq![classified(tokens[0])] + parsed(tokens.drop_first())
    }
}

/// Whether `key` is the code of a region.
pub fn is_route_name(key: &str) -> (known: bool)
    ensures
        known == is_region_code(key@),
{
    proof {
        lemma_route_names();
    }
    let mut i: usize = 0;
    while i < 15
        invariant
            i <= 15,
            ROUTE_NAMES@.len() == 15,
            all_regions().len() == 15,
            forall|j: int| 0 <= j < 15 ==> (#[trigger] ROUTE_NAMES@[j])@ == all_regions()[j].spec_code(),
            forall|j: int| 0 <= j < i ==> #[trigger] all_regions()[j].spec_code() != key@,
        decreases 15 - i,
    {
        if ROUTE_NAMES[i].eq(key) {
            assert(all_regions()[i as int].spec_code() == key@);
            return true;
        }
        i += 1;
    }
    false
}

/// Reads a token that does not ask for a match.
pub fn classify(token: &str) -> (arg: Arg)
    ensures
        arg@ == classified(token@),
{
    if token.eq("-h") || token.eq("--help") {
        Arg::HelpFlag
    } else if token.eq("-s") || token.eq("--sum") {
        Arg::SummonerFlag
    } else if token.eq("-r") || token.eq("--rank") {
        Arg::RankFlag
    } else if token.eq("-m") || token.eq("-mastery") {
        Arg::MasteryFlag
    } else {
        match parse_number(token) {
            Some(n) => Arg::Int(n),
            None => {
                if is_route_name(token) {
                    Arg::Route(route_of(token))
                } else {
                    Arg::Indent(token.to_owned())
                }
            },
        }
    }
}

/// The first region among the arguments, if there is one.
pub open spec fn first_route(args: Seq<ArgView>) -> Option<Region>
    decreases args.len(),
{
    if args.len() == 0 {
        None
    } else {
        match args[0] {
            ArgView::Route(r) => Some(r),
            _ => first_route(args.drop_first()),
        }
    }
}

/// The name that an argument gives, if it gives one that is not empty.
pub open spec fn name_of(arg: ArgView) -> Option<Seq<char>> {
    match arg {
        ArgView::Indent(name) => if name.len() > 0 {
            Some(name)
        } else {
            None
        },
        _ => None,
    }
}

/// What an argument asks to print, if anything.
pub open spec fn command_of(arg: ArgView) -> Option<Command> {
    match arg {
        ArgView::HelpFlag => Some(Command::Help),
        ArgView::SummonerFlag => Some(Command::Summoner),
        ArgView::RankFlag => Some(Command::Rank),
        ArgView::MasteryFlag => Some(Command::Mastery),
        ArgView::GameFlag(index) => Some(Command::Game(index)),
        _ => None,
    }
}

/// The names among the arguments, in their order.
pub open spec fn names_of(args: Seq<ArgView>) -> Seq<Seq<char>> {
    args.filter_map(|a: ArgView| name_of(a))
}

/// What the arguments ask to print, in their order.
pub open spec fn commands_of(args: Seq<ArgView>) -> Seq<Command> {
    args.filter_map(|a: ArgView| command_of(a))
}

/// The region as the first line shows it: `Some` with the platform's name
/// in brackets, or `None`.
pub open spec fn route_shown(route: Option<Region>) -> Seq<char> {
    match route {
        Some(r) => "Some("@ + r.spec_platform() + ")"@,
        None => "None"@,
    }
}

/// The names in green, with a space between each two.
pub open spec fn name_fragments(names: Seq<Seq<char>>) -> Seq<FragmentView>
    decreases names.len(),
{
    if names.len() == 0 {
        Seq::empty()
    } else if names.len() == 1 {
        seq![fragment(names[0], Some(Color::Green), false, false)]
    } else {
        name_fragments(names.drop_last()).push(plain(" "@)).push(
            fragment(names.last(), Some(Color::Green), false, false),
        )
    }
}

impl Args {
    /// The arguments that the tokens `input` are read as.
    pub fn new(input: Vec<String>) -> (args: Args)
        ensures
            args.args.deep_view() == parsed(input.deep_view()),
    {
        Args { args: Args::parse(input) }
    }

    /// Reads the tokens of a command line.
    pub fn parse(args: Vec<String>) -> (read: Vec<Arg>)
        ensures
            read.deep_view() == parsed(args.deep_view()),
    {
        let ghost tokens = args.deep_view();
        let mut read: Vec<Arg> = Vec::new();
        let mut i: usize = 0;
        proof {
            assert(tokens.subrange(0, tokens.len() as int) =~= tokens);
            assert(read.deep_view() + parsed(tokens) =~= parsed(tokens));
        }
        while i < args.len()
            invariant
                i <= args.len(),
                tokens == args.deep_view(),
                read.deep_view() + parsed(tokens.subrange(i as int, tokens.len() as int)) == parsed(
                    tokens,
                ),
            decreases args.len() - i,
        {
            let ghost rest = tokens.subrange(i as int, tokens.len() as int);
            let ghost before = read.deep_view();
            let token = args[i].as_str();
            assert(rest[0] == token@);
            if token.eq("-g") || token.eq("-game") {
                let index = if i + 1 < args.len() {
                    assert(rest[1] == args[i + 1]@);
                    parse_number(args[i + 1].as_str())
                } else {
                    None
                };
                match index {
                    Some(n) => {
                        read.push(Arg::GameFlag(n));
                        proof {
                            assert(rest.subrange(2, rest.len() as int) =~= tokens.subrange(
                                i + 2,
                                tokens.len() as int,
                            ));
                            assert(read.deep_view() =~= before.push(ArgView::GameFlag(n)));
                            assert(read.deep_view() + parsed(
                                tokens.subrange(i + 2, tokens.len() as int),
                            ) =~= before + parsed(rest));
                        }
                        i += 2;
                    },
                    None => {
                        read.push(Arg::GameFlag(0));
                        proof {
                            assert(rest.drop_first() =~= tokens.subrange(i + 1, tokens.len() as int));
                            assert(read.deep_view() =~= before.push(ArgView::GameFlag(0)));
                            assert(read.deep_view() + parsed(
                                tokens.subrange(i + 1, tokens.len() as int),
                            ) =~= before + parsed(rest));
                        }
                        i += 1;
                    },
                }
            } else {
                let arg = classify(token);
                let ghost view = arg@;
                read.push(arg);
                proof {
                    assert(rest.drop_first() =~= tokens.subrange(i + 1, tokens.len() as int));
                    assert(read.deep_view() =~= before.push(view));
                    assert(read.deep_view() + parsed(tokens.subrange(i + 1, tokens.len() as int))
                        =~= before + parsed(rest));
                }
                i += 1;
            }
        }
        assert(parsed(tokens.subrange(i as int, tokens.len() as int)) =~= Seq::<ArgView>::empty());
        assert(read.deep_view() + Seq::<ArgView>::empty() =~= read.deep_view());
        read
    }

    /// The first region among the arguments, if there is one.
    pub fn route(&self) -> (route: Option<Region>)
        ensures
            route == first_route(self.args.deep_view()),
    {
        let ghost all = self.args.deep_view();
        let mut i: usize = 0;
        assert(all.subrange(0, all.len() as int) =~= all);
        while i < self.args.len()
            invariant
                i <= self.args.len(),
                all == self.args.deep_view(),
                first_route(all) == first_route(all.subrange(i as int, all.len() as int)),
            decreases self.args.len() - i,
        {
            let ghost rest = all.subrange(i as int, all.len() as int);
            assert(rest[0] == self.args[i as int]@);
            assert(rest.drop_first() =~= all.subrange(i + 1, all.len() as int));
            if let Arg::Route(r) = &self.args[i] {
                return Some(*r);
            }
            i += 1;
        }
        None
    }

    /// The names among the arguments, in their order.
    pub fn names(&self) -> (names: Vec<String>)
        ensures
            names.deep_view() == names_of(self.args.deep_view()),
    {
        let ghost all = self.args.deep_view();
        let mut names: Vec<String> = Vec::new();
        let mut i: usize = 0;
        assert(all.take(0) =~= Seq::<ArgView>::empty());
        assert(names.deep_view() =~= names_of(all.take(0)));
        while i < self.args.len()
            invariant
                i <= self.args.len(),
                all == self.args.deep_view(),
                names.deep_view() == names_of(all.take(i as int)),
            decreases self.args.len() - i,
        {
            let ghost before = names.deep_view();
            proof {
                assert(all.take(i + 1).drop_last() =~= all.take(i as int));
                assert(all.take(i + 1).last() == self.args[i as int]@);
            }
            if let Arg::Indent(name) = &self.args[i] {
                if !name.as_str().is_empty() {
                    names.push(name.clone());
                    assert(names.deep_view() =~= before + seq![name@]);
                }
            }
            i += 1;
        }
        assert(all.take(i as int) =~= all);
        names
    }

    /// What the arguments ask to print, in their order.
    pub fn commands(&self) -> (commands: Vec<Command>)
        ensures
            commands@ == commands_of(self.args.deep_view()),
    {
        let ghost all = self.args.deep_view();
        let mut commands: Vec<Command> = Vec::new();
        let mut i: usize = 0;
        assert(all.take(0) =~= Seq::<ArgView>::empty());
        while i < self.args.len()
            invariant
                i <= self.args.len(),
                all == self.args.deep_view(),
                commands@ == commands_of(all.take(i as int)),
            decreases self.args.len() - i,
        {
            let ghost before = commands@;
            proof {
                assert(all.take(i + 1).drop_last() =~= all.take(i as int));
                assert(all.take(i + 1).last() == self.args[i as int]@);
            }
            let command = match &self.args[i] {
                Arg::HelpFlag => Some(Command::Help),
                Arg::SummonerFlag => Some(Command::Summoner),
                Arg::RankFlag => Some(Command::Rank),
                Arg::MasteryFlag => Some(Command::Mastery),
                Arg::GameFlag(index) => Some(Command::Game(*index)),
                _ => None,
            };
            if let Some(c) = command {
                commands.push(c);
                assert(commands@ =~= before + seq![c]);
            }
            i += 1;
        }
        assert(all.take(i as int) =~= all);
        commands
    }

    /// The first line of the output: the word `players`, the region in
    /// square brackets, and the names in green.
    pub fn players(&self) -> (text: StyledText)
        ensures
            text@ == seq![
                seq![
                    plain("players ["@),
                    plain(route_shown(first_route(self.args.deep_view()))),
                    plain("] "@),
                ] + name_fragments(names_of(self.args.deep_view())),
            ],
    {
        let shown = match self.route() {
            Some(r) => {
                let mut s = "Some(".to_owned();
                s.append(r.platform());
                s.append(")");
                s
            },
            None => "None".to_owned(),
        };
        let names = self.names();
        let mut line = empty_line();
        push_fragment(&mut line, Fragment::plain("players ["));
        push_fragment(&mut line, Fragment::new(shown, Style::plain()));
        push_fragment(&mut line, Fragment::plain("] "));
        let ghost head = line.deep_view();
        let mut i: usize = 0;
        assert(head =~= seq![
            plain("players ["@),
            plain(route_shown(first_route(self.args.deep_view()))),
            plain("] "@),
        ]);
        proof {
            assert(names.deep_view().take(0) =~= Seq::<Seq<char>>::empty());
            assert(line.deep_view() =~= head + name_fragments(names.deep_view().take(0)));
        }
        while i < names.len()
            invariant
                i <= names.len(),
                line.deep_view() == head + name_fragments(names.deep_view().take(i as int)),
            decreases names.len() - i,
        {
            if i > 0 {
                push_fragment(&mut line, Fragment::plain(" "));
            }
            push_fragment(
                &mut line,
                Fragment::styled(names[i].as_str(), Style::colored(Color::Green)),
            );
            proof {
                let all = names.deep_view();
                assert(all.take(i + 1).drop_last() =~= all.take(i as int));
                assert(all.take(i + 1).last() == names[i as int]@);
                assert(line.deep_view() =~= head + name_fragments(all.take(i + 1)));
            }
            i += 1;
        }
        assert(names.deep_view().take(i as int) =~= names.deep_view());
        let mut text = StyledText::new();
        text.push_line(line);
        assert(text@ =~= seq![
            seq![
                plain("players ["@),
                plain(route_shown(first_route(self.args.deep_view()))),
                plain("] "@),
            ] + name_fragments(names_of(self.args.deep_view())),
        ]);
        text
    }
}

} // verus!
