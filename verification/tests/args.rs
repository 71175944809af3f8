use watcher::args::{classify, is_route_name, mode_of, Arg, Args, Command, Mode};
use watcher::text::Color;
use watcher::utils::Region;

fn args(tokens: &[&str]) -> Args {
    Args::new(tokens.iter().map(|t| t.to_string()).collect())
}

#[test]
fn mode_of_a_call() {
    let tokens = |t: &[&str]| t.iter().map(|s| s.to_string()).collect::<Vec<String>>();
    assert_eq!(mode_of(&tokens(&[])), Mode::Interactive);
    assert_eq!(mode_of(&tokens(&["-h"])), Mode::Help);
    assert_eq!(mode_of(&tokens(&["--help"])), Mode::Help);
    assert_eq!(mode_of(&tokens(&["Faker"])), Mode::OneShot);
    assert_eq!(mode_of(&tokens(&["-s"])), Mode::OneShot);
    assert_eq!(mode_of(&tokens(&["-h", "Faker"])), Mode::OneShot);
    assert_eq!(mode_of(&tokens(&["Faker", "-h"])), Mode::OneShot);
    assert_eq!(mode_of(&tokens(&[""])), Mode::OneShot);
}

#[test]
fn flags_are_read() {
    let a = args(&["-h", "--help", "-s", "--sum", "-r", "--rank", "-m", "-mastery"]);
    assert_eq!(a.args.len(), 8);
    assert!(matches!(a.args[0], Arg::HelpFlag));
    assert!(matches!(a.args[1], Arg::HelpFlag));
    assert!(matches!(a.args[2], Arg::SummonerFlag));
    assert!(matches!(a.args[3], Arg::SummonerFlag));
    assert!(matches!(a.args[4], Arg::RankFlag));
    assert!(matches!(a.args[5], Arg::RankFlag));
    assert!(matches!(a.args[6], Arg::MasteryFlag));
    assert!(matches!(a.args[7], Arg::MasteryFlag));
}

#[test]
fn names_regions_and_numbers_are_read() {
    let a = args(&["Faker", "kr", "12", "euw", "--mastery", "-x", "KR"]);
    assert_eq!(a.args.len(), 7);
    assert!(matches!(&a.args[0], Arg::Indent(n) if n == "Faker"));
    assert!(matches!(a.args[1], Arg::Route(Region::KR)));
    assert!(matches!(a.args[2], Arg::Int(12)));
    assert!(matches!(a.args[3], Arg::Route(Region::EUW)));
    assert!(matches!(&a.args[4], Arg::Indent(n) if n == "--mastery"));
    assert!(matches!(&a.args[5], Arg::Indent(n) if n == "-x"));
    assert!(matches!(&a.args[6], Arg::Indent(n) if n == "KR"));
}

#[test]
fn game_flag_takes_the_number_after_it() {
    let a = args(&["Faker", "-g", "3", "-s"]);
    assert_eq!(a.args.len(), 3);
    assert!(matches!(a.args[1], Arg::GameFlag(3)));
    assert!(matches!(a.args[2], Arg::SummonerFlag));
    let a = args(&["-game", "17"]);
    assert_eq!(a.args.len(), 1);
    assert!(matches!(a.args[0], Arg::GameFlag(17)));
}

#[test]
fn game_flag_without_a_number_asks_for_the_first_match() {
    let a = args(&["-g"]);
    assert_eq!(a.args.len(), 1);
    assert!(matches!(a.args[0], Arg::GameFlag(0)));
    let a = args(&["-g", "Faker"]);
    assert_eq!(a.args.len(), 2);
    assert!(matches!(a.args[0], Arg::GameFlag(0)));
    assert!(matches!(&a.args[1], Arg::Indent(n) if n == "Faker"));
    let a = args(&["-g", "-g", "2"]);
    assert_eq!(a.args.len(), 2);
    assert!(matches!(a.args[0], Arg::GameFlag(0)));
    assert!(matches!(a.args[1], Arg::GameFlag(2)));
    let a = args(&["-g", "99999999999999999999999"]);
    assert_eq!(a.args.len(), 2);
    assert!(matches!(a.args[0], Arg::GameFlag(0)));
    assert!(matches!(&a.args[1], Arg::Indent(_)));
}

#[test]
fn no_tokens_no_arguments() {
    let a = args(&[]);
    assert!(a.args.is_empty());
    assert_eq!(a.route(), None);
    assert!(a.names().is_empty());
    assert!(a.commands().is_empty());
    assert!(Args::parse(Vec::new()).is_empty());
}

#[test]
fn single_tokens_are_classified() {
    assert!(matches!(classify("-h"), Arg::HelpFlag));
    assert!(matches!(classify("0"), Arg::Int(0)));
    assert!(matches!(classify("+7"), Arg::Int(7)));
    assert!(matches!(classify("la1"), Arg::Route(Region::LA1)));
    assert!(matches!(classify(""), Arg::Indent(_)));
    assert!(matches!(classify("Hide on bush"), Arg::Indent(_)));
}

#[test]
fn codes_of_regions_are_known() {
    for code in ["kr", "ru", "br", "jp", "la1", "la2", "na", "oce", "ph", "sg", "th", "tr", "tw", "eune", "euw"] {
        assert!(is_route_name(code));
    }
    for code in ["", "KR", "eu", "euww", "la", "la3", "vn"] {
        assert!(!is_route_name(code));
    }
}

#[test]
fn the_first_region_counts() {
    assert_eq!(args(&["Faker", "na", "euw"]).route(), Some(Region::NA));
    assert_eq!(args(&["Faker", "-s"]).route(), None);
    assert_eq!(args(&["kr"]).route(), Some(Region::KR));
}

#[test]
fn names_are_collected_in_order() {
    let a = args(&["Faker", "kr", "-s", "", "Chovy", "5", "Faker"]);
    assert_eq!(a.names(), vec!["Faker", "Chovy", "Faker"]);
}

#[test]
fn commands_are_collected_in_order() {
    let a = args(&["Faker", "-r", "-g", "4", "kr", "-h", "-m", "-s", "-g"]);
    assert_eq!(
        a.commands(),
        vec![
            Command::Rank,
            Command::Game(4),
            Command::Help,
            Command::Mastery,
            Command::Summoner,
            Command::Game(0)
        ]
    );
}

#[test]
fn players_line() {
    let a = args(&["Faker", "euw", "-s", "Chovy"]);
    let text = a.players();
    assert_eq!(text.lines.len(), 1);
    let parts: Vec<&str> = text.lines[0].iter().map(|f| f.text.as_str()).collect();
    assert_eq!(parts, vec!["players [", "Some(EUW1)", "] ", "Faker", " ", "Chovy"]);
    assert_eq!(text.lines[0][3].style.fg, Some(Color::Green));
    assert_eq!(text.lines[0][4].style.fg, None);
    assert_eq!(
        text.to_ansi(),
        "players [Some(EUW1)] \u{1b}[38;5;10mFaker\u{1b}[39m \u{1b}[38;5;10mChovy\u{1b}[39m"
    );
    assert_eq!(args(&["-s"]).players().to_ansi(), "players [None] ");
}
