use watcher::display::DisplayToText;
use watcher::text::Color;
use watcher::utils::{
    is_numeric, parse_number, parse_route, route_of, routes, Log, LogKind, Region, HELP,
    ROUTE_NAMES,
};

const ALL: [(&str, Region); 15] = [
    ("kr", Region::KR),
    ("ru", Region::RU),
    ("br", Region::BR),
    ("jp", Region::JP),
    ("la1", Region::LA1),
    ("la2", Region::LA2),
    ("na", Region::NA),
    ("oce", Region::OCE),
    ("ph", Region::PH),
    ("sg", Region::SG),
    ("th", Region::TH),
    ("tr", Region::TR),
    ("tw", Region::TW),
    ("eune", Region::EUNE),
    ("euw", Region::EUW),
];

#[test]
fn every_code_reads_as_its_region_and_back() {
    for (code, region) in ALL {
        assert_eq!(parse_route(code.to_string()), region);
        assert_eq!(parse_route(code.to_string()).code(), code);
        assert_eq!(parse_route(region.code().to_string()), region);
        assert_eq!(route_of(code), region);
        assert_eq!(region.code(), code);
    }
}

#[test]
fn unknown_codes_read_as_kr() {
    assert_eq!(parse_route(String::new()), Region::KR);
    assert_eq!(parse_route("KR".to_string()), Region::KR);
    assert_eq!(parse_route("EUW".to_string()), Region::KR);
    assert_eq!(parse_route("euw ".to_string()), Region::KR);
    assert_eq!(parse_route("mars".to_string()), Region::KR);
    assert_eq!(route_of("mars"), Region::KR);
}

#[test]
fn routes_list_every_region_in_order() {
    let map = routes();
    assert_eq!(map.len(), 15);
    for (i, (code, region)) in ALL.iter().enumerate() {
        assert_eq!(map[i].0, *code);
        assert_eq!(map[i].1, *region);
    }
    assert_eq!(
        ROUTE_NAMES,
        [
            "kr", "ru", "br", "jp", "la1", "la2", "na", "oce", "ph", "sg", "th", "tr", "tw",
            "eune", "euw"
        ]
    );
    for (i, name) in ROUTE_NAMES.iter().enumerate() {
        assert_eq!(*name, map[i].0);
    }
}

#[test]
fn platforms_have_their_names() {
    let names = [
        "KR", "RU", "BR1", "JP1", "LA1", "LA2", "NA1", "OC1", "PH2", "SG2", "TH2", "TR1", "TW2",
        "EUN1", "EUW1",
    ];
    for (i, (_, region)) in ALL.iter().enumerate() {
        assert_eq!(region.platform(), names[i]);
    }
}

#[test]
fn numbers_are_numeric() {
    assert!(is_numeric("0"));
    assert!(is_numeric("7"));
    assert!(is_numeric("123"));
    assert!(is_numeric("007"));
    assert!(is_numeric("+5"));
    assert!(is_numeric("18446744073709551615"));
}

#[test]
fn other_text_is_not_numeric() {
    assert!(!is_numeric(""));
    assert!(!is_numeric("+"));
    assert!(!is_numeric("-1"));
    assert!(!is_numeric("12a"));
    assert!(!is_numeric("a12"));
    assert!(!is_numeric(" 1"));
    assert!(!is_numeric("1 "));
    assert!(!is_numeric("++1"));
    assert!(!is_numeric("1.5"));
    assert!(!is_numeric("18446744073709551616"));
    assert!(!is_numeric("99999999999999999999999"));
    assert!(!is_numeric("\u{0661}"));
}

#[test]
fn numbers_are_read_as_the_standard_library_reads_them() {
    for text in ["0", "42", "+42", "0042", "18446744073709551615", "18446744073709551616", "", "+", "4 2", "x"] {
        assert_eq!(parse_number(text), text.parse::<usize>().ok());
        assert_eq!(is_numeric(text), text.parse::<usize>().is_ok());
    }
    assert_eq!(parse_number("42"), Some(42));
    assert_eq!(parse_number("+0"), Some(0));
}

#[test]
fn log_keeps_kind_day_and_message() {
    let log = Log::dated(LogKind::Warning, "2024-01-02".to_string(), "slow".to_string());
    assert_eq!(log.kind, LogKind::Warning);
    assert_eq!(log.time_stamp, "2024-01-02");
    assert_eq!(log.msg, "slow");
    let copy = log.clone();
    assert_eq!(copy.time_stamp, "2024-01-02");
    assert_eq!(copy.msg, "slow");
}

#[test]
fn new_log_is_dated() {
    let log = Log::new(LogKind::Error, "down".to_string());
    assert_eq!(log.kind, LogKind::Error);
    assert_eq!(log.msg, "down");
    // a day is written as year, month and day with hyphens between them
    assert_eq!(log.time_stamp.matches('-').count(), 2);
}

#[test]
fn log_text_has_kind_day_and_message() {
    let log = Log::dated(LogKind::Info, "2024-01-02".to_string(), "App start".to_string());
    let text = log.format();
    assert_eq!(text.lines.len(), 1);
    let line = &text.lines[0];
    assert_eq!(line.len(), 5);
    assert_eq!(line[0].text, "Info");
    assert_eq!(line[1].text, "=> ");
    assert_eq!(line[2].text, "2024-01-02");
    assert_eq!(line[2].style.fg, Some(Color::Magenta));
    assert_eq!(line[3].text, ":");
    assert_eq!(line[4].text, "App start");
    assert_eq!(line[4].style.fg, Some(Color::Green));
    assert_eq!(
        log.to_string(),
        "Info=> \u{1b}[38;5;13m2024-01-02\u{1b}[39m:\u{1b}[38;5;10mApp start\u{1b}[39m"
    );
}

#[test]
fn log_colour_follows_the_kind() {
    let warning = Log::dated(LogKind::Warning, "d".to_string(), "m".to_string());
    assert_eq!(warning.format().lines[0][4].style.fg, Some(Color::Yellow));
    assert_eq!(warning.format().lines[0][0].text, "Warning");
    let error = Log::dated(LogKind::Error, "d".to_string(), "m".to_string());
    assert_eq!(error.format().lines[0][4].style.fg, Some(Color::Red));
    assert_eq!(error.format().lines[0][0].text, "Error");
    assert_eq!(LogKind::Info.name(), "Info");
    assert_eq!(LogKind::Info.color(), Color::Green);
}

#[test]
fn help_names_usage_regions_and_flags() {
    assert!(HELP.contains("Usage: Watcher [name] [region] [flags]"));
    assert!(HELP.contains("\"eune\", \"euw\"]"));
    assert!(HELP.contains("-h | --help     prints help"));
    assert!(HELP.starts_with("\n            Watcher \n"));
    assert_eq!(HELP.lines().count(), 18);
}
