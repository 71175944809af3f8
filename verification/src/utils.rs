//! Regions and their codes, the status line, and the test for numbers.

use vstd::prelude::*;
use vstd::string::*;

use crate::display::DisplayToText;
use crate::text::{
    empty_line, fragment, plain, push_fragment, Color, Fragment, FragmentView, Style, StyledText,
};

verus! {

/// What the program prints when it is asked for help.
pub const HELP: &'static str = r###"
            Watcher 
______________________________

Usage: Watcher [name] [region] [flags]


# Regions:
["kr", "ru", "br", "jp", "la1", "la2", "na", "oce", "ph", "sg", "th", "tr", "tw", "eune", "euw"]
Flags:
------------------------------
NONE     lunches Tui 
-h | --help     prints help
-s | --summoner searches for summoner
-r | --rank     get's summoner rank 
-m | --mastery  get's first 10 highest champions mastery's
-g | --game     -g 0..20 get's game from 20 games
        "###;

/// The codes of the regions, in the order in which the regions are listed.
pub const ROUTE_NAMES: [&'static str; 15] = [
    "kr", "ru", "br", "jp", "la1", "la2", "na", "oce", "ph", "sg", "th", "tr", "tw", "eune", "euw",
];

/// A server cluster on which players are looked up.
#[derive(Clone, Copy, Debug, PartialEq, Eq, Structural)]
pub enum Region {
    KR,
    RU,
    BR,
    JP,
    LA1,
    LA2,
    NA,
    OCE,
    PH,
    SG,
    TH,
    TR,
    TW,
    EUNE,
    EUW,
}

impl Region {
    /// The short code by which the region is chosen.
    pub open spec fn spec_code(self) -> Seq<char> {
        match self {
            Region::KR => "kr"@,
            Region::RU => "ru"@,
            Region::BR => "br"@,
            Region::JP => "jp"@,
            Region::LA1 => "la1"@,
            Region::LA2 => "la2"@,
            Region::NA => "na"@,
            Region::OCE => "oce"@,
            Region::PH => "ph"@,
            Region::SG => "sg"@,
            Region::TH => "th"@,
            Region::TR => "tr"@,
            Region::TW => "tw"@,
            Region::EUNE => "eune"@,
            Region::EUW => "euw"@,
        }
    }

    /// The short code by which the region is chosen.
    pub fn code(self) -> (s: &'static str)
        ensures
            s@ == self.spec_code(),
    {
        match self {
            Region::KR => "kr",
            Region::RU => "ru",
            Region::BR => "br",
            Region::JP => "jp",
            Region::LA1 => "la1",
            Region::LA2 => "la2",
            Region::NA => "na",
            Region::OCE => "oce",
            Region::PH => "ph",
            Region::SG => "sg",
            Region::TH => "th",
            Region::TR => "tr",
            Region::TW => "tw",
            Region::EUNE => "eune",
            Region::EUW => "euw",
        }
    }

    /// The name of the region's platform.
    pub open spec fn spec_platform(self) -> Seq<char> {
        match self {
            Region::KR => "KR"@,
            Region::RU => "RU"@,
            Region::BR => "BR1"@,
            Region::JP => "JP1"@,
            Region::LA1 => "LA1"@,
            Region::LA2 => "LA2"@,
            Region::NA => "NA1"@,
            Region::OCE => "OC1"@,
            Region::PH => "PH2"@,
            Region::SG => "SG2"@,
            Region::TH => "TH2"@,
            Region::TR => "TR1"@,
            Region::TW => "TW2"@,
            Region::EUNE => "EUN1"@,
            Region::EUW => "EUW1"@,
        }
    }

    /// The name of the region's platform.
    pub fn platform(self) -> (s: &'static str)
        ensures
            s@ == self.spec_platform(),
    {
        match self {
            Region::KR => "KR",
            Region::RU => "RU",
            Region::BR => "BR1",
            Region::JP => "JP1",
            Region::LA1 => "LA1",
            Region::LA2 => "LA2",
            Region::NA => "NA1",
            Region::OCE => "OC1",
            Region::PH => "PH2",
            Region::SG => "SG2",
            Region::TH => "TH2",
            Region::TR => "TR1",
            Region::TW => "TW2",
            Region::EUNE => "EUN1",
            Region::EUW => "EUW1",
        }
    }
}

/// The regions in the order in which they are listed.
pub open spec fn all_regions() -> Seq<Region> {
    seq![
        Region::KR,
        Region::RU,
        Region::BR,
        Region::JP,
        Region::LA1,
        Region::LA2,
        Region::NA,
        Region::OCE,
        Region::PH,
        Region::SG,
        Region::TH,
        Region::TR,
        Region::TW,
        Region::EUNE,
        Region::EUW,
    ]
}

/// The list of the codes holds the code of each region, at the region's
/// place.
pub proof fn lemma_route_names()
    ensures
        ROUTE_NAMES@.len() == all_regions().len(),
        forall|i: int|
            0 <= i < all_regions().len() ==> (#[trigger] ROUTE_NAMES@[i])@ == all_regions()[i].spec_code(),
{
}

/// Whether `key` is the code of a region.
pub open spec fn is_region_code(key: Seq<char>) -> bool {
    exists|i: int| 0 <= i < all_regions().len() && #[trigger] all_regions()[i].spec_code() == key
}

/// The region with the code `key`; `KR` where no region has that code.
pub open spec fn region_of_code(key: Seq<char>) -> Region {
    if key == "ru"@ {
        Region::RU
    } else if key == "br"@ {
        Region::BR
    } else if key == "jp"@ {
        Region::JP
    } else if key == "la1"@ {
        Region::LA1
    } else if key == "la2"@ {
        Region::LA2
    } else if key == "na"@ {
        Region::NA
    } else if key == "oce"@ {
        Region::OCE
    } else if key == "ph"@ {
        Region::PH
    } else if key == "sg"@ {
        Region::SG
    } else if key == "th"@ {
        Region::TH
    } else if key == "tr"@ {
        Region::TR
    } else if key == "tw"@ {
        Region::TW
    } else if key == "eune"@ {
        Region::EUNE
    } else if key == "euw"@ {
        Region::EUW
    } else {
        Region::KR
    }
}

/// Each region with its code, in the order in which the regions are listed.
pub fn routes() -> (map: Vec<(String, Region)>)
    ensures
        map@.len() == all_regions().len(),
        forall|i: int|
            0 <= i < map@.len() ==> (#[trigger] map@[i]).1 == all_regions()[i] && map@[i].0@
                == all_regions()[i].spec_code(),
{
    let mut map: Vec<(String, Region)> = Vec::new();
    map.push((Region::KR.code().to_owned(), Region::KR));
    map.push((Region::RU.code().to_owned(), Region::RU));
    map.push((Region::BR.code().to_owned(), Region::BR));
    map.push((Region::JP.code().to_owned(), Region::JP));
    map.push((Region::LA1.code().to_owned(), Region::LA1));
    map.push((Region::LA2.code().to_owned(), Region::LA2));
    map.push((Region::NA.code().to_owned(), Region::NA));
    map.push((Region::OCE.code().to_owned(), Region::OCE));
    map.push((Region::PH.code().to_owned(), Region::PH));
    map.push((Region::SG.code().to_owned(), Region::SG));
    map.push((Region::TH.code().to_owned(), Region::TH));
    map.push((Region::TR.code().to_owned(), Region::TR));
    map.push((Region::TW.code().to_owned(), Region::TW));
    map.push((Region::EUNE.code().to_owned(), Region::EUNE));
    map.push((Region::EUW.code().to_owned(), Region::EUW));
    map
}

/// The region with the code `key`; `KR` where no region has that code.
pub fn parse_route(key: String) -> (region: Region)
    ensures
        region == region_of_code(key@),
{
    route_of(key.as_str())
}

/// The region with the code `key`; `KR` where no region has that code.
pub fn route_of(key: &str) -> (region: Region)
    ensures
        region == region_of_code(key@),
{
    if key.eq("ru") {
        Region::RU
    } else if key.eq("br") {
        Region::BR
    } else if key.eq("jp") {
        Region::JP
    } else if key.eq("la1") {
        Region::LA1
    } else if key.eq("la2") {
        Region::LA2
    } else if key.eq("na") {
        Region::NA
    } else if key.eq("oce") {
        Region::OCE
    } else if key.eq("ph") {
        Region::PH
    } else if key.eq("sg") {
        Region::SG
    } else if key.eq("th") {
        Region::TH
    } else if key.eq("tr") {
        Region::TR
    } else if key.eq("tw") {
        Region::TW
    } else if key.eq("eune") {
        Region::EUNE
    } else if key.eq("euw") {
        Region::EUW
    } else {
        Region::KR
    }
}

/// Reveals what the codes of the regions hold.
proof fn reveal_codes()
    ensures
        "kr"@ == seq!['k', 'r'],
        "ru"@ == seq!['r', 'u'],
        "br"@ == seq!['b', 'r'],
        "jp"@ == seq!['j', 'p'],
        "la1"@ == seq!['l', 'a', '1'],
        "la2"@ == seq!['l', 'a', '2'],
        "na"@ == seq!['n', 'a'],
        "oce"@ == seq!['o', 'c', 'e'],
        "ph"@ == seq!['p', 'h'],
        "sg"@ == seq!['s', 'g'],
        "th"@ == seq!['t', 'h'],
        "tr"@ == seq!['t', 'r'],
        "tw"@ == seq!['t', 'w'],
        "eune"@ == seq!['e', 'u', 'n', 'e'],
        "euw"@ == seq!['e', 'u', 'w'],
{
    reveal_strlit("kr");
    reveal_strlit("ru");
    reveal_strlit("br");
    reveal_strlit("jp");
    reveal_strlit("la1");
    reveal_strlit("la2");
    reveal_strlit("na");
    reveal_strlit("oce");
    reveal_strlit("ph");
    reveal_strlit("sg");
    reveal_strlit("th");
    reveal_strlit("tr");
    reveal_strlit("tw");
    reveal_strlit("eune");
    reveal_strlit("euw");
    assert("kr"@ =~= seq!['k', 'r']);
    assert("ru"@ =~= seq!['r', 'u']);
    assert("br"@ =~= seq!['b', 'r']);
    assert("jp"@ =~= seq!['j', 'p']);
    assert("la1"@ =~= seq!['l', 'a', '1']);
    assert("la2"@ =~= seq!['l', 'a', '2']);
    assert("na"@ =~= seq!['n', 'a']);
    assert("oce"@ =~= seq!['o', 'c', 'e']);
    assert("ph"@ =~= seq!['p', 'h']);
    assert("sg"@ =~= seq!['s', 'g']);
    assert("th"@ =~= seq!['t', 'h']);
    assert("tr"@ =~= seq!['t', 'r']);
    assert("tw"@ =~= seq!['t', 'w']);
    assert("eune"@ =~= seq!['e', 'u', 'n', 'e']);
    assert("euw"@ =~= seq!['e', 'u', 'w']);
}

/// No two regions share a code.
pub proof fn lemma_codes_differ(a: Region, b: Region)
    ensures
        a.spec_code() == b.spec_code() <==> a == b,
{
    reveal_codes();
    if a != b {
        let x = a.spec_code();
        let y = b.spec_code();
        if x.len() == y.len() {
            assert(x[0] != y[0] || x[1] != y[1] || (x.len() > 2 && x[2] != y[2]));
        }
    }
}

/// Reading a region's code gives the region back.
pub proof fn lemma_region_round_trip(region: Region)
    ensures
        region_of_code(region.spec_code()) == region,
{
    lemma_codes_differ(region, Region::KR);
    lemma_codes_differ(region, Region::RU);
    lemma_codes_differ(region, Region::BR);
    lemma_codes_differ(region, Region::JP);
    lemma_codes_differ(region, Region::LA1);
    lemma_codes_differ(region, Region::LA2);
    lemma_codes_differ(region, Region::NA);
    lemma_codes_differ(region, Region::OCE);
    lemma_codes_differ(region, Region::PH);
    lemma_codes_differ(region, Region::SG);
    lemma_codes_differ(region, Region::TH);
    lemma_codes_differ(region, Region::TR);
    lemma_codes_differ(region, Region::TW);
    lemma_codes_differ(region, Region::EUNE);
    lemma_codes_differ(region, Region::EUW);
}

/// The code of the region that a code is read as is that code again, for
/// each code of a region; any other text is read as `KR`.
pub proof fn lemma_code_round_trip(key: Seq<char>)
    ensures
        is_region_code(key) ==> region_of_code(key).spec_code() == key,
        !is_region_code(key) ==> region_of_code(key) == Region::KR,
{
    if is_region_code(key) {
        let i = choose|i: int| 0 <= i < all_regions().len() && #[trigger] all_regions()[i].spec_code() == key;
        lemma_region_round_trip(all_regions()[i]);
    } else {
        let r = region_of_code(key);
        if r != Region::KR {
            assert(r.spec_code() == key);
            let i: int = if r == Region::RU {
                1
            } else if r == Region::BR {
                2
            } else if r == Region::JP {
                3
            } else if r == Region::LA1 {
                4
            } else if r == Region::LA2 {
                5
            } else if r == Region::NA {
                6
            } else if r == Region::OCE {
                7
            } else if r == Region::PH {
                8
            } else if r == Region::SG {
                9
            } else if r == Region::TH {
                10
            } else if r == Region::TR {
                11
            } else if r == Region::TW {
                12
            } else if r == Region::EUNE {
                13
            } else {
                14
            };
            assert(all_regions()[i] == r);
            assert(all_regions()[i].spec_code() == key);
        }
    }
}

/// Whether `c` is one of the digits `0` to `9`.
pub open spec fn is_digit(c: char) -> bool {
    48 <= c as u32 <= 57
}

/// Whether `s` holds digits only.
pub open spec fn all_digits(s: Seq<char>) -> bool {
    forall|i: int| 0 <= i < s.len() ==> is_digit(#[trigger] s[i])
}

/// The number that the digits of `s` write in decimal.
pub open spec fn digits_value(s: Seq<char>) -> nat
    decreases s.len(),
{
    if s.len() == 0 {
        0
    } else {
        digits_value(s.drop_last()) * 10 + (s.last() as u32 - 48) as nat
    }
}

/// `s` without a plus sign at its start.
pub open spec fn unsigned_part(s: Seq<char>) -> Seq<char> {
    if s.len() > 0 && s[0] == '+' {
        s.subrange(1, s.len() as int)
    } else {
        s
    }
}

/// The number that `s` writes: an optional plus sign, then one digit or
/// more and nothing else, for a number that a `usize` holds. Nothing for any
/// other text.
pub open spec fn parsed_number(s: Seq<char>) -> Option<nat> {
    let digits = unsigned_part(s);
    if digits.len() > 0 && all_digits(digits) && digits_value(digits) <= usize::MAX {
        Some(digits_value(digits))
    } else {
        None
    }
}

/// A number's first digits write no more than all of its digits.
pub proof fn lemma_prefix_value(s: Seq<char>, k: int)
    requires
        0 <= k <= s.len(),
        all_digits(s),
    ensures
        digits_value(s.take(k)) <= digits_value(s),
    decreases s.len(),
{
    if k == s.len() {
        assert(s.take(k) =~= s);
    } else {
        lemma_prefix_value(s.drop_last(), k);
        assert(s.drop_last().take(k) =~= s.take(k));
        assert(is_digit(s.last()));
    }
}

/// Reads `input` as a number.
pub fn parse_number(input: &str) -> (n: Option<usize>)
    ensures
        parsed_number(input@) == match n {
            Some(v) => Some(v as nat),
            None => None,
        },
{
    let len = input.unicode_len();
    let start: usize = if len > 0 && input.get_char(0) == '+' {
        1
    } else {
        0
    };
    if start >= len {
        assert(unsigned_part(input@).len() == 0);
        return None;
    }
    let ghost digits = unsigned_part(input@);
    assert(digits =~= input@.subrange(start as int, len as int));
    let mut value: usize = 0;
    let mut i: usize = start;
    assert(digits.take(0) =~= Seq::<char>::empty());
    while i < len
        invariant
            start <= i <= len,
            len == input@.len(),
            digits == input@.subrange(start as int, len as int),
            digits == unsigned_part(input@),
            all_digits(digits.take(i - start)),
            value == digits_value(digits.take(i - start)),
        decreases len - i,
    {
        let c = input.get_char(i);
        let code = c as u32;
        assert(digits[i - start] == c);
        if code < 48 || code > 57 {
            assert(!is_digit(digits[i - start]));
            return None;
        }
        let digit = (code - 48) as usize;
        proof {
            let next = digits.take(i - start + 1);
            assert(next.drop_last() =~= digits.take(i - start));
            assert(next.last() == c);
            assert(all_digits(next)) by {
                assert forall|j: int| 0 <= j < next.len() implies is_digit(#[trigger] next[j]) by {
                    if j < next.len() - 1 {
                        assert(next[j] == digits.take(i - start)[j]);
                    }
                }
            }
            assert(digits_value(next) == value * 10 + digit);
            if all_digits(digits) {
                lemma_prefix_value(digits, i - start + 1);
            }
        }
        let scaled = match value.checked_mul(10) {
            Some(v) => v,
            None => {
                return None;
            },
        };
        value = match scaled.checked_add(digit) {
            Some(v) => v,
            None => {
                return None;
            },
        };
        i += 1;
    }
    assert(digits.take(i - start) =~= digits);
    Some(value)
}

/// Whether `input` writes a number: an optional plus sign, then one digit
/// or more, for a number that a `usize` holds.
pub fn is_numeric(input: &str) -> (numeric: bool)
    ensures
        numeric == parsed_number(input@) is Some,
{
    parse_number(input).is_some()
}

/// How grave a status line is.
#[derive(Clone, Copy, Debug, PartialEq, Eq, Structural)]
pub enum LogKind {
    Info,
    Warning,
    Error,
}

impl LogKind {
    /// The kind's name.
    pub open spec fn spec_name(self) -> Seq<char> {
        match self {
            LogKind::Info => "Info"@,
            LogKind::Warning => "Warning"@,
            LogKind::Error => "Error"@,
        }
    }

    /// The kind's name.
    pub fn name(self) -> (s: &'static str)
        ensures
            s@ == self.spec_name(),
    {
        match self {
            LogKind::Info => "Info",
            LogKind::Warning => "Warning",
            LogKind::Error => "Error",
        }
    }

    /// The colour in which a message of the kind is shown.
    pub open spec fn spec_color(self) -> Color {
        match self {
            LogKind::Info => Color::Green,
            LogKind::Warning => Color::Yellow,
            LogKind::Error => Color::Red,
        }
    }

    /// The colour in which a message of the kind is shown.
    pub fn color(self) -> (c: Color)
        ensures
            c == self.spec_color(),
    {
        match self {
            LogKind::Info => Color::Green,
            LogKind::Warning => Color::Yellow,
            LogKind::Error => Color::Red,
        }
    }
}

/// The status line: what happened last, and on which day.
#[derive(Debug)]
pub struct Log {
    pub kind: LogKind,
    pub time_stamp: String,
    pub msg: String,
}

/// Today's date in the local time zone, as `chrono` writes the `NaiveDate`
/// of `Local::now()`. Nothing is claimed of it: it depends on the clock.
#[verifier::external_body]
fn today() -> (date: String) {
    chrono::offset::Local::now().date_naive().to_string()
}

impl Clone for Log {
    fn clone(&self) -> (r: Log)
        ensures
            r == *self,
    {
        Log { kind: self.kind, time_stamp: self.time_stamp.clone(), msg: self.msg.clone() }
    }
}

impl Log {
    /// A status line of today.
    pub fn new(kind: LogKind, msg: String) -> (log: Log)
        ensures
            log.kind == kind,
            log.msg == msg,
    {
        Log::dated(kind, today(), msg)
    }

    /// A status line of the day `time_stamp`.
    pub fn dated(kind: LogKind, time_stamp: String, msg: String) -> (log: Log)
        ensures
            log == (Log { kind, time_stamp, msg }),
    {
        Log { kind, time_stamp, msg }
    }
}

/// The status line's text: the kind, an arrow, the day in magenta, a colon,
/// and the message in the colour of the kind.
pub open spec fn log_text(log: Log) -> Seq<Seq<FragmentView>> {
    seq![
        seq![
            plain(log.kind.spec_name()),
            plain("=> "@),
            fragment(log.time_stamp@, Some(Color::Magenta), false, false),
            plain(":"@),
            fragment(log.msg@, Some(log.kind.spec_color()), false, false),
        ],
    ]
}

impl DisplayToText for Log {
    open spec fn styled(&self) -> Seq<Seq<FragmentView>> {
        log_text(*self)
    }

    fn format(&self) -> (text: StyledText) {
        let mut line = empty_line();
        push_fragment(&mut line, Fragment::plain(self.kind.name()));
        push_fragment(&mut line, Fragment::plain("=> "));
        push_fragment(
            &mut line,
            Fragment::styled(self.time_stamp.as_str(), Style::colored(Color::Magenta)),
        );
        push_fragment(&mut line, Fragment::plain(":"));
        push_fragment(
            &mut line,
            Fragment::styled(self.msg.as_str(), Style::colored(self.kind.color())),
        );
        let mut text = StyledText::new();
        text.push_line(line);
        assert(text@ =~~= log_text(*self));
        text
    }
}

} // verus!
