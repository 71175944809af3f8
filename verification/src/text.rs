//! Styled text: fragments of text with a colour and weight, grouped in
//! lines, and their rendering as a string with terminal escape sequences.

use vstd::prelude::*;
use vstd::string::*;
use vstd::utf8::*;

verus! {

/// A foreground colour: the terminal's own, or one of the sixteen colours
/// of the basic palette.
#[derive(Clone, Copy, Debug, PartialEq, Eq, Structural)]
pub enum Color {
    /// The colour that the terminal writes in where none is set.
    Reset,
    Black,
    DarkRed,
    DarkGreen,
    DarkYellow,
    DarkBlue,
    DarkMagenta,
    DarkCyan,
    Grey,
    DarkGrey,
    Red,
    Green,
    Yellow,
    Blue,
    Magenta,
    Cyan,
    White,
}

impl Color {
    /// The colour's number in the 256-colour palette; none for the
    /// terminal's own colour.
    pub open spec fn spec_index(self) -> Option<u8> {
        match self {
            Color::Reset => None,
            Color::Black => Some(0u8),
            Color::DarkRed => Some(1u8),
            Color::DarkGreen => Some(2u8),
            Color::DarkYellow => Some(3u8),
            Color::DarkBlue => Some(4u8),
            Color::DarkMagenta => Some(5u8),
            Color::DarkCyan => Some(6u8),
            Color::Grey => Some(7u8),
            Color::DarkGrey => Some(8u8),
            Color::Red => Some(9u8),
            Color::Green => Some(10u8),
            Color::Yellow => Some(11u8),
            Color::Blue => Some(12u8),
            Color::Magenta => Some(13u8),
            Color::Cyan => Some(14u8),
            Color::White => Some(15u8),
        }
    }

    /// The colour's number in the 256-colour palette; none for the
    /// terminal's own colour.
    #[verifier::when_used_as_spec(spec_index)]
    pub fn index(self) -> (n: Option<u8>)
        ensures
            n == self.spec_index(),
            n matches Some(i) ==> i < 16,
    {
        match self {
            Color::Reset => None,
            Color::Black => Some(0),
            Color::DarkRed => Some(1),
            Color::DarkGreen => Some(2),
            Color::DarkYellow => Some(3),
            Color::DarkBlue => Some(4),
            Color::DarkMagenta => Some(5),
            Color::DarkCyan => Some(6),
            Color::Grey => Some(7),
            Color::DarkGrey => Some(8),
            Color::Red => Some(9),
            Color::Green => Some(10),
            Color::Yellow => Some(11),
            Color::Blue => Some(12),
            Color::Magenta => Some(13),
            Color::Cyan => Some(14),
            Color::White => Some(15),
        }
    }
}

/// How a fragment is drawn: an optional foreground colour, and whether it
/// is bold or underlined.
#[derive(Clone, Copy, Debug)]
pub struct Style {
    pub fg: Option<Color>,
    pub bold: bool,
    pub underline: bool,
}

impl Style {
    /// No colour, not bold, not underlined.
    pub fn plain() -> (s: Style)
        ensures
            s == (Style { fg: None, bold: false, underline: false }),
    {
        Style { fg: None, bold: false, underline: false }
    }

    /// The colour `color`, not bold, not underlined.
    pub fn colored(color: Color) -> (s: Style)
        ensures
            s == (Style { fg: Some(color), bold: false, underline: false }),
    {
        Style { fg: Some(color), bold: false, underline: false }
    }

    /// The same style, bold.
    pub fn bold(self) -> (s: Style)
        ensures
            s == (Style { bold: true, ..self }),
    {
        Style { fg: self.fg, bold: true, underline: self.underline }
    }

    /// The same style, underlined.
    pub fn underlined(self) -> (s: Style)
        ensures
            s == (Style { underline: true, ..self }),
    {
        Style { fg: self.fg, bold: self.bold, underline: true }
    }
}

/// The decimal digit for `d`, which is below ten.
pub open spec fn digit(d: nat) -> char {
    if d == 0 {
        '0'
    } else if d == 1 {
        '1'
    } else if d == 2 {
        '2'
    } else if d == 3 {
        '3'
    } else if d == 4 {
        '4'
    } else if d == 5 {
        '5'
    } else if d == 6 {
        '6'
    } else if d == 7 {
        '7'
    } else if d == 8 {
        '8'
    } else {
        '9'
    }
}

/// `n` written in decimal, without leading zeros.
pub open spec fn decimal(n: nat) -> Seq<char>
    decreases n,
{
    if n < 10 {
        seq![digit(n)]
    } else {
        decimal(n / 10).push(digit(n % 10))
    }
}

fn digit_char(d: u64) -> (c: char)
    requires
        d < 10,
    ensures
        c == digit(d as nat),
{
    if d == 0 {
        '0'
    } else if d == 1 {
        '1'
    } else if d == 2 {
        '2'
    } else if d == 3 {
        '3'
    } else if d == 4 {
        '4'
    } else if d == 5 {
        '5'
    } else if d == 6 {
        '6'
    } else if d == 7 {
        '7'
    } else if d == 8 {
        '8'
    } else {
        '9'
    }
}

/// Two string slices are equal where they hold the same characters.
pub assume_specification[ <str as PartialEq>::eq ](a: &str, b: &str) -> (same: bool)
    ensures
        same == (a@ == b@),
;

/// `String::push` appends one character to the end of the string.
pub assume_specification[ String::push ](s: &mut String, ch: char)
    ensures
        final(s)@ == old(s)@.push(ch),
;

/// Appends `n` in decimal to `out`.
pub fn push_decimal(out: &mut String, n: u64)
    ensures
        final(out)@ == old(out)@ + decimal(n as nat),
    decreases n,
{
    if n >= 10 {
        push_decimal(out, n / 10);
    }
    out.push(digit_char(n % 10));
    proof {
        if n >= 10 {
            assert(old(out)@ + decimal(n as nat) =~= (old(out)@ + decimal((n / 10) as nat)).push(
                digit((n % 10) as nat),
            ));
        } else {
            assert(old(out)@ + decimal(n as nat) =~= old(out)@.push(digit(n as nat)));
        }
    }
}

/// `n` written in decimal.
pub fn decimal_string(n: u64) -> (s: String)
    ensures
        s@ == decimal(n as nat),
{
    let mut s = String::new();
    push_decimal(&mut s, n);
    assert(Seq::<char>::empty() + decimal(n as nat) =~= decimal(n as nat));
    s
}

/// A control sequence: escape, `[`, the parameters, `m`.
pub open spec fn csi(params: Seq<char>) -> Seq<char> {
    seq!['\x1b', '['] + params + seq!['m']
}

/// `text` between the escape sequences that switch a style on and off
/// again. Before the text stand the foreground colour, where one is set,
/// then bold, then underline; the colour is written by its number in the
/// 256-colour palette, and the terminal's own colour, for which `fg` holds
/// no number, as a reset of the foreground. After the text stands one reset
/// of everything where the text is bold or underlined, else a reset of the
/// foreground where a colour was set, else nothing.
pub open spec fn ansi(text: Seq<char>, fg: Option<Option<u8>>, bold: bool, underline: bool) -> Seq<
    char,
> {
    let color = match fg {
        Some(Some(n)) => csi(seq!['3', '8', ';', '5', ';'] + decimal(n as nat)),
        Some(None) => csi(seq!['3', '9']),
        None => Seq::empty(),
    };
    let weight = if bold {
        csi(seq!['1'])
    } else {
        Seq::empty()
    };
    let line = if underline {
        csi(seq!['4'])
    } else {
        Seq::empty()
    };
    let reset = if bold || underline {
        csi(seq!['0'])
    } else if fg is Some {
        csi(seq!['3', '9'])
    } else {
        Seq::empty()
    };
    color + weight + line + text + reset
}

/// Formats `text` as `crossterm` displays a `StyledContent` whose style has
/// the foreground `Color::AnsiValue(n)` for `fg == Some(Some(n))` and
/// `Color::Reset` for `fg == Some(None)`, and the attributes `Bold` and
/// `Underlined` as the two flags say. The contract writes out the escape
/// sequences that `PrintStyledContent::write_ansi` emits for such a style.
/// It holds where `crossterm` is built for a system whose terminals take
/// escape sequences; built for Windows, `crossterm` may write through the
/// console instead, and nothing into the string.
#[verifier::external_body]
fn paint(text: &str, fg: Option<Option<u8>>, bold: bool, underline: bool) -> (out: String)
    ensures
        out@ == ansi(text@, fg, bold, underline),
{
    let chosen: Vec<crossterm::style::Attribute> = bold
        .then_some(crossterm::style::Attribute::Bold)
        .into_iter()
        .chain(underline.then_some(crossterm::style::Attribute::Underlined))
        .collect();
    let style = crossterm::style::ContentStyle {
        foreground_color: fg
            .map(|n| n.map_or(crossterm::style::Color::Reset, crossterm::style::Color::AnsiValue)),
        background_color: None,
        underline_color: None,
        attributes: crossterm::style::Attributes::from(chosen.as_slice()),
    };
    format!("{}", style.apply(text))
}

/// A piece of text with one style.
#[derive(Debug)]
pub struct Fragment {
    pub text: String,
    pub style: Style,
}

/// What a fragment holds: its characters and its style.
pub struct FragmentView {
    pub text: Seq<char>,
    pub style: Style,
}

impl FragmentView {
    /// The fragment as a string with escape sequences.
    pub open spec fn ansi(self) -> Seq<char> {
        ansi(
            self.text,
            match self.style.fg {
                Some(c) => Some(c.spec_index()),
                None => None,
            },
            self.style.bold,
            self.style.underline,
        )
    }
}

/// A fragment with the given text and style.
pub open spec fn fragment(
    text: Seq<char>,
    fg: Option<Color>,
    bold: bool,
    underline: bool,
) -> FragmentView {
    FragmentView { text, style: Style { fg, bold, underline } }
}

/// A fragment without a style.
pub open spec fn plain(text: Seq<char>) -> FragmentView {
    fragment(text, None, false, false)
}

impl View for Fragment {
    type V = FragmentView;

    open spec fn view(&self) -> FragmentView {
        FragmentView { text: self.text@, style: self.style }
    }
}

impl DeepView for Fragment {
    type V = FragmentView;

    open spec fn deep_view(&self) -> FragmentView {
        self@
    }
}

impl Clone for Fragment {
    fn clone(&self) -> (r: Fragment)
        ensures
            r == *self,
    {
        Fragment { text: self.text.clone(), style: self.style }
    }
}

impl Fragment {
    /// The text `text` in the style `style`.
    pub fn new(text: String, style: Style) -> (f: Fragment)
        ensures
            f.text == text,
            f.style == style,
    {
        Fragment { text, style }
    }

    /// `text` in the style `style`.
    pub fn styled(text: &str, style: Style) -> (f: Fragment)
        ensures
            f@ == (FragmentView { text: text@, style }),
    {
        Fragment { text: text.to_owned(), style }
    }

    /// `text` without a style.
    pub fn plain(text: &str) -> (f: Fragment)
        ensures
            f@ == (FragmentView {
                text: text@,
                style: Style { fg: None, bold: false, underline: false },
            }),
    {
        Fragment { text: text.to_owned(), style: Style::plain() }
    }

    /// The fragment as a string with escape sequences.
    pub fn to_ansi(&self) -> (out: String)
        ensures
            out@ == self@.ansi(),
    {
        let fg = match self.style.fg {
            Some(c) => Some(c.index()),
            None => None,
        };
        paint(self.text.as_str(), fg, self.style.bold, self.style.underline)
    }
}

/// Appends a fragment to a line.
pub fn push_fragment(line: &mut Vec<Fragment>, fragment: Fragment)
    ensures
        final(line).deep_view() == old(line).deep_view().push(fragment@),
{
    line.push(fragment);
    assert(line.deep_view() =~= old(line).deep_view().push(fragment@));
}

/// A line without fragments.
pub fn empty_line() -> (line: Vec<Fragment>)
    ensures
        line.deep_view() == Seq::<FragmentView>::empty(),
{
    let line: Vec<Fragment> = Vec::new();
    assert(line.deep_view() =~= Seq::<FragmentView>::empty());
    line
}

/// A copy of a line.
pub fn clone_line(line: &Vec<Fragment>) -> (copy: Vec<Fragment>)
    ensures
        copy.deep_view() == line.deep_view(),
{
    let mut copy = empty_line();
    let mut i: usize = 0;
    assert(line.deep_view().take(0) =~= Seq::<FragmentView>::empty());
    while i < line.len()
        invariant
            i <= line.len(),
            copy.deep_view() == line.deep_view().take(i as int),
        decreases line.len() - i,
    {
        push_fragment(&mut copy, line[i].clone());
        assert(copy.deep_view() =~= line.deep_view().take(i + 1));
        i += 1;
    }
    assert(line.deep_view().take(i as int) =~= line.deep_view());
    copy
}

/// The fragments of a line as one string with escape sequences.
pub open spec fn line_ansi(line: Seq<FragmentView>) -> Seq<char>
    decreases line.len(),
{
    if line.len() == 0 {
        Seq::empty()
    } else {
        line_ansi(line.drop_last()) + line.last().ansi()
    }
}

/// Lines as one string with escape sequences, a line feed between each two.
pub open spec fn text_ansi(lines: Seq<Seq<FragmentView>>) -> Seq<char>
    decreases lines.len(),
{
    if lines.len() == 0 {
        Seq::empty()
    } else if lines.len() == 1 {
        line_ansi(lines[0])
    } else {
        text_ansi(lines.drop_last()) + seq!['\n'] + line_ansi(lines.last())
    }
}

/// A line as one string with escape sequences.
pub fn line_to_ansi(line: &Vec<Fragment>) -> (out: String)
    ensures
        out@ == line_ansi(line.deep_view()),
{
    let mut out = String::new();
    let mut i: usize = 0;
    while i < line.len()
        invariant
            i <= line.len(),
            out@ == line_ansi(line.deep_view().take(i as int)),
        decreases line.len() - i,
    {
        let piece = line[i].to_ansi();
        out.append(piece.as_str());
        proof {
            let all = line.deep_view();
            assert(all.take(i + 1).drop_last() =~= all.take(i as int));
            assert(all.take(i + 1).last() == line[i as int]@);
        }
        i += 1;
    }
    assert(line.deep_view().take(i as int) =~= line.deep_view());
    out
}

/// Styled text: lines of fragments.
#[derive(Debug)]
pub struct StyledText {
    pub lines: Vec<Vec<Fragment>>,
}

impl View for StyledText {
    type V = Seq<Seq<FragmentView>>;

    open spec fn view(&self) -> Seq<Seq<FragmentView>> {
        self.lines.deep_view()
    }
}

impl DeepView for StyledText {
    type V = Seq<Seq<FragmentView>>;

    open spec fn deep_view(&self) -> Seq<Seq<FragmentView>> {
        self@
    }
}

impl Clone for StyledText {
    fn clone(&self) -> (copy: StyledText)
        ensures
            copy@ == self@,
    {
        let mut copy = StyledText::new();
        let mut i: usize = 0;
        assert(self@.take(0) =~= Seq::<Seq<FragmentView>>::empty());
        while i < self.lines.len()
            invariant
                i <= self.lines.len(),
                copy@ == self@.take(i as int),
            decreases self.lines.len() - i,
        {
            copy.push_line(clone_line(&self.lines[i]));
            assert(copy@ =~= self@.take(i + 1));
            i += 1;
        }
        assert(self@.take(i as int) =~= self@);
        copy
    }
}

impl StyledText {
    /// Text without lines.
    pub fn new() -> (t: StyledText)
        ensures
            t@ == Seq::<Seq<FragmentView>>::empty(),
    {
        let t = StyledText { lines: Vec::new() };
        assert(t@ =~= Seq::<Seq<FragmentView>>::empty());
        t
    }

    /// One line with one fragment.
    pub fn styled(text: &str, style: Style) -> (t: StyledText)
        ensures
            t@ == seq![seq![FragmentView { text: text@, style }]],
    {
        let mut line: Vec<Fragment> = Vec::new();
        line.push(Fragment::styled(text, style));
        let mut lines: Vec<Vec<Fragment>> = Vec::new();
        lines.push(line);
        let t = StyledText { lines };
        assert(t@ =~~= seq![seq![FragmentView { text: text@, style }]]);
        t
    }

    /// Appends a line.
    pub fn push_line(&mut self, line: Vec<Fragment>)
        ensures
            final(self)@ == old(self)@.push(line.deep_view()),
    {
        self.lines.push(line);
        assert(self@ =~= old(self)@.push(line.deep_view()));
    }

    /// The text as one string with escape sequences, a line feed between
    /// each two lines.
    pub fn to_ansi(&self) -> (out: String)
        ensures
            out@ == text_ansi(self@),
    {
        let mut out = String::new();
        let mut i: usize = 0;
        while i < self.lines.len()
            invariant
                i <= self.lines.len(),
                out@ == text_ansi(self@.take(i as int)),
            decreases self.lines.len() - i,
        {
            if i > 0 {
                out.push('\n');
            }
            let piece = line_to_ansi(&self.lines[i]);
            out.append(piece.as_str());
            proof {
                let all = self@;
                assert(all.take(i + 1).drop_last() =~= all.take(i as int));
                assert(all.take(i + 1).last() == self.lines[i as int].deep_view());
                if i == 0 {
                    assert(all.take(1)[0] == self.lines[0].deep_view());
                    assert(out@ =~= line_ansi(self.lines[0].deep_view()));
                } else {
                    assert(out@ =~= text_ansi(all.take(i as int)) + seq!['\n'] + line_ansi(
                        self.lines[i as int].deep_view(),
                    ));
                }
            }
            i += 1;
        }
        assert(self@.take(i as int) =~= self@);
        out
    }
}

/// Appends a text to a list of texts.
pub fn push_text(texts: &mut Vec<StyledText>, text: StyledText)
    ensures
        final(texts).deep_view() == old(texts).deep_view().push(text@),
{
    texts.push(text);
    assert(texts.deep_view() =~= old(texts).deep_view().push(text@));
}

/// On which side of the fill the text stands.
#[derive(Clone, Copy, Debug, PartialEq, Eq, Structural)]
pub enum Pad {
    /// The text first, the fill after it.
    Left,
    /// The fill first, the text after it.
    Right,
    /// Half of the fill on each side.
    Center,
}

/// The character `ch`, `n` times.
pub open spec fn repeat(ch: char, n: nat) -> Seq<char> {
    Seq::new(n, |i: int| ch)
}

/// The length of `text` in bytes, as UTF-8.
pub open spec fn byte_len(text: Seq<char>) -> nat {
    encode_utf8(text).len()
}

/// How many fill characters bring `text` to `amount` bytes.
pub open spec fn fill_len(text: Seq<char>, amount: nat) -> nat {
    if amount > byte_len(text) {
        (amount - byte_len(text)) as nat
    } else {
        0
    }
}

/// `text` brought to `amount` bytes with the fill character `ch`. Text that
/// is long enough stays as it is. In the centre the text has half of the
/// fill, rounded down, before it and as much after it, and one fill
/// character more after it where its own length in bytes is odd.
pub open spec fn padded(text: Seq<char>, side: Pad, amount: nat, ch: char) -> Seq<char> {
    let fill = fill_len(text, amount);
    if fill == 0 {
        text
    } else {
        match side {
            Pad::Left => text + repeat(ch, fill),
            Pad::Right => repeat(ch, fill) + text,
            Pad::Center => repeat(ch, fill / 2) + text + repeat(
                ch,
                if byte_len(text) % 2 == 1 {
                    fill / 2 + 1
                } else {
                    fill / 2
                },
            ),
        }
    }
}

/// Appends `ch` to `out`, `n` times.
pub fn push_repeated(out: &mut String, ch: char, n: usize)
    ensures
        final(out)@ == old(out)@ + repeat(ch, n as nat),
{
    let mut i: usize = 0;
    assert(out@ =~= old(out)@ + repeat(ch, 0nat));
    while i < n
        invariant
            i <= n,
            out@ == old(out)@ + repeat(ch, i as nat),
        decreases n - i,
    {
        out.push(ch);
        assert(out@ =~= old(out)@ + repeat(ch, (i + 1) as nat));
        i += 1;
    }
}

/// Brings `text` to `amount` bytes with the fill byte `ch`, which is ASCII
/// where anything is to be filled.
pub fn padding(text: String, side: Pad, amount: usize, ch: u8) -> (out: String)
    requires
        ch < 128 || fill_len(text@, amount as nat) == 0,
    ensures
        out@ == padded(text@, side, amount as nat, ch as char),
{
    let len = text.as_str().as_bytes().len();
    let fill: usize = if amount > len {
        amount - len
    } else {
        0
    };
    if fill == 0 {
        return text;
    }
    let c = ch as char;
    match side {
        Pad::Left => {
            let mut out = text;
            push_repeated(&mut out, c, fill);
            out
        },
        Pad::Right => {
            let mut out = String::new();
            push_repeated(&mut out, c, fill);
            out.append(text.as_str());
            assert(out@ =~= repeat(c, fill as nat) + text@);
            out
        },
        Pad::Center => {
            let after: usize = if len % 2 == 1 {
                fill / 2 + 1
            } else {
                fill / 2
            };
            let mut out = String::new();
            push_repeated(&mut out, c, fill / 2);
            out.append(text.as_str());
            push_repeated(&mut out, c, after);
            assert(out@ =~= repeat(c, (fill / 2) as nat) + text@ + repeat(c, after as nat));
            out
        },
    }
}

} // verus!
