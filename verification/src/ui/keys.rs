//! The keys: what each is called, what each does, and the line that tells
//! the user so.

use vstd::prelude::*;
use vstd::string::*;

use crate::display::DisplayToText;
use crate::text::{
    decimal, empty_line, fragment, plain, push_decimal, push_fragment, Color, Fragment,
    FragmentView, Style, StyledText,
};
use crate::ui::app::{App, Input, Msg, Window};
use crate::utils::{region_of_code, route_of, Log, LogKind, Region};

verus! {

/// A key of the keyboard.
#[derive(Clone, Copy, Debug, PartialEq, Eq, Structural)]
pub enum Key {
    Backspace,
    Enter,
    Left,
    Right,
    Up,
    Down,
    Home,
    End,
    PageUp,
    PageDown,
    Tab,
    BackTab,
    Delete,
    Insert,
    F(u8),
    Char(char),
    Null,
    Esc,
    /// Any other key.
    Other,
}

impl Key {
    /// What the key is called: a character key is called by its character.
    pub open spec fn spec_name(self) -> Seq<char> {
        match self {
            Key::Backspace => "Backspace"@,
            Key::Enter => "Enter"@,
            Key::Left => "Left"@,
            Key::Right => "Right"@,
            Key::Up => "Up"@,
            Key::Down => "Down"@,
            Key::Home => "Home"@,
            Key::End => "End"@,
            Key::PageUp => "PageUp"@,
            Key::PageDown => "PageDown"@,
            Key::Tab => "Tab"@,
            Key::BackTab => "BackTab"@,
            Key::Delete => "Delete"@,
            Key::Insert => "Insert"@,
            Key::F(n) => "F("@ + decimal(n as nat) + ")"@,
            Key::Char(c) => seq![c],
            Key::Null => "Null"@,
            Key::Esc => "Esc"@,
            Key::Other => "Other"@,
        }
    }

    /// What the key is called.
    pub fn name(self) -> (s: String)
        ensures
            s@ == self.spec_name(),
    {
        match self {
            Key::Backspace => "Backspace".to_owned(),
            Key::Enter => "Enter".to_owned(),
            Key::Left => "Left".to_owned(),
            Key::Right => "Right".to_owned(),
            Key::Up => "Up".to_owned(),
            Key::Down => "Down".to_owned(),
            Key::Home => "Home".to_owned(),
            Key::End => "End".to_owned(),
            Key::PageUp => "PageUp".to_owned(),
            Key::PageDown => "PageDown".to_owned(),
            Key::Tab => "Tab".to_owned(),
            Key::BackTab => "BackTab".to_owned(),
            Key::Delete => "Delete".to_owned(),
            Key::Insert => "Insert".to_owned(),
            Key::F(n) => {
                let mut s = "F(".to_owned();
                push_decimal(&mut s, n as u64);
                s.append(")");
                s
            },
            Key::Char(c) => {
                let mut s = String::new();
                s.push(c);
                assert(s@ =~= seq![c]);
                s
            },
            Key::Null => "Null".to_owned(),
            Key::Esc => "Esc".to_owned(),
            Key::Other => "Other".to_owned(),
        }
    }
}

/// What the `Debug` form of a string slice writes for the characters
/// `text`: the text between double quotes, with escapes.
pub uninterp spec fn debug_quoted(text: Seq<char>) -> Seq<char>;

/// Formats `text` with `{:?}`, that is with `<str as Debug>::fmt`.
#[verifier::external_body]
fn quoted(text: &str) -> (out: String)
    ensures
        out@ == debug_quoted(text@),
{
    format!("{:?}", text)
}

/// The keys with what they do: each entry holds the keys that do one thing,
/// and a word for it.
#[derive(Debug)]
pub struct Keys {
    pub keys: Vec<(Vec<Key>, String)>,
}

impl View for Keys {
    type V = Seq<(Seq<Key>, Seq<char>)>;

    open spec fn view(&self) -> Seq<(Seq<Key>, Seq<char>)> {
        Seq::new(self.keys@.len(), |i: int| (self.keys@[i].0@, self.keys@[i].1@))
    }
}

/// The entries that the keys line has from the start.
pub open spec fn default_keys() -> Seq<(Seq<Key>, Seq<char>)> {
    seq![
        (seq![Key::Char('q'), Key::Esc], "Quit"@),
        (seq![Key::Char('i')], "focus input"@),
        (seq![Key::Tab], "switch window"@),
        (seq![Key::Down, Key::Char('j')], "down"@),
        (seq![Key::Up, Key::Char('j')], "up"@),
        (seq![Key::Enter], "search"@),
        (seq![Key::Insert], "clipboard"@),
        (seq![Key::Delete], "clear input"@),
        (seq![Key::Char('f')], "search with ENV vars"@),
    ]
}

/// An entry of one key.
fn binding(key: Key, what: &str) -> (entry: (Vec<Key>, String))
    ensures
        entry.0@ == seq![key],
        entry.1@ == what@,
{
    let mut keys: Vec<Key> = Vec::new();
    keys.push(key);
    (keys, what.to_owned())
}

/// An entry of two keys.
fn binding_of_two(first: Key, second: Key, what: &str) -> (entry: (Vec<Key>, String))
    ensures
        entry.0@ == seq![first, second],
        entry.1@ == what@,
{
    let mut keys: Vec<Key> = Vec::new();
    keys.push(first);
    keys.push(second);
    (keys, what.to_owned())
}

impl Keys {
    /// The keys line of the entries `keys`.
    pub fn with(keys: Vec<(Vec<Key>, String)>) -> (k: Keys)
        ensures
            k.keys == keys,
    {
        Keys { keys }
    }
}

impl Default for Keys {
    fn default() -> (k: Keys)
        ensures
            k@ == default_keys(),
    {
        let mut keys: Vec<(Vec<Key>, String)> = Vec::new();
        keys.push(binding_of_two(Key::Char('q'), Key::Esc, "Quit"));
        keys.push(binding(Key::Char('i'), "focus input"));
        keys.push(binding(Key::Tab, "switch window"));
        keys.push(binding_of_two(Key::Down, Key::Char('j'), "down"));
        keys.push(binding_of_two(Key::Up, Key::Char('j'), "up"));
        keys.push(binding(Key::Enter, "search"));
        keys.push(binding(Key::Insert, "clipboard"));
        keys.push(binding(Key::Delete, "clear input"));
        keys.push(binding(Key::Char('f'), "search with ENV vars"));
        let k = Keys { keys };
        assert(k@ =~= default_keys());
        k
    }
}

/// The names of the keys, each quoted.
pub open spec fn key_labels(keys: Seq<Key>) -> Seq<Seq<char>> {
    keys.map_values(|key: Key| debug_quoted(key.spec_name()))
}

/// The slash that stands between two keys, in the terminal's own colour.
pub open spec fn slash() -> FragmentView {
    fragment("/"@, Some(Color::Reset), false, false)
}

/// The labels in green, with a slash between each two.
pub open spec fn label_fragments(labels: Seq<Seq<char>>) -> Seq<FragmentView>
    decreases labels.len(),
{
    if labels.len() == 0 {
        Seq::empty()
    } else if labels.len() == 1 {
        seq![fragment(labels[0], Some(Color::Green), false, false)]
    } else {
        label_fragments(labels.drop_last()).push(slash()).push(
            fragment(labels.last(), Some(Color::Green), false, false),
        )
    }
}

/// The keys of one entry: their quoted names in green, with a slash
/// between each two.
pub open spec fn key_fragments(keys: Seq<Key>) -> Seq<FragmentView> {
    label_fragments(key_labels(keys))
}

/// One entry: its keys, an arrow, and in yellow what they do.
pub open spec fn binding_fragments(entry: (Seq<Key>, Seq<char>)) -> Seq<FragmentView> {
    key_fragments(entry.0).push(plain(" -> "@)).push(fragment(entry.1, Some(Color::Yellow), false, false))
}

/// All entries, with a bar between each two.
pub open spec fn keys_fragments(entries: Seq<(Seq<Key>, Seq<char>)>) -> Seq<FragmentView>
    decreases entries.len(),
{
    if entries.len() == 0 {
        Seq::empty()
    } else if entries.len() == 1 {
        binding_fragments(entries[0])
    } else {
        keys_fragments(entries.drop_last()).push(plain(" | "@)) + binding_fragments(entries.last())
    }
}

/// The names of the keys, each quoted.
fn quote_keys(keys: &Vec<Key>) -> (labels: Vec<String>)
    ensures
        labels.deep_view() == key_labels(keys@),
{
    let mut labels: Vec<String> = Vec::new();
    let mut i: usize = 0;
    assert(labels.deep_view() =~= key_labels(keys@.take(0)));
    while i < keys.len()
        invariant
            i <= keys.len(),
            labels.deep_view() == key_labels(keys@.take(i as int)),
        decreases keys.len() - i,
    {
        let ghost before = labels.deep_view();
        let name = keys[i].name();
        let label = quoted(name.as_str());
        labels.push(label);
        proof {
            assert(labels.deep_view() =~= before.push(debug_quoted(keys@[i as int].spec_name())));
            assert(labels.deep_view() =~= key_labels(keys@.take(i + 1)));
        }
        i += 1;
    }
    assert(keys@.take(i as int) =~= keys@);
    labels
}

/// Appends the labels in green, with a slash between each two.
pub fn push_labels(line: &mut Vec<Fragment>, labels: &Vec<String>)
    ensures
        final(line).deep_view() == old(line).deep_view() + label_fragments(labels.deep_view()),
{
    let mut i: usize = 0;
    proof {
        assert(labels.deep_view().take(0) =~= Seq::<Seq<char>>::empty());
        assert(line.deep_view() =~= old(line).deep_view() + label_fragments(
            labels.deep_view().take(0),
        ));
    }
    while i < labels.len()
        invariant
            i <= labels.len(),
            line.deep_view() == old(line).deep_view() + label_fragments(
                labels.deep_view().take(i as int),
            ),
        decreases labels.len() - i,
    {
        if i > 0 {
            push_fragment(line, Fragment::styled("/", Style::colored(Color::Reset)));
        }
        push_fragment(line, Fragment::styled(labels[i].as_str(), Style::colored(Color::Green)));
        proof {
            let all = labels.deep_view();
            assert(all.take(i + 1).drop_last() =~= all.take(i as int));
            assert(all.take(i + 1).last() == labels[i as int]@);
            assert(line.deep_view() =~= old(line).deep_view() + label_fragments(all.take(i + 1)));
        }
        i += 1;
    }
    assert(labels.deep_view().take(i as int) =~= labels.deep_view());
}

/// Appends the keys of one entry, with a slash between each two.
fn push_keys(line: &mut Vec<Fragment>, keys: &Vec<Key>)
    ensures
        final(line).deep_view() == old(line).deep_view() + key_fragments(keys@),
{
    let labels = quote_keys(keys);
    push_labels(line, &labels);
}

impl DisplayToText for Keys {
    /// The keys line: one line of all entries.
    open spec fn styled(&self) -> Seq<Seq<FragmentView>> {
        seq![keys_fragments(self@)]
    }

    fn format(&self) -> (text: StyledText) {
        let mut line = empty_line();
        let mut i: usize = 0;
        proof {
            assert(self@.take(0) =~= Seq::<(Seq<Key>, Seq<char>)>::empty());
        }
        while i < self.keys.len()
            invariant
                i <= self.keys.len(),
                line.deep_view() == keys_fragments(self@.take(i as int)),
            decreases self.keys.len() - i,
        {
            if i > 0 {
                push_fragment(&mut line, Fragment::plain(" | "));
            }
            push_keys(&mut line, &self.keys[i].0);
            push_fragment(&mut line, Fragment::plain(" -> "));
            push_fragment(
                &mut line,
                Fragment::styled(self.keys[i].1.as_str(), Style::colored(Color::Yellow)),
            );
            proof {
                assert(self@.take(i + 1).drop_last() =~= self@.take(i as int));
                assert(self@.take(i + 1).last() == (self.keys@[i as int].0@, self.keys@[i as int].1@));
                assert(line.deep_view() =~= keys_fragments(self@.take(i + 1)));
            }
            i += 1;
        }
        assert(self@.take(i as int) =~= self@);
        let mut text = StyledText::new();
        text.push_line(line);
        assert(text@ =~= seq![keys_fragments(self@)]);
        text
    }
}

/// Whether `log` says that the player called `name` is searched for in
/// `region`.
pub open spec fn says_searching(log: Log, region: Region, name: Seq<char>) -> bool {
    log.kind == LogKind::Info && log.msg@ == "searching: "@ + region.spec_platform() + " "@ + name
}

/// The status line that says that the player called `name` is searched for
/// in `region`.
pub fn searching_log(region: Region, name: &str) -> (log: Log)
    ensures
        says_searching(log, region, name@),
{
    let mut msg = "searching: ".to_owned();
    msg.append(region.platform());
    msg.append(" ");
    msg.append(name);
    Log::new(LogKind::Info, msg)
}

/// Whether the key asks for what the clipboard holds: the insert key does,
/// with the focus on the input.
pub fn wants_clipboard(app: &App, key: Key) -> (wanted: bool)
    ensures
        wanted == (app.focused() == Window::Input && key == Key::Insert),
{
    match (app.focus, key) {
        (Some(Window::Input), Key::Insert) => true,
        _ => false,
    }
}

/// What a key does while the focus is on the input: the state after it.
///
/// A character is added to the text and backspace takes the last one off;
/// the delete key empties the text; the insert key replaces it by
/// `clipboard`, or empties it where nothing could be read; enter empties it
/// too, and the log says what is searched for; tab gives the focus to the
/// next pane. No other key changes anything.
pub open spec fn typed(pre: App, key: Key, clipboard: Option<String>, post: App) -> bool {
    match key {
        Key::Tab => post == (App { focus: Some(pre.focused().spec_next()), ..pre }),
        Key::Enter => {
            &&& says_searching(post.log, pre.route, pre.input.content@)
            &&& post.input.content@ == Seq::<char>::empty()
            &&& post == (App { log: post.log, input: post.input, ..pre })
        },
        Key::Char(c) => post.input.content@ == pre.input.content@.push(c) && post == (App {
            input: post.input,
            ..pre
        }),
        Key::Backspace => post.input.content@ == (if pre.input.content@.len() > 0 {
            pre.input.content@.drop_last()
        } else {
            pre.input.content@
        }) && post == (App { input: post.input, ..pre }),
        Key::Insert => post.input.content@ == (match clipboard {
            Some(text) => text@,
            None => Seq::<char>::empty(),
        }) && post == (App { input: post.input, ..pre }),
        Key::Delete => post.input.content@ == Seq::<char>::empty() && post == (App {
            input: post.input,
            ..pre
        }),
        _ => post == pre,
    }
}

/// The message of a key while the focus is on the input: escape quits, and
/// enter asks for a search for what is typed in the chosen region.
pub open spec fn typed_message(pre: App, key: Key, msg: Option<Msg>) -> bool {
    match key {
        Key::Esc => msg matches Some(Msg::Quit),
        Key::Enter => msg matches Some(Msg::Search(route, name)) && route == pre.route && name@
            == pre.input.content@,
        _ => msg is None,
    }
}

/// What a key does while the focus is not on the input: the state after it.
///
/// Tab gives the focus to the next pane. The key `f`, where a quick search
/// is set, makes the log say what is searched for. No other key changes
/// anything.
pub open spec fn pressed(pre: App, key: Key, post: App) -> bool {
    match key {
        Key::Tab => post == (App { focus: Some(pre.focused().spec_next()), ..pre }),
        Key::Char('f') => match pre.data.env_search {
            Some((name, code)) => says_searching(post.log, region_of_code(code@), name@) && post == (
            App { log: post.log, ..pre }),
            None => post == pre,
        },
        _ => post == pre,
    }
}

/// The message of a key while the focus is not on the input: `q` and
/// escape quit; `i`, `r` and `l` give the focus to the input, to the list of
/// regions and to the list of matches; `j` and the down key move the
/// selection down, `k` and the up key move it up; enter, with the focus on
/// the list of regions, asks for a search for what is typed in the chosen
/// region; `f` asks for the quick search, where one is set.
pub open spec fn pressed_message(pre: App, key: Key, msg: Option<Msg>) -> bool {
    match key {
        Key::Char('q') | Key::Esc => msg matches Some(Msg::Quit),
        Key::Enter => match pre.focused() {
            Window::Route => msg matches Some(Msg::Search(route, name)) && route == pre.route && name
                == pre.input.content,
            _ => msg matches Some(Msg::NoOp),
        },
        Key::Char('f') => match pre.data.env_search {
            Some((name, code)) => msg matches Some(Msg::Search(route, n)) && route == region_of_code(
                code@,
            ) && n == name,
            None => msg is None,
        },
        Key::Char('j') | Key::Down => msg matches Some(Msg::Down),
        Key::Char('k') | Key::Up => msg matches Some(Msg::Up),
        Key::Char('i') => msg matches Some(Msg::Focus(Window::Input)),
        Key::Char('r') => msg matches Some(Msg::Focus(Window::Route)),
        Key::Char('l') => msg matches Some(Msg::Focus(Window::List)),
        _ => msg is None,
    }
}

/// Takes one key: changes what a key changes at once, and returns the
/// message that the key stands for, if it stands for one. `clipboard` is
/// what the clipboard holds, if it could be read; it is looked at only where
/// `wants_clipboard` holds.
pub fn handle_keys(app: &mut App, key: Key, clipboard: Option<String>) -> (msg: Option<Msg>)
    ensures
        old(app).focused() == Window::Input ==> typed(*old(app), key, clipboard, *final(app))
            && typed_message(*old(app), key, msg),
        old(app).focused() != Window::Input ==> pressed(*old(app), key, *final(app))
            && pressed_message(*old(app), key, msg),
        old(app).wf() ==> final(app).wf(),
{
    let focused = match app.focus {
        Some(w) => w,
        None => Window::Header,
    };
    if focused == Window::Input {
        match key {
            Key::Esc => Some(Msg::Quit),
            Key::Tab => {
                app.focus_next();
                None
            },
            Key::Enter => {
                let name = app.input.content.clone();
                app.log = searching_log(app.route, name.as_str());
                app.input.clear();
                Some(Msg::Search(app.route, name))
            },
            Key::Char(c) => {
                app.input.content.push(c);
                None
            },
            Key::Backspace => {
                app.input.delete();
                None
            },
            Key::Insert => {
                let text = match clipboard {
                    Some(text) => text,
                    None => String::new(),
                };
                app.input.set(text);
                None
            },
            Key::Delete => {
                app.input.clear();
                None
            },
            _ => None,
        }
    } else {
        match key {
            Key::Char('q') => Some(Msg::Quit),
            Key::Esc => Some(Msg::Quit),
            Key::Enter => Some(app.enter()),
            Key::Char('f') => {
                let search = match &app.data.env_search {
                    Some((name, code)) => Some((route_of(code.as_str()), name.clone())),
                    None => None,
                };
                match search {
                    Some((region, name)) => {
                        app.log = searching_log(region, name.as_str());
                        Some(Msg::Search(region, name))
                    },
                    None => None,
                }
            },
            Key::Tab => {
                app.focus_next();
                None
            },
            Key::Char('j') => Some(Msg::Down),
            Key::Down => Some(Msg::Down),
            Key::Up => Some(Msg::Up),
            Key::Char('k') => Some(Msg::Up),
            Key::Char('i') => Some(Msg::Focus(Window::Input)),
            Key::Char('r') => Some(Msg::Focus(Window::Route)),
            Key::Char('l') => Some(Msg::Focus(Window::List)),
            _ => None,
        }
    }
}

} // verus!
