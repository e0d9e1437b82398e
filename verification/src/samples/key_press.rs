//! A line editor driven by key presses: each key edits the line and says
//! what to print.
use vstd::prelude::*;

use crate::request::{Request, RequestHandler};
use crate::text::{pop_char, push_char};

verus! {

/// The command that ends the editor when it is the whole line.
pub const EXIT_COMMAND: &'static str = "exit";

/// The colors text can be printed in.
#[derive(Clone, Copy, Debug, PartialEq, Eq, Structural)]
pub enum TextColor {
    Red,
    Green,
    Blue,
    Yellow,
    Magenta,
    Cyan,
    White,
    DarkGrey,
    DarkRed,
}

/// How text is printed: its color, where one is set, and whether it is bold.
#[derive(Clone, Copy, Debug, PartialEq, Eq, Structural)]
pub struct TextStyle {
    pub color: Option<TextColor>,
    pub bold: bool,
}

impl TextStyle {
    /// The plain style: no color set, not bold.
    pub fn new() -> (s: TextStyle)
        ensures
            s == plain_style(),
    {
        TextStyle { color: None, bold: false }
    }
}

/// The plain style: no color set, not bold.
pub open spec fn plain_style() -> TextStyle {
    TextStyle { color: None, bold: false }
}

/// Text with the style it is printed in.
pub struct StyledText {
    pub style: TextStyle,
    pub content: String,
}

/// The keys the editor tells apart.
#[derive(Clone, Copy, Debug, PartialEq, Eq, Structural)]
pub enum KeyCode {
    Backspace,
    Enter,
    Char(char),
    Other,
}

/// What a key press leads to: the editor ends, nothing is printed, or text
/// is printed.
pub enum KeyPressResult {
    Exit,
    Continue,
    Print(StyledText),
}

/// What a key press leads to, with the printed text as characters.
pub enum KeyPressOutcome {
    Exit,
    Continue,
    Print(TextStyle, Seq<char>),
}

impl View for KeyPressResult {
    type V = KeyPressOutcome;

    open spec fn view(&self) -> KeyPressOutcome {
        match self {
            KeyPressResult::Exit => KeyPressOutcome::Exit,
            KeyPressResult::Continue => KeyPressOutcome::Continue,
            KeyPressResult::Print(s) => KeyPressOutcome::Print(s.style, s.content@),
        }
    }
}

impl KeyPressResult {
    /// Prints `s` in the plain style.
    pub fn print(s: String) -> (r: KeyPressResult)
        ensures
            r@ == KeyPressOutcome::Print(plain_style(), s@),
    {
        KeyPressResult::Print(StyledText { style: TextStyle::new(), content: s })
    }

    /// Replaces the printed text by what `f` makes of it, in the same style;
    /// any other outcome stays as it is.
    pub fn map<F: FnOnce(&String) -> String>(self, f: F) -> (r: KeyPressResult)
        requires
            self matches KeyPressResult::Print(styled) ==> call_requires(f, (&styled.content,)),
        ensures
            match self@ {
                KeyPressOutcome::Print(style, content) => exists|s: &String, out: String|
                    s@ == content && #[trigger] call_ensures(f, (s,), out) && r@
                        == KeyPressOutcome::Print(style, out@),
                _ => r@ == self@,
            },
    {
        match self {
            KeyPressResult::Print(styled) => {
                let style = styled.style;
                let content = styled.content;
                let out = f(&content);
                KeyPressResult::Print(StyledText { style, content: out })
            },
            _ => self,
        }
    }
}

/// The sequence that erases the character before the cursor.
pub open spec fn erase_sequence() -> Seq<char> {
    "\x1b[1D \x1b[1D"@
}

/// What a key does to the line and what it leads to: a backspace erases the
/// last character where there is one (and does nothing otherwise); enter
/// ends the editor where the line is the exit command, and otherwise clears
/// the line and starts a new one; a character is added to the line and
/// printed; any other key does nothing.
pub open spec fn key_press_step(line: Seq<char>, code: KeyCode) -> (Seq<char>, KeyPressOutcome) {
    match code {
        KeyCode::Backspace => if line.len() > 0 {
            (line.drop_last(), KeyPressOutcome::Print(plain_style(), erase_sequence()))
        } else {
            (line, KeyPressOutcome::Continue)
        },
        KeyCode::Enter => if line == "exit"@ {
            (line, KeyPressOutcome::Exit)
        } else {
            (Seq::empty(), KeyPressOutcome::Print(plain_style(), "\n"@))
        },
        KeyCode::Char(c) => (line.push(c), KeyPressOutcome::Print(plain_style(), seq![c])),
        KeyCode::Other => (line, KeyPressOutcome::Continue),
    }
}

/// A key press.
pub struct KeyPressRequest(pub KeyCode);

impl Request<KeyPressResult> for KeyPressRequest {}

/// Handles key presses, keeping the line typed so far.
pub struct KeyPressRequestHandler {
    line: String,
}

impl KeyPressRequestHandler {
    /// The line typed so far.
    pub closed spec fn line_spec(&self) -> Seq<char> {
        self.line@
    }

    /// A handler with an empty line.
    pub fn new() -> (h: KeyPressRequestHandler)
        ensures
            h.line_spec() == Seq::<char>::empty(),
    {
        KeyPressRequestHandler { line: String::new() }
    }

    /// The line typed so far.
    pub fn line(&self) -> (s: &str)
        ensures
            s@ == self.line_spec(),
    {
        self.line.as_str()
    }

    /// Applies a key to the line and says what it leads to.
    pub fn press(&mut self, code: KeyCode) -> (r: KeyPressResult)
        ensures
            (final(self).line_spec(), r@) == key_press_step(old(self).line_spec(), code),
            code matches KeyCode::Char(c) ==> r@ == KeyPressOutcome::Print(plain_style(), seq![c])
                && final(self).line_spec() == old(self).line_spec().push(c),
    {
        proof {
            reveal_strlit("\x1b[1D \x1b[1D");
            reveal_strlit("exit");
            reveal_strlit("\n");
        }
        match code {
            KeyCode::Backspace => {
                if !self.line.as_str().is_empty() {
                    let _ = pop_char(&mut self.line);
                    return KeyPressResult::print("\x1b[1D \x1b[1D".to_owned());
                }
            },
            KeyCode::Enter => {
                let exit = EXIT_COMMAND.to_owned();
                if self.line == exit {
                    return KeyPressResult::Exit;
                }
                self.line = String::new();
                return KeyPressResult::print("\n".to_owned());
            },
            KeyCode::Char(c) => {
                push_char(&mut self.line, c);
                let mut s = String::new();
                push_char(&mut s, c);
                assert(s@ =~= seq![c]);
                return KeyPressResult::print(s);
            },
            KeyCode::Other => {},
        }
        KeyPressResult::Continue
    }
}

impl Default for KeyPressRequestHandler {
    fn default() -> (h: KeyPressRequestHandler)
        ensures
            h.line_spec() == Seq::<char>::empty(),
    {
        KeyPressRequestHandler::new()
    }
}

impl RequestHandler<KeyPressRequest, KeyPressResult> for KeyPressRequestHandler {
    fn handle(&mut self, req: KeyPressRequest) -> (r: KeyPressResult)
        ensures
            (final(self).line_spec(), r@) == key_press_step(old(self).line_spec(), req.0),
            req.0 matches KeyCode::Char(c) ==> r@ == KeyPressOutcome::Print(plain_style(), seq![c])
                && final(self).line_spec() == old(self).line_spec().push(c),
    {
        self.press(req.0)
    }
}

/// What an outcome prints: the text of a printed outcome, nothing otherwise.
pub open spec fn printed(o: KeyPressOutcome) -> Seq<char> {
    match o {
        KeyPressOutcome::Print(_, content) => content,
        _ => Seq::empty(),
    }
}

/// Types the characters `chars` one after another on `line`: the line it
/// leaves and everything the keys printed, one after another.
pub open spec fn type_chars(line: Seq<char>, chars: Seq<char>) -> (Seq<char>, Seq<char>)
    decreases chars.len(),
{
    if chars.len() == 0 {
        (line, Seq::empty())
    } else {
        let (mid, echoed) = type_chars(line, chars.drop_last());
        let (next, o) = key_press_step(mid, KeyCode::Char(chars.last()));
        (next, echoed + printed(o))
    }
}

/// A character key, on any line, adds that character to the end of the
/// line and prints exactly that character, in the plain style.
pub proof fn law_char_echoes_itself(line: Seq<char>, c: char)
    ensures
        key_press_step(line, KeyCode::Char(c)).0 == line.push(c),
        key_press_step(line, KeyCode::Char(c)).1 == KeyPressOutcome::Print(plain_style(), seq![c]),
        key_press_step(line, KeyCode::Char(c)).0.len() == line.len() + 1,
        printed(key_press_step(line, KeyCode::Char(c)).1).len() == 1,
{
}

/// Typing characters one after another, on any line, prints exactly the
/// characters typed, in order, each once, and adds them to the end of the
/// line: what is on the screen after the line is the line.
pub proof fn law_typing_prints_what_is_typed(line: Seq<char>, chars: Seq<char>)
    ensures
        type_chars(line, chars).1 == chars,
        type_chars(line, chars).0 == line + chars,
    decreases chars.len(),
{
    if chars.len() > 0 {
        law_typing_prints_what_is_typed(line, chars.drop_last());
        assert(chars.drop_last().push(chars.last()) =~= chars);
        assert(type_chars(line, chars).1 =~= chars);
        assert(type_chars(line, chars).0 =~= line + chars);
    } else {
        assert(type_chars(line, chars).0 =~= line + chars);
    }
}

/// A backspace undoes the character typed just before it.
pub proof fn law_backspace_undoes_char(line: Seq<char>, c: char)
    ensures
        key_press_step(key_press_step(line, KeyCode::Char(c)).0, KeyCode::Backspace).0 == line,
{
    assert(line.push(c).drop_last() =~= line);
}

/// Enter ends the editor exactly where the line is the exit command; it
/// clears any other line.
pub proof fn law_enter_exits_only_on_command(line: Seq<char>)
    ensures
        (key_press_step(line, KeyCode::Enter).1 is Exit) <==> line == "exit"@,
        line != "exit"@ ==> key_press_step(line, KeyCode::Enter).0 == Seq::<char>::empty(),
{
}

/// A backspace on an empty line, or a key the editor does not know, changes
/// nothing and prints nothing.
pub proof fn law_idle_keys(line: Seq<char>)
    ensures
        key_press_step(line, KeyCode::Other) == (line, KeyPressOutcome::Continue),
        line.len() == 0 ==> key_press_step(line, KeyCode::Backspace) == (
            line,
            KeyPressOutcome::Continue,
        ),
{
}

} // verus!
