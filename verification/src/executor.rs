//! What the execution of a button's actions decides: which key or mouse
//! button a name stands for, which method a web request uses, and in which
//! order the keys of a tap go down and up.

use crate::text::{
    decimal, lowercased, push_decimal, str_equals, to_lowercase, to_uppercase, uppercased,
};
use vstd::prelude::*;
use vstd::string::{StrSliceExecFns, StringExecFns};
use vstd::utf8::is_ascii_chars;

verus! {

/// How serious a message of the execution is.
#[derive(Debug, Clone, Copy, PartialEq, Eq, Structural)]
pub enum LogLevel {
    Info,
    Error,
}

/// Where the execution of actions reports what it does.
pub trait ActionLogger {
    /// Reports a message that concerns the device.
    fn log_device(&self, level: LogLevel, message: String);

    /// Reports a message that concerns the meeting service.
    fn log_teams(&self, level: LogLevel, message: String);
}

/// A key of the keyboard.
#[derive(Debug, Clone, Copy, PartialEq, Eq, Structural)]
pub enum KeyCode {
    Return,
    Tab,
    Space,
    Backspace,
    Escape,
    Delete,
    Home,
    End,
    PageUp,
    PageDown,
    LeftArrow,
    RightArrow,
    UpArrow,
    DownArrow,
    F1,
    F2,
    F3,
    F4,
    F5,
    F6,
    F7,
    F8,
    F9,
    F10,
    F11,
    F12,
    Shift,
    Control,
    Alt,
    Meta,
    CapsLock,
    /// The key of a character.
    Unicode(char),
}

/// The key that a name in lower case stands for, if it is the name of one.
pub open spec fn named_key(lower: Seq<char>) -> Option<KeyCode> {
    if lower == "return"@ || lower == "enter"@ {
        Some(KeyCode::Return)
    } else if lower == "tab"@ {
        Some(KeyCode::Tab)
    } else if lower == "space"@ {
        Some(KeyCode::Space)
    } else if lower == "backspace"@ {
        Some(KeyCode::Backspace)
    } else if lower == "escape"@ || lower == "esc"@ {
        Some(KeyCode::Escape)
    } else if lower == "delete"@ {
        Some(KeyCode::Delete)
    } else if lower == "home"@ {
        Some(KeyCode::Home)
    } else if lower == "end"@ {
        Some(KeyCode::End)
    } else if lower == "pageup"@ {
        Some(KeyCode::PageUp)
    } else if lower == "pagedown"@ {
        Some(KeyCode::PageDown)
    } else if lower == "leftarrow"@ || lower == "left"@ {
        Some(KeyCode::LeftArrow)
    } else if lower == "rightarrow"@ || lower == "right"@ {
        Some(KeyCode::RightArrow)
    } else if lower == "uparrow"@ || lower == "up"@ {
        Some(KeyCode::UpArrow)
    } else if lower == "downarrow"@ || lower == "down"@ {
        Some(KeyCode::DownArrow)
    } else if lower == "f1"@ {
        Some(KeyCode::F1)
    } else if lower == "f2"@ {
        Some(KeyCode::F2)
    } else if lower == "f3"@ {
        Some(KeyCode::F3)
    } else if lower == "f4"@ {
        Some(KeyCode::F4)
    } else if lower == "f5"@ {
        Some(KeyCode::F5)
    } else if lower == "f6"@ {
        Some(KeyCode::F6)
    } else if lower == "f7"@ {
        Some(KeyCode::F7)
    } else if lower == "f8"@ {
        Some(KeyCode::F8)
    } else if lower == "f9"@ {
        Some(KeyCode::F9)
    } else if lower == "f10"@ {
        Some(KeyCode::F10)
    } else if lower == "f11"@ {
        Some(KeyCode::F11)
    } else if lower == "f12"@ {
        Some(KeyCode::F12)
    } else if lower == "shift"@ {
        Some(KeyCode::Shift)
    } else if lower == "control"@ || lower == "ctrl"@ {
        Some(KeyCode::Control)
    } else if lower == "alt"@ || lower == "option"@ {
        Some(KeyCode::Alt)
    } else if lower == "meta"@ || lower == "command"@ || lower == "cmd"@ || lower == "super"@ {
        Some(KeyCode::Meta)
    } else if lower == "capslock"@ {
        Some(KeyCode::CapsLock)
    } else {
        None
    }
}

/// The key that a text stands for, given the text in lower case: the key
/// of that name, or else, if the text is one ASCII character, the key of
/// that character as it was written.
pub open spec fn key_of(lower: Seq<char>, written: Seq<char>) -> Option<KeyCode> {
    match named_key(lower) {
        Some(key) => Some(key),
        None => if written.len() == 1 && is_ascii_chars(written) {
            Some(KeyCode::Unicode(written[0]))
        } else {
            None
        },
    }
}

/// The key that a text stands for.
pub open spec fn parsed_key(text: Seq<char>) -> Option<KeyCode> {
    key_of(lowercased(text), text)
}

/// Finds the key of a name in lower case.
fn key_by_name(lower: &str) -> (r: Option<KeyCode>)
    ensures
        r == named_key(lower@),
{
    if str_equals(lower, "return") || str_equals(lower, "enter") {
        Some(KeyCode::Return)
    } else if str_equals(lower, "tab") {
        Some(KeyCode::Tab)
    } else if str_equals(lower, "space") {
        Some(KeyCode::Space)
    } else if str_equals(lower, "backspace") {
        Some(KeyCode::Backspace)
    } else if str_equals(lower, "escape") || str_equals(lower, "esc") {
        Some(KeyCode::Escape)
    } else if str_equals(lower, "delete") {
        Some(KeyCode::Delete)
    } else if str_equals(lower, "home") {
        Some(KeyCode::Home)
    } else if str_equals(lower, "end") {
        Some(KeyCode::End)
    } else if str_equals(lower, "pageup") {
        Some(KeyCode::PageUp)
    } else if str_equals(lower, "pagedown") {
        Some(KeyCode::PageDown)
    } else if str_equals(lower, "leftarrow") || str_equals(lower, "left") {
        Some(KeyCode::LeftArrow)
    } else if str_equals(lower, "rightarrow") || str_equals(lower, "right") {
        Some(KeyCode::RightArrow)
    } else if str_equals(lower, "uparrow") || str_equals(lower, "up") {
        Some(KeyCode::UpArrow)
    } else if str_equals(lower, "downarrow") || str_equals(lower, "down") {
        Some(KeyCode::DownArrow)
    } else if str_equals(lower, "f1") {
        Some(KeyCode::F1)
    } else if str_equals(lower, "f2") {
        Some(KeyCode::F2)
    } else if str_equals(lower, "f3") {
        Some(KeyCode::F3)
    } else if str_equals(lower, "f4") {
        Some(KeyCode::F4)
    } else if str_equals(lower, "f5") {
        Some(KeyCode::F5)
    } else if str_equals(lower, "f6") {
        Some(KeyCode::F6)
    } else if str_equals(lower, "f7") {
        Some(KeyCode::F7)
    } else if str_equals(lower, "f8") {
        Some(KeyCode::F8)
    } else if str_equals(lower, "f9") {
        Some(KeyCode::F9)
    } else if str_equals(lower, "f10") {
        Some(KeyCode::F10)
    } else if str_equals(lower, "f11") {
        Some(KeyCode::F11)
    } else if str_equals(lower, "f12") {
        Some(KeyCode::F12)
    } else if str_equals(lower, "shift") {
        Some(KeyCode::Shift)
    } else if str_equals(lower, "control") || str_equals(lower, "ctrl") {
        Some(KeyCode::Control)
    } else if str_equals(lower, "alt") || str_equals(lower, "option") {
        Some(KeyCode::Alt)
    } else if str_equals(lower, "meta") || str_equals(lower, "command") || str_equals(lower, "cmd")
        || str_equals(lower, "super") {
        Some(KeyCode::Meta)
    } else if str_equals(lower, "capslock") {
        Some(KeyCode::CapsLock)
    } else {
        None
    }
}

/// Finds the key that a text stands for, given the text in lower case.
pub fn key_from_lowercase(lower: &str, written: &str) -> (r: Option<KeyCode>)
    ensures
        r == key_of(lower@, written@),
{
    match key_by_name(lower) {
        Some(key) => Some(key),
        None => {
            if written.unicode_len() == 1 && written.is_ascii() {
                Some(KeyCode::Unicode(written.get_char(0)))
            } else {
                None
            }
        },
    }
}

/// Finds the key that a text stands for: names of keys are understood in
/// any case, and one ASCII character stands for its own key.
pub fn parse_key(key_str: &str) -> (r: Option<KeyCode>)
    ensures
        r == parsed_key(key_str@),
{
    let lower = to_lowercase(key_str);
    key_from_lowercase(lower.as_str(), key_str)
}

/// A button of the mouse.
#[derive(Debug, Clone, Copy, PartialEq, Eq, Structural)]
pub enum MouseButtonCode {
    Left,
    Right,
    Middle,
}

/// The mouse button that a name in lower case stands for.
pub open spec fn button_of(lower: Seq<char>) -> Option<MouseButtonCode> {
    if lower == "left"@ {
        Some(MouseButtonCode::Left)
    } else if lower == "right"@ {
        Some(MouseButtonCode::Right)
    } else if lower == "middle"@ {
        Some(MouseButtonCode::Middle)
    } else {
        None
    }
}

/// Finds the mouse button of a name in lower case.
pub fn button_from_lowercase(lower: &str) -> (r: Option<MouseButtonCode>)
    ensures
        r == button_of(lower@),
{
    if str_equals(lower, "left") {
        Some(MouseButtonCode::Left)
    } else if str_equals(lower, "right") {
        Some(MouseButtonCode::Right)
    } else if str_equals(lower, "middle") {
        Some(MouseButtonCode::Middle)
    } else {
        None
    }
}

/// Finds the mouse button that a name stands for, in any case.
pub fn parse_mouse_button(button_str: &str) -> (r: Option<MouseButtonCode>)
    ensures
        r == button_of(lowercased(button_str@)),
{
    let lower = to_lowercase(button_str);
    button_from_lowercase(lower.as_str())
}

/// The methods of a web request.
#[derive(Debug, Clone, Copy, PartialEq, Eq, Structural)]
pub enum HttpMethod {
    Get,
    Post,
    Put,
    Delete,
    Patch,
}

/// The method that a name in upper case stands for.
pub open spec fn method_of(upper: Seq<char>) -> Option<HttpMethod> {
    if upper == "GET"@ {
        Some(HttpMethod::Get)
    } else if upper == "POST"@ {
        Some(HttpMethod::Post)
    } else if upper == "PUT"@ {
        Some(HttpMethod::Put)
    } else if upper == "DELETE"@ {
        Some(HttpMethod::Delete)
    } else if upper == "PATCH"@ {
        Some(HttpMethod::Patch)
    } else {
        None
    }
}

/// Finds the method of a name in upper case.
pub fn method_from_uppercase(upper: &str) -> (r: Option<HttpMethod>)
    ensures
        r == method_of(upper@),
{
    if str_equals(upper, "GET") {
        Some(HttpMethod::Get)
    } else if str_equals(upper, "POST") {
        Some(HttpMethod::Post)
    } else if str_equals(upper, "PUT") {
        Some(HttpMethod::Put)
    } else if str_equals(upper, "DELETE") {
        Some(HttpMethod::Delete)
    } else if str_equals(upper, "PATCH") {
        Some(HttpMethod::Patch)
    } else {
        None
    }
}

/// Finds the method that a name stands for, in any case. A name that
/// stands for none is not supported.
pub fn parse_http_method(method: &str) -> (r: Option<HttpMethod>)
    ensures
        r == method_of(uppercased(method@)),
{
    let upper = to_uppercase(method);
    method_from_uppercase(upper.as_str())
}

/// Which way a key or a button goes.
#[derive(Debug, Clone, Copy, PartialEq, Eq, Structural)]
pub enum Direction {
    Press,
    Release,
    Click,
}

/// One movement of a key.
#[derive(Debug, Clone, Copy, PartialEq, Eq, Structural)]
pub struct KeyStroke {
    pub key: KeyCode,
    pub direction: Direction,
}

/// The one stroke of a key that a text stands for, or none if it stands
/// for no key.
pub open spec fn stroke_of(text: Seq<char>, direction: Direction) -> Seq<KeyStroke> {
    match parsed_key(text) {
        Some(key) => seq![KeyStroke { key, direction }],
        None => Seq::empty(),
    }
}

/// The first `n` modifiers go down, in their order. A modifier that stands
/// for no key is passed over.
pub open spec fn presses(modifiers: Seq<String>, n: nat) -> Seq<KeyStroke>
    decreases n,
{
    if n == 0 || n > modifiers.len() {
        Seq::empty()
    } else {
        presses(modifiers, (n - 1) as nat) + stroke_of(modifiers[n - 1]@, Direction::Press)
    }
}

/// The first `n` modifiers go up, the last of them first.
pub open spec fn releases(modifiers: Seq<String>, n: nat) -> Seq<KeyStroke>
    decreases n,
{
    if n == 0 || n > modifiers.len() {
        Seq::empty()
    } else {
        stroke_of(modifiers[n - 1]@, Direction::Release) + releases(modifiers, (n - 1) as nat)
    }
}

/// The strokes of a tap: the modifiers go down, the key is clicked, and
/// the modifiers go up in the opposite order.
pub open spec fn tap_plan(key: Seq<char>, modifiers: Seq<String>) -> Seq<KeyStroke> {
    presses(modifiers, modifiers.len()) + stroke_of(key, Direction::Click) + releases(
        modifiers,
        modifiers.len(),
    )
}

/// Appends the stroke of the key that a text stands for, if it stands for
/// one.
fn push_stroke(out: &mut Vec<KeyStroke>, text: &str, direction: Direction)
    ensures
        final(out)@ == old(out)@ + stroke_of(text@, direction),
{
    if let Some(key) = parse_key(text) {
        out.push(KeyStroke { key, direction });
    }
}

/// Plans the strokes of a tap of a key while modifiers are held.
pub fn tap_strokes(key: &str, modifiers: &Vec<String>) -> (r: Vec<KeyStroke>)
    ensures
        r@ == tap_plan(key@, modifiers@),
{
    let mut out: Vec<KeyStroke> = Vec::new();
    let mut i: usize = 0;
    while i < modifiers.len()
        invariant
            i <= modifiers@.len(),
            out@ == presses(modifiers@, i as nat),
        decreases modifiers@.len() - i,
    {
        push_stroke(&mut out, modifiers[i].as_str(), Direction::Press);
        i += 1;
    }
    push_stroke(&mut out, key, Direction::Click);
    let ghost head = out@;
    let mut j: usize = modifiers.len();
    let ghost mut done: Seq<KeyStroke> = Seq::empty();
    while j > 0
        invariant
            j <= modifiers@.len(),
            out@ == head + done,
            releases(modifiers@, modifiers@.len()) == done + releases(modifiers@, j as nat),
        decreases j,
    {
        j -= 1;
        push_stroke(&mut out, modifiers[j].as_str(), Direction::Release);
        proof {
            done = done + stroke_of(modifiers@[j as int]@, Direction::Release);
        }
    }
    out
}

/// The notice that the actions of a button are carried out.
pub open spec fn execution_notice_text(is_long_press: bool, button_id: u8) -> Seq<char> {
    "Executing "@ + if is_long_press {
        "long-press action"@
    } else {
        "action"@
    } + " for button "@ + decimal(button_id as nat)
}

/// Writes the notice that the actions of a button are carried out.
pub fn execution_notice(is_long_press: bool, button_id: u8) -> (s: String)
    ensures
        s@ == execution_notice_text(is_long_press, button_id),
{
    let mut s = String::from_str("Executing ");
    if is_long_press {
        s.append("long-press action");
    } else {
        s.append("action");
    }
    s.append(" for button ");
    push_decimal(&mut s, button_id as u64);
    s
}

/// In a tap no modifier stays down: as many strokes release a key as press
/// one.
pub proof fn lemma_tap_releases_what_it_presses(modifiers: Seq<String>, n: nat)
    requires
        n <= modifiers.len(),
    ensures
        presses(modifiers, n).len() == releases(modifiers, n).len(),
        forall|i: int|
            0 <= i < presses(modifiers, n).len() ==> (#[trigger] presses(modifiers, n)[i]).key
                == releases(modifiers, n)[releases(modifiers, n).len() - 1 - i].key,
    decreases n,
{
    if n > 0 {
        lemma_tap_releases_what_it_presses(modifiers, (n - 1) as nat);
    }
}

} // verus!
