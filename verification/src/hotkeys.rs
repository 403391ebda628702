//! Keyboard shortcuts written as text, such as `Ctrl+Alt+Space`: reading
//! them into modifiers and a key, and writing a captured combination back in
//! the same syntax.

use vstd::prelude::*;
use crate::text::{
    ascii_lower_char,     chars_eq, chars_of, is_white_space, join, join_strings, lacks,
    lemma_split_join, lemma_trim_nonempty, lower, lowercase_chars, split_chars, split_on,
    string_of, trim, trim_chars, trim_end, trim_start,
};

verus! {

/// Modifier keys held with a shortcut.
#[derive(Debug, Clone, Copy, PartialEq, Eq, Structural)]
pub struct Modifiers {
    pub ctrl: bool,
    pub alt: bool,
    pub shift: bool,
    /// The Windows (super, meta, command) key.
    pub meta: bool,
}

/// The keys a shortcut can use.
#[derive(Debug, Clone, Copy, PartialEq, Eq, Structural)]
pub enum KeyCode {
    Space, ArrowLeft, ArrowRight, ArrowUp, ArrowDown, Enter, Tab, Escape, Backspace, Delete, F1, F2, F3, F4, F5, F6, F7, F8, F9, F10, F11, F12, Digit0, Digit1, Digit2, Digit3, Digit4, Digit5, Digit6, Digit7, Digit8, Digit9, KeyA, KeyB, KeyC, KeyD, KeyE, KeyF, KeyG, KeyH, KeyI, KeyJ, KeyK, KeyL, KeyM, KeyN, KeyO, KeyP, KeyQ, KeyR, KeyS, KeyT, KeyU, KeyV, KeyW, KeyX, KeyY, KeyZ,
}

/// A shortcut: modifiers and one key.
#[derive(Debug, Clone, Copy, PartialEq, Eq, Structural)]
pub struct HotKey {
    pub mods: Modifiers,
    pub code: KeyCode,
}

/// No modifier.
pub open spec fn no_mods() -> Modifiers {
    Modifiers { ctrl: false, alt: false, shift: false, meta: false }
}

/// `c` is an ASCII letter.
pub open spec fn is_ascii_alpha(c: char) -> bool {
    ('a' <= c <= 'z') || ('A' <= c <= 'Z')
}

/// `c` with `a`-`z` mapped to `A`-`Z`.
pub open spec fn ascii_upper(c: char) -> char {
    if 'a' <= c <= 'z' {
        ((c as u32) - 32) as char
    } else {
        c
    }
}

/// The key of an upper-case letter.
pub open spec fn letter_code(c: char) -> KeyCode {
    if c == 'A' {
        KeyCode::KeyA
    } else if c == 'B' {
        KeyCode::KeyB
    } else if c == 'C' {
        KeyCode::KeyC
    } else if c == 'D' {
        KeyCode::KeyD
    } else if c == 'E' {
        KeyCode::KeyE
    } else if c == 'F' {
        KeyCode::KeyF
    } else if c == 'G' {
        KeyCode::KeyG
    } else if c == 'H' {
        KeyCode::KeyH
    } else if c == 'I' {
        KeyCode::KeyI
    } else if c == 'J' {
        KeyCode::KeyJ
    } else if c == 'K' {
        KeyCode::KeyK
    } else if c == 'L' {
        KeyCode::KeyL
    } else if c == 'M' {
        KeyCode::KeyM
    } else if c == 'N' {
        KeyCode::KeyN
    } else if c == 'O' {
        KeyCode::KeyO
    } else if c == 'P' {
        KeyCode::KeyP
    } else if c == 'Q' {
        KeyCode::KeyQ
    } else if c == 'R' {
        KeyCode::KeyR
    } else if c == 'S' {
        KeyCode::KeyS
    } else if c == 'T' {
        KeyCode::KeyT
    } else if c == 'U' {
        KeyCode::KeyU
    } else if c == 'V' {
        KeyCode::KeyV
    } else if c == 'W' {
        KeyCode::KeyW
    } else if c == 'X' {
        KeyCode::KeyX
    } else if c == 'Y' {
        KeyCode::KeyY
    } else if c == 'Z' {
        KeyCode::KeyZ
    } else {
        KeyCode::KeyA
    }
}

/// Letter keys ignore case: a letter, its upper case and its lower case
/// name the same key, and two letters name the same key exactly when they
/// are the same letter up to case.
pub proof fn lemma_letter_keys_ignore_case(a: char, b: char)
    requires
        is_ascii_alpha(a),
        is_ascii_alpha(b),
    ensures
        letter_code(ascii_upper(a)) == letter_code(ascii_upper(ascii_upper(a))),
        letter_code(ascii_upper(a)) == letter_code(ascii_upper(ascii_lower_char(a))),
        (letter_code(ascii_upper(a)) == letter_code(ascii_upper(b))) <==> (ascii_upper(a)
            == ascii_upper(b)),
{
    lemma_letter_code_injective(ascii_upper(a), ascii_upper(b));
}

proof fn lemma_letter_code_injective(x: char, y: char)
    requires
        'A' <= x <= 'Z',
        'A' <= y <= 'Z',
    ensures
        letter_code(x) == letter_code(y) ==> x == y,
{
}

/// The key a lower-cased key name stands for: the named keys (space,
/// arrows, enter, tab, escape, backspace, delete, F1 to F12, digits) and
/// single letters.
pub open spec fn code_named(name: Seq<char>) -> Option<KeyCode> {
    if name == "space"@ {
        Some(KeyCode::Space)
    } else if name == "left"@ {
        Some(KeyCode::ArrowLeft)
    } else if name == "arrowleft"@ {
        Some(KeyCode::ArrowLeft)
    } else if name == "right"@ {
        Some(KeyCode::ArrowRight)
    } else if name == "arrowright"@ {
        Some(KeyCode::ArrowRight)
    } else if name == "up"@ {
        Some(KeyCode::ArrowUp)
    } else if name == "arrowup"@ {
        Some(KeyCode::ArrowUp)
    } else if name == "down"@ {
        Some(KeyCode::ArrowDown)
    } else if name == "arrowdown"@ {
        Some(KeyCode::ArrowDown)
    } else if name == "enter"@ {
        Some(KeyCode::Enter)
    } else if name == "return"@ {
        Some(KeyCode::Enter)
    } else if name == "tab"@ {
        Some(KeyCode::Tab)
    } else if name == "escape"@ {
        Some(KeyCode::Escape)
    } else if name == "esc"@ {
        Some(KeyCode::Escape)
    } else if name == "backspace"@ {
        Some(KeyCode::Backspace)
    } else if name == "delete"@ {
        Some(KeyCode::Delete)
    } else if name == "del"@ {
        Some(KeyCode::Delete)
    } else if name == "f1"@ {
        Some(KeyCode::F1)
    } else if name == "f2"@ {
        Some(KeyCode::F2)
    } else if name == "f3"@ {
        Some(KeyCode::F3)
    } else if name == "f4"@ {
        Some(KeyCode::F4)
    } else if name == "f5"@ {
        Some(KeyCode::F5)
    } else if name == "f6"@ {
        Some(KeyCode::F6)
    } else if name == "f7"@ {
        Some(KeyCode::F7)
    } else if name == "f8"@ {
        Some(KeyCode::F8)
    } else if name == "f9"@ {
        Some(KeyCode::F9)
    } else if name == "f10"@ {
        Some(KeyCode::F10)
    } else if name == "f11"@ {
        Some(KeyCode::F11)
    } else if name == "f12"@ {
        Some(KeyCode::F12)
    } else if name == "0"@ {
        Some(KeyCode::Digit0)
    } else if name == "1"@ {
        Some(KeyCode::Digit1)
    } else if name == "2"@ {
        Some(KeyCode::Digit2)
    } else if name == "3"@ {
        Some(KeyCode::Digit3)
    } else if name == "4"@ {
        Some(KeyCode::Digit4)
    } else if name == "5"@ {
        Some(KeyCode::Digit5)
    } else if name == "6"@ {
        Some(KeyCode::Digit6)
    } else if name == "7"@ {
        Some(KeyCode::Digit7)
    } else if name == "8"@ {
        Some(KeyCode::Digit8)
    } else if name == "9"@ {
        Some(KeyCode::Digit9)
    } else if name.len() == 1 && is_ascii_alpha(name[0]) {
        Some(letter_code(ascii_upper(name[0])))
    } else {
        None
    }
}

/// Every key name that a shortcut may use, aliases included, reads as its
/// own key: `space`; `left`/`arrowleft`, `right`/`arrowright`, `up`/`arrowup`,
/// `down`/`arrowdown` for the arrows; `enter`/`return`; `tab`;
/// `escape`/`esc`; `backspace`; `delete`/`del`; `f1` to `f12` for the
/// function keys; `0` to `9` for the digit keys.
pub proof fn lemma_key_names_read_as_their_keys()
    ensures
        code_named("space"@) == Some(KeyCode::Space),
        code_named("left"@) == Some(KeyCode::ArrowLeft),
        code_named("arrowleft"@) == Some(KeyCode::ArrowLeft),
        code_named("right"@) == Some(KeyCode::ArrowRight),
        code_named("arrowright"@) == Some(KeyCode::ArrowRight),
        code_named("up"@) == Some(KeyCode::ArrowUp),
        code_named("arrowup"@) == Some(KeyCode::ArrowUp),
        code_named("down"@) == Some(KeyCode::ArrowDown),
        code_named("arrowdown"@) == Some(KeyCode::ArrowDown),
        code_named("enter"@) == Some(KeyCode::Enter),
        code_named("return"@) == Some(KeyCode::Enter),
        code_named("tab"@) == Some(KeyCode::Tab),
        code_named("escape"@) == Some(KeyCode::Escape),
        code_named("esc"@) == Some(KeyCode::Escape),
        code_named("backspace"@) == Some(KeyCode::Backspace),
        code_named("delete"@) == Some(KeyCode::Delete),
        code_named("del"@) == Some(KeyCode::Delete),
        code_named("f1"@) == Some(KeyCode::F1),
        code_named("f2"@) == Some(KeyCode::F2),
        code_named("f3"@) == Some(KeyCode::F3),
        code_named("f4"@) == Some(KeyCode::F4),
        code_named("f5"@) == Some(KeyCode::F5),
        code_named("f6"@) == Some(KeyCode::F6),
        code_named("f7"@) == Some(KeyCode::F7),
        code_named("f8"@) == Some(KeyCode::F8),
        code_named("f9"@) == Some(KeyCode::F9),
        code_named("f10"@) == Some(KeyCode::F10),
        code_named("f11"@) == Some(KeyCode::F11),
        code_named("f12"@) == Some(KeyCode::F12),
        code_named("0"@) == Some(KeyCode::Digit0),
        code_named("1"@) == Some(KeyCode::Digit1),
        code_named("2"@) == Some(KeyCode::Digit2),
        code_named("3"@) == Some(KeyCode::Digit3),
        code_named("4"@) == Some(KeyCode::Digit4),
        code_named("5"@) == Some(KeyCode::Digit5),
        code_named("6"@) == Some(KeyCode::Digit6),
        code_named("7"@) == Some(KeyCode::Digit7),
        code_named("8"@) == Some(KeyCode::Digit8),
        code_named("9"@) == Some(KeyCode::Digit9),
{
    reveal_strlit("space");
    reveal_strlit("left");
    reveal_strlit("arrowleft");
    reveal_strlit("right");
    reveal_strlit("arrowright");
    reveal_strlit("up");
    reveal_strlit("arrowup");
    reveal_strlit("down");
    reveal_strlit("arrowdown");
    reveal_strlit("enter");
    reveal_strlit("return");
    reveal_strlit("tab");
    reveal_strlit("escape");
    reveal_strlit("esc");
    reveal_strlit("backspace");
    reveal_strlit("delete");
    reveal_strlit("del");
    reveal_strlit("f1");
    reveal_strlit("f2");
    reveal_strlit("f3");
    reveal_strlit("f4");
    reveal_strlit("f5");
    reveal_strlit("f6");
    reveal_strlit("f7");
    reveal_strlit("f8");
    reveal_strlit("f9");
    reveal_strlit("f10");
    reveal_strlit("f11");
    reveal_strlit("f12");
    reveal_strlit("0");
    reveal_strlit("1");
    reveal_strlit("2");
    reveal_strlit("3");
    reveal_strlit("4");
    reveal_strlit("5");
    reveal_strlit("6");
    reveal_strlit("7");
    reveal_strlit("8");
    reveal_strlit("9");
    assert("space"@.len() == 5 && "space"@[0] == 's' && "space"@[1] == 'p' && "space"@[2] == 'a' && "space"@[3] == 'c' && "space"@[4] == 'e');
    assert("left"@.len() == 4 && "left"@[0] == 'l' && "left"@[1] == 'e' && "left"@[2] == 'f' && "left"@[3] == 't');
    assert("arrowleft"@.len() == 9 && "arrowleft"@[0] == 'a' && "arrowleft"@[1] == 'r' && "arrowleft"@[2] == 'r' && "arrowleft"@[3] == 'o' && "arrowleft"@[4] == 'w' && "arrowleft"@[5] == 'l' && "arrowleft"@[6] == 'e' && "arrowleft"@[7] == 'f' && "arrowleft"@[8] == 't');
    assert("right"@.len() == 5 && "right"@[0] == 'r' && "right"@[1] == 'i' && "right"@[2] == 'g' && "right"@[3] == 'h' && "right"@[4] == 't');
    assert("arrowright"@.len() == 10 && "arrowright"@[0] == 'a' && "arrowright"@[1] == 'r' && "arrowright"@[2] == 'r' && "arrowright"@[3] == 'o' && "arrowright"@[4] == 'w' && "arrowright"@[5] == 'r' && "arrowright"@[6] == 'i' && "arrowright"@[7] == 'g' && "arrowright"@[8] == 'h' && "arrowright"@[9] == 't');
    assert("up"@.len() == 2 && "up"@[0] == 'u' && "up"@[1] == 'p');
    assert("arrowup"@.len() == 7 && "arrowup"@[0] == 'a' && "arrowup"@[1] == 'r' && "arrowup"@[2] == 'r' && "arrowup"@[3] == 'o' && "arrowup"@[4] == 'w' && "arrowup"@[5] == 'u' && "arrowup"@[6] == 'p');
    assert("down"@.len() == 4 && "down"@[0] == 'd' && "down"@[1] == 'o' && "down"@[2] == 'w' && "down"@[3] == 'n');
    assert("arrowdown"@.len() == 9 && "arrowdown"@[0] == 'a' && "arrowdown"@[1] == 'r' && "arrowdown"@[2] == 'r' && "arrowdown"@[3] == 'o' && "arrowdown"@[4] == 'w' && "arrowdown"@[5] == 'd' && "arrowdown"@[6] == 'o' && "arrowdown"@[7] == 'w' && "arrowdown"@[8] == 'n');
    assert("enter"@.len() == 5 && "enter"@[0] == 'e' && "enter"@[1] == 'n' && "enter"@[2] == 't' && "enter"@[3] == 'e' && "enter"@[4] == 'r');
    assert("return"@.len() == 6 && "return"@[0] == 'r' && "return"@[1] == 'e' && "return"@[2] == 't' && "return"@[3] == 'u' && "return"@[4] == 'r' && "return"@[5] == 'n');
    assert("tab"@.len() == 3 && "tab"@[0] == 't' && "tab"@[1] == 'a' && "tab"@[2] == 'b');
    assert("escape"@.len() == 6 && "escape"@[0] == 'e' && "escape"@[1] == 's' && "escape"@[2] == 'c' && "escape"@[3] == 'a' && "escape"@[4] == 'p' && "escape"@[5] == 'e');
    assert("esc"@.len() == 3 && "esc"@[0] == 'e' && "esc"@[1] == 's' && "esc"@[2] == 'c');
    assert("backspace"@.len() == 9 && "backspace"@[0] == 'b' && "backspace"@[1] == 'a' && "backspace"@[2] == 'c' && "backspace"@[3] == 'k' && "backspace"@[4] == 's' && "backspace"@[5] == 'p' && "backspace"@[6] == 'a' && "backspace"@[7] == 'c' && "backspace"@[8] == 'e');
    assert("delete"@.len() == 6 && "delete"@[0] == 'd' && "delete"@[1] == 'e' && "delete"@[2] == 'l' && "delete"@[3] == 'e' && "delete"@[4] == 't' && "delete"@[5] == 'e');
    assert("del"@.len() == 3 && "del"@[0] == 'd' && "del"@[1] == 'e' && "del"@[2] == 'l');
    assert("f1"@.len() == 2 && "f1"@[0] == 'f' && "f1"@[1] == '1');
    assert("f2"@.len() == 2 && "f2"@[0] == 'f' && "f2"@[1] == '2');
    assert("f3"@.len() == 2 && "f3"@[0] == 'f' && "f3"@[1] == '3');
    assert("f4"@.len() == 2 && "f4"@[0] == 'f' && "f4"@[1] == '4');
    assert("f5"@.len() == 2 && "f5"@[0] == 'f' && "f5"@[1] == '5');
    assert("f6"@.len() == 2 && "f6"@[0] == 'f' && "f6"@[1] == '6');
    assert("f7"@.len() == 2 && "f7"@[0] == 'f' && "f7"@[1] == '7');
    assert("f8"@.len() == 2 && "f8"@[0] == 'f' && "f8"@[1] == '8');
    assert("f9"@.len() == 2 && "f9"@[0] == 'f' && "f9"@[1] == '9');
    assert("f10"@.len() == 3 && "f10"@[0] == 'f' && "f10"@[1] == '1' && "f10"@[2] == '0');
    assert("f11"@.len() == 3 && "f11"@[0] == 'f' && "f11"@[1] == '1' && "f11"@[2] == '1');
    assert("f12"@.len() == 3 && "f12"@[0] == 'f' && "f12"@[1] == '1' && "f12"@[2] == '2');
    assert("0"@.len() == 1 && "0"@[0] == '0');
    assert("1"@.len() == 1 && "1"@[0] == '1');
    assert("2"@.len() == 1 && "2"@[0] == '2');
    assert("3"@.len() == 1 && "3"@[0] == '3');
    assert("4"@.len() == 1 && "4"@[0] == '4');
    assert("5"@.len() == 1 && "5"@[0] == '5');
    assert("6"@.len() == 1 && "6"@[0] == '6');
    assert("7"@.len() == 1 && "7"@[0] == '7');
    assert("8"@.len() == 1 && "8"@[0] == '8');
    assert("9"@.len() == 1 && "9"@[0] == '9');
}

/// The state of the reading after the parts before `parts.last()`, then
/// `parts.last()`: empty parts are skipped; a modifier name sets its
/// modifier; any other part names the key (the last such part wins, even
/// when it names no key).
pub open spec fn read_parts(parts: Seq<Seq<char>>) -> (Modifiers, Option<KeyCode>)
    decreases parts.len(),
{
    if parts.len() == 0 {
        (no_mods(), None)
    } else {
        let (m, c) = read_parts(parts.drop_last());
        let p = trim(parts.last());
        if p.len() == 0 {
            (m, c)
        } else {
            let l = lower(p);
            if l == "ctrl"@ || l == "control"@ {
                (Modifiers { ctrl: true, ..m }, c)
            } else if l == "alt"@ {
                (Modifiers { alt: true, ..m }, c)
            } else if l == "shift"@ {
                (Modifiers { shift: true, ..m }, c)
            } else if l == "win"@ || l == "super"@ || l == "meta"@ || l == "cmd"@ {
                (Modifiers { meta: true, ..m }, c)
            } else {
                (m, code_named(l))
            }
        }
    }
}

/// The shortcut written in `spec`: parts separated by `+`, white space
/// around parts ignored, names compared in lower case; none when no part
/// names a key.
pub open spec fn hotkey_of(spec: Seq<char>) -> Option<HotKey> {
    if trim(spec).len() == 0 {
        None
    } else {
        let (m, c) = read_parts(split_on(spec, '+'));
        match c {
            Some(k) => Some(HotKey { mods: m, code: k }),
            None => None,
        }
    }
}

/// Whether the characters `name` spell `lit`.
fn is_word(name: &Vec<char>, lit: &str) -> (r: bool)
    ensures
        r == (name@ == lit@),
{
    chars_eq(name, &chars_of(lit))
}

fn is_ascii_alpha_exec(c: char) -> (r: bool)
    ensures
        r == is_ascii_alpha(c),
{
    ('a' <= c && c <= 'z') || ('A' <= c && c <= 'Z')
}

/// The key of a letter, upper or lower case (`KeyA` for a character that is
/// not an ASCII letter). With `lemma_letter_keys_ignore_case`: a letter and
/// its other case give the same key, and two letters give the same key
/// exactly when they are the same letter up to case.
pub fn key_letter(c: char) -> (k: KeyCode)
    ensures
        k == letter_code(ascii_upper(c)),
{
    let u = if 'a' <= c && c <= 'z' {
        ((c as u32) - 32) as u8 as char
    } else {
        c
    };
    assert(u == ascii_upper(c));
    match u {
        'A' => KeyCode::KeyA,
        'B' => KeyCode::KeyB,
        'C' => KeyCode::KeyC,
        'D' => KeyCode::KeyD,
        'E' => KeyCode::KeyE,
        'F' => KeyCode::KeyF,
        'G' => KeyCode::KeyG,
        'H' => KeyCode::KeyH,
        'I' => KeyCode::KeyI,
        'J' => KeyCode::KeyJ,
        'K' => KeyCode::KeyK,
        'L' => KeyCode::KeyL,
        'M' => KeyCode::KeyM,
        'N' => KeyCode::KeyN,
        'O' => KeyCode::KeyO,
        'P' => KeyCode::KeyP,
        'Q' => KeyCode::KeyQ,
        'R' => KeyCode::KeyR,
        'S' => KeyCode::KeyS,
        'T' => KeyCode::KeyT,
        'U' => KeyCode::KeyU,
        'V' => KeyCode::KeyV,
        'W' => KeyCode::KeyW,
        'X' => KeyCode::KeyX,
        'Y' => KeyCode::KeyY,
        'Z' => KeyCode::KeyZ,
        _ => KeyCode::KeyA,
    }
}

/// The key a lower-cased key name stands for.
fn code_from_name(name: &Vec<char>) -> (r: Option<KeyCode>)
    ensures
        r == code_named(name@),
{
    if is_word(name, "space") {
        Some(KeyCode::Space)
    } else if is_word(name, "left") {
        Some(KeyCode::ArrowLeft)
    } else if is_word(name, "arrowleft") {
        Some(KeyCode::ArrowLeft)
    } else if is_word(name, "right") {
        Some(KeyCode::ArrowRight)
    } else if is_word(name, "arrowright") {
        Some(KeyCode::ArrowRight)
    } else if is_word(name, "up") {
        Some(KeyCode::ArrowUp)
    } else if is_word(name, "arrowup") {
        Some(KeyCode::ArrowUp)
    } else if is_word(name, "down") {
        Some(KeyCode::ArrowDown)
    } else if is_word(name, "arrowdown") {
        Some(KeyCode::ArrowDown)
    } else if is_word(name, "enter") {
        Some(KeyCode::Enter)
    } else if is_word(name, "return") {
        Some(KeyCode::Enter)
    } else if is_word(name, "tab") {
        Some(KeyCode::Tab)
    } else if is_word(name, "escape") {
        Some(KeyCode::Escape)
    } else if is_word(name, "esc") {
        Some(KeyCode::Escape)
    } else if is_word(name, "backspace") {
        Some(KeyCode::Backspace)
    } else if is_word(name, "delete") {
        Some(KeyCode::Delete)
    } else if is_word(name, "del") {
        Some(KeyCode::Delete)
    } else if is_word(name, "f1") {
        Some(KeyCode::F1)
    } else if is_word(name, "f2") {
        Some(KeyCode::F2)
    } else if is_word(name, "f3") {
        Some(KeyCode::F3)
    } else if is_word(name, "f4") {
        Some(KeyCode::F4)
    } else if is_word(name, "f5") {
        Some(KeyCode::F5)
    } else if is_word(name, "f6") {
        Some(KeyCode::F6)
    } else if is_word(name, "f7") {
        Some(KeyCode::F7)
    } else if is_word(name, "f8") {
        Some(KeyCode::F8)
    } else if is_word(name, "f9") {
        Some(KeyCode::F9)
    } else if is_word(name, "f10") {
        Some(KeyCode::F10)
    } else if is_word(name, "f11") {
        Some(KeyCode::F11)
    } else if is_word(name, "f12") {
        Some(KeyCode::F12)
    } else if is_word(name, "0") {
        Some(KeyCode::Digit0)
    } else if is_word(name, "1") {
        Some(KeyCode::Digit1)
    } else if is_word(name, "2") {
        Some(KeyCode::Digit2)
    } else if is_word(name, "3") {
        Some(KeyCode::Digit3)
    } else if is_word(name, "4") {
        Some(KeyCode::Digit4)
    } else if is_word(name, "5") {
        Some(KeyCode::Digit5)
    } else if is_word(name, "6") {
        Some(KeyCode::Digit6)
    } else if is_word(name, "7") {
        Some(KeyCode::Digit7)
    } else if is_word(name, "8") {
        Some(KeyCode::Digit8)
    } else if is_word(name, "9") {
        Some(KeyCode::Digit9)
    } else if name.len() == 1 && is_ascii_alpha_exec(name[0]) {
        Some(key_letter(name[0]))
    } else {
        None
    }
}

/// Reads a shortcut such as `Ctrl+Alt+Space`; `None` when the text is
/// blank or names no key.
pub fn parse_hotkey(spec: &str) -> (r: Option<HotKey>)
    ensures
        r == hotkey_of(spec@),
{
    let chars = chars_of(spec);
    let trimmed = trim_chars(&chars);
    if trimmed.len() == 0 {
        return None;
    }
    let parts = split_chars(&chars, '+');
    let ghost all = split_on(spec@, '+');
    let mut mods = Modifiers { ctrl: false, alt: false, shift: false, meta: false };
    let mut code: Option<KeyCode> = None;
    let mut i: usize = 0;
    while i < parts.len()
        invariant
            i <= parts@.len(),
            parts@.len() == all.len(),
            forall|k: int| 0 <= k < parts@.len() ==> #[trigger] parts@[k]@ == all[k],
            (mods, code) == read_parts(all.take(i as int)),
        decreases parts.len() - i,
    {
        proof {
            assert(all.take(i + 1).drop_last() =~= all.take(i as int));
            assert(all.take(i + 1).last() == all[i as int]);
        }
        let part = trim_chars(&parts[i]);
        if part.len() > 0 {
            let lowered = lowercase_chars(&part);
            if is_word(&lowered, "ctrl") || is_word(&lowered, "control") {
                mods = Modifiers { ctrl: true, ..mods };
            } else if is_word(&lowered, "alt") {
                mods = Modifiers { alt: true, ..mods };
            } else if is_word(&lowered, "shift") {
                mods = Modifiers { shift: true, ..mods };
            } else if is_word(&lowered, "win") || is_word(&lowered, "super") || is_word(&lowered, "meta")
                || is_word(&lowered, "cmd") {
                mods = Modifiers { meta: true, ..mods };
            } else {
                code = code_from_name(&lowered);
            }
        }
        i = i + 1;
    }
    proof {
        assert(all.take(parts@.len() as int) =~= all);
    }
    match code {
        Some(k) => Some(HotKey { mods, code: k }),
        None => None,
    }
}

/// The text of a captured combination: `Ctrl`, `Alt`, `Shift` for the
/// modifiers held, then the key's name, joined with `+`.
pub open spec fn hotkey_text_parts(ctrl: bool, alt: bool, shift: bool, key_name: Seq<char>) -> Seq<
    Seq<char>,
> {
    (if ctrl {
        seq!["Ctrl"@]
    } else {
        Seq::empty()
    }) + (if alt {
        seq!["Alt"@]
    } else {
        Seq::empty()
    }) + (if shift {
        seq!["Shift"@]
    } else {
        Seq::empty()
    }) + seq![key_name]
}

/// Writes a combination captured in the UI (the modifiers held and the name
/// of the last key pressed) in the syntax that `parse_hotkey` reads, such
/// as `Ctrl+Alt+Space`. The Windows key is not written.
pub fn format_from_egui(modifiers: Modifiers, key_name: &str) -> (out: String)
    ensures
        out@ == join(
            hotkey_text_parts(modifiers.ctrl, modifiers.alt, modifiers.shift, key_name@),
            "+"@,
        ),
{
    let ctrl = modifiers.ctrl;
    let alt = modifiers.alt;
    let shift = modifiers.shift;
    let mut parts: Vec<String> = Vec::new();
    if ctrl {
        parts.push(string_of(&chars_of("Ctrl")));
    }
    if alt {
        parts.push(string_of(&chars_of("Alt")));
    }
    if shift {
        parts.push(string_of(&chars_of("Shift")));
    }
    parts.push(string_of(&chars_of(key_name)));
    proof {
        assert(parts@.map_values(|s: String| s@) =~= hotkey_text_parts(ctrl, alt, shift, key_name@));
    }
    join_strings(&parts, "+")
}

/// Facts about the words a formatted combination is made of: they are their
/// own trimmed text, lower-case to the modifier names, hold no `+`, and no
/// modifier name is a key name (told apart at a differing character).
proof fn lemma_word_facts()
    ensures
        "+"@ == seq!['+'],
        trim("Ctrl"@) == "Ctrl"@,
        trim("Alt"@) == "Alt"@,
        trim("Shift"@) == "Shift"@,
        "Ctrl"@.len() > 0 && "Alt"@.len() > 0 && "Shift"@.len() > 0,
        lower("Ctrl"@) == "ctrl"@,
        lower("Alt"@) == "alt"@,
        lower("Shift"@) == "shift"@,
        lacks("Ctrl"@, '+') && lacks("Alt"@, '+') && lacks("Shift"@, '+'),
        code_named("ctrl"@) is None,
        code_named("control"@) is None,
        code_named("alt"@) is None,
        code_named("shift"@) is None,
        code_named("win"@) is None,
        code_named("super"@) is None,
        code_named("meta"@) is None,
        code_named("cmd"@) is None,
        "alt"@ != "ctrl"@ && "alt"@ != "control"@,
        "shift"@ != "ctrl"@ && "shift"@ != "control"@ && "shift"@ != "alt"@,
{
    reveal_strlit("+");
    reveal_strlit("0");
    reveal_strlit("1");
    reveal_strlit("2");
    reveal_strlit("3");
    reveal_strlit("4");
    reveal_strlit("5");
    reveal_strlit("6");
    reveal_strlit("7");
    reveal_strlit("8");
    reveal_strlit("9");
    reveal_strlit("Alt");
    reveal_strlit("Ctrl");
    reveal_strlit("Shift");
    reveal_strlit("alt");
    reveal_strlit("arrowdown");
    reveal_strlit("arrowleft");
    reveal_strlit("arrowright");
    reveal_strlit("arrowup");
    reveal_strlit("backspace");
    reveal_strlit("cmd");
    reveal_strlit("control");
    reveal_strlit("ctrl");
    reveal_strlit("del");
    reveal_strlit("delete");
    reveal_strlit("down");
    reveal_strlit("enter");
    reveal_strlit("esc");
    reveal_strlit("escape");
    reveal_strlit("f1");
    reveal_strlit("f10");
    reveal_strlit("f11");
    reveal_strlit("f12");
    reveal_strlit("f2");
    reveal_strlit("f3");
    reveal_strlit("f4");
    reveal_strlit("f5");
    reveal_strlit("f6");
    reveal_strlit("f7");
    reveal_strlit("f8");
    reveal_strlit("f9");
    reveal_strlit("left");
    reveal_strlit("meta");
    reveal_strlit("return");
    reveal_strlit("right");
    reveal_strlit("shift");
    reveal_strlit("space");
    reveal_strlit("super");
    reveal_strlit("tab");
    reveal_strlit("up");
    reveal_strlit("win");
    assert("ctrl"@[0] != "left"@[0]);
    assert("ctrl"@[0] != "down"@[0]);
    assert("control"@[0] != "arrowup"@[0]);
    assert("alt"@[0] != "tab"@[0]);
    assert("alt"@[0] != "esc"@[0]);
    assert("alt"@[0] != "del"@[0]);
    assert("alt"@[0] != "f10"@[0]);
    assert("alt"@[0] != "f11"@[0]);
    assert("alt"@[0] != "f12"@[0]);
    assert("shift"@[1] != "space"@[1]);
    assert("shift"@[0] != "right"@[0]);
    assert("shift"@[0] != "enter"@[0]);
    assert("win"@[0] != "tab"@[0]);
    assert("win"@[0] != "esc"@[0]);
    assert("win"@[0] != "del"@[0]);
    assert("win"@[0] != "f10"@[0]);
    assert("win"@[0] != "f11"@[0]);
    assert("win"@[0] != "f12"@[0]);
    assert("super"@[1] != "space"@[1]);
    assert("super"@[0] != "right"@[0]);
    assert("super"@[0] != "enter"@[0]);
    assert("meta"@[0] != "left"@[0]);
    assert("meta"@[0] != "down"@[0]);
    assert("cmd"@[0] != "tab"@[0]);
    assert("cmd"@[0] != "esc"@[0]);
    assert("cmd"@[0] != "del"@[0]);
    assert("cmd"@[0] != "f10"@[0]);
    assert("cmd"@[0] != "f11"@[0]);
    assert("cmd"@[0] != "f12"@[0]);
    assert("shift"@[0] != "ctrl"@[0]);
    assert("+"@ =~= seq!['+']);
    assert(lower("Ctrl"@) =~= "ctrl"@);
    assert(lower("Alt"@) =~= "alt"@);
    assert(lower("Shift"@) =~= "shift"@);
}

/// A combination written by `format_from_egui` reads back, through
/// `parse_hotkey`, as the same modifiers (without the Windows key) and the
/// same key, for every key name that names a key and holds no `+` and no
/// surrounding white space.
pub proof fn lemma_format_then_parse(
    ctrl: bool,
    alt: bool,
    shift: bool,
    key_name: Seq<char>,
    code: KeyCode,
)
    requires
        reads_as_key(key_name, code),
    ensures
        hotkey_of(join(hotkey_text_parts(ctrl, alt, shift, key_name), "+"@)) == Some(
            HotKey { mods: Modifiers { ctrl, alt, shift, meta: false }, code },
        ),
{
    lemma_word_facts();
    let parts = hotkey_text_parts(ctrl, alt, shift, key_name);
    let text = join(parts, "+"@);
    assert forall|k: int| 0 <= k < parts.len() implies lacks(#[trigger] parts[k], '+') by {
        if k < parts.len() - 1 {
            assert(parts[k] == "Ctrl"@ || parts[k] == "Alt"@ || parts[k] == "Shift"@);
        } else {
            assert(parts[k] == key_name);
        }
    }
    lemma_split_join(parts, '+');
    assert(split_on(text, '+') == parts);
    // The text is not blank: its last part holds a character that is not
    // white space.
    assert(!is_white_space(key_name[0])) by {
        if is_white_space(key_name[0]) {
            assert(trim_start(key_name) == trim_start(key_name.drop_first()));
            lemma_trim_len(key_name.drop_first());
        }
    }
    lemma_join_ends_with(parts, "+"@);
    let at = text.len() - key_name.len();
    assert(text[at] == key_name[0]);
    lemma_trim_nonempty(text, at);
    let prefix = parts.drop_last();
    assert(parts.last() == key_name);
    reveal_with_fuel(read_parts, 4);
    let (m, c) = read_parts(prefix);
    assert(m == Modifiers { ctrl, alt, shift, meta: false } && c is None) by {
        lemma_read_modifier_words(ctrl, alt, shift);
    }
}

proof fn lemma_read_modifier_words(ctrl: bool, alt: bool, shift: bool)
    ensures
        read_parts(hotkey_text_parts(ctrl, alt, shift, Seq::empty()).drop_last()) == (
            Modifiers { ctrl, alt, shift, meta: false },
            None::<KeyCode>,
        ),
{
    lemma_word_facts();
    let words = hotkey_text_parts(ctrl, alt, shift, Seq::empty()).drop_last();
    let c_part: Seq<Seq<char>> = if ctrl { seq!["Ctrl"@] } else { Seq::empty() };
    let a_part: Seq<Seq<char>> = if alt { seq!["Alt"@] } else { Seq::empty() };
    let s_part: Seq<Seq<char>> = if shift { seq!["Shift"@] } else { Seq::empty() };
    assert(words =~= c_part + a_part + s_part);
    let m0 = no_mods();
    let after_c = c_part;
    let after_a = c_part + a_part;
    let m_c = Modifiers { ctrl, ..m0 };
    let m_a = Modifiers { ctrl, alt, ..m0 };
    assert(read_parts(Seq::<Seq<char>>::empty()) == (m0, None::<KeyCode>));
    if ctrl {
        assert(after_c.drop_last() =~= Seq::<Seq<char>>::empty());
        assert(after_c.last() == "Ctrl"@);
    }
    assert(read_parts(after_c) == (m_c, None::<KeyCode>));
    if alt {
        assert(after_a.drop_last() =~= after_c);
        assert(after_a.last() == "Alt"@);
    } else {
        assert(after_a =~= after_c);
    }
    assert(read_parts(after_a) == (m_a, None::<KeyCode>));
    if shift {
        assert(words.drop_last() =~= after_a);
        assert(words.last() == "Shift"@);
    } else {
        assert(words =~= after_a);
    }
}

proof fn lemma_trim_len(s: Seq<char>)
    ensures
        trim(s).len() <= s.len(),
{
    lemma_trim_start_len(s);
    lemma_trim_end_len(trim_start(s));
}

proof fn lemma_trim_start_len(s: Seq<char>)
    ensures
        trim_start(s).len() <= s.len(),
    decreases s.len(),
{
    if s.len() > 0 && is_white_space(s[0]) {
        lemma_trim_start_len(s.drop_first());
    }
}

proof fn lemma_trim_end_len(s: Seq<char>)
    ensures
        trim_end(s).len() <= s.len(),
    decreases s.len(),
{
    if s.len() > 0 && is_white_space(s.last()) {
        lemma_trim_end_len(s.drop_last());
    }
}

proof fn lemma_join_ends_with(parts: Seq<Seq<char>>, sep: Seq<char>)
    requires
        parts.len() >= 1,
    ensures
        join(parts, sep).len() >= parts.last().len(),
        forall|k: int|
            0 <= k < parts.last().len() ==> join(parts, sep)[join(parts, sep).len()
                - parts.last().len() + k] == #[trigger] parts.last()[k],
{
}

/// The name egui gives a key (the `Debug` form of its `Key`), which is what
/// `format_from_egui` writes for the key pressed: the letter keys are named by
/// their upper-case letter, the digit keys `Num0` to `Num9`.
pub open spec fn egui_key_name(code: KeyCode) -> Seq<char> {
    match code {
        KeyCode::Space => "Space"@,
        KeyCode::ArrowLeft => "ArrowLeft"@,
        KeyCode::ArrowRight => "ArrowRight"@,
        KeyCode::ArrowUp => "ArrowUp"@,
        KeyCode::ArrowDown => "ArrowDown"@,
        KeyCode::Enter => "Enter"@,
        KeyCode::Tab => "Tab"@,
        KeyCode::Escape => "Escape"@,
        KeyCode::Backspace => "Backspace"@,
        KeyCode::Delete => "Delete"@,
        KeyCode::F1 => "F1"@,
        KeyCode::F2 => "F2"@,
        KeyCode::F3 => "F3"@,
        KeyCode::F4 => "F4"@,
        KeyCode::F5 => "F5"@,
        KeyCode::F6 => "F6"@,
        KeyCode::F7 => "F7"@,
        KeyCode::F8 => "F8"@,
        KeyCode::F9 => "F9"@,
        KeyCode::F10 => "F10"@,
        KeyCode::F11 => "F11"@,
        KeyCode::F12 => "F12"@,
        KeyCode::Digit0 => "Num0"@,
        KeyCode::Digit1 => "Num1"@,
        KeyCode::Digit2 => "Num2"@,
        KeyCode::Digit3 => "Num3"@,
        KeyCode::Digit4 => "Num4"@,
        KeyCode::Digit5 => "Num5"@,
        KeyCode::Digit6 => "Num6"@,
        KeyCode::Digit7 => "Num7"@,
        KeyCode::Digit8 => "Num8"@,
        KeyCode::Digit9 => "Num9"@,
        KeyCode::KeyA => seq!['A'],
        KeyCode::KeyB => seq!['B'],
        KeyCode::KeyC => seq!['C'],
        KeyCode::KeyD => seq!['D'],
        KeyCode::KeyE => seq!['E'],
        KeyCode::KeyF => seq!['F'],
        KeyCode::KeyG => seq!['G'],
        KeyCode::KeyH => seq!['H'],
        KeyCode::KeyI => seq!['I'],
        KeyCode::KeyJ => seq!['J'],
        KeyCode::KeyK => seq!['K'],
        KeyCode::KeyL => seq!['L'],
        KeyCode::KeyM => seq!['M'],
        KeyCode::KeyN => seq!['N'],
        KeyCode::KeyO => seq!['O'],
        KeyCode::KeyP => seq!['P'],
        KeyCode::KeyQ => seq!['Q'],
        KeyCode::KeyR => seq!['R'],
        KeyCode::KeyS => seq!['S'],
        KeyCode::KeyT => seq!['T'],
        KeyCode::KeyU => seq!['U'],
        KeyCode::KeyV => seq!['V'],
        KeyCode::KeyW => seq!['W'],
        KeyCode::KeyX => seq!['X'],
        KeyCode::KeyY => seq!['Y'],
        KeyCode::KeyZ => seq!['Z'],
    }
}

/// The digit keys.
pub open spec fn is_digit_key(code: KeyCode) -> bool {
    code == KeyCode::Digit0
        || code == KeyCode::Digit1
        || code == KeyCode::Digit2
        || code == KeyCode::Digit3
        || code == KeyCode::Digit4
        || code == KeyCode::Digit5
        || code == KeyCode::Digit6
        || code == KeyCode::Digit7
        || code == KeyCode::Digit8
        || code == KeyCode::Digit9
}

/// `name`, written as the last part of a combination, reads back as the key
/// `code`: it is not empty, holds no `+`, has no white space around it, and
/// its lower case names `code`.
pub open spec fn reads_as_key(name: Seq<char>, code: KeyCode) -> bool {
    &&& name.len() > 0
    &&& lacks(name, '+')
    &&& trim(name) == name
    &&& code_named(lower(name)) == Some(code)
}

/// A one-letter upper-case name reads back as the key of that letter.
proof fn lemma_letter_name_reads_back(c: char)
    requires
        'A' <= c <= 'Z',
    ensures
        reads_as_key(seq![c], letter_code(c)),
{
    reveal_strlit("0");
    reveal_strlit("1");
    reveal_strlit("2");
    reveal_strlit("3");
    reveal_strlit("4");
    reveal_strlit("5");
    reveal_strlit("6");
    reveal_strlit("7");
    reveal_strlit("8");
    reveal_strlit("9");
    reveal_strlit("arrowdown");
    reveal_strlit("arrowleft");
    reveal_strlit("arrowright");
    reveal_strlit("arrowup");
    reveal_strlit("backspace");
    reveal_strlit("del");
    reveal_strlit("delete");
    reveal_strlit("down");
    reveal_strlit("enter");
    reveal_strlit("esc");
    reveal_strlit("escape");
    reveal_strlit("f1");
    reveal_strlit("f10");
    reveal_strlit("f11");
    reveal_strlit("f12");
    reveal_strlit("f2");
    reveal_strlit("f3");
    reveal_strlit("f4");
    reveal_strlit("f5");
    reveal_strlit("f6");
    reveal_strlit("f7");
    reveal_strlit("f8");
    reveal_strlit("f9");
    reveal_strlit("left");
    reveal_strlit("return");
    reveal_strlit("right");
    reveal_strlit("space");
    reveal_strlit("tab");
    reveal_strlit("up");
    let name = seq![c];
    let l = ascii_lower_char(c);
    assert(lower(name) =~= seq![l]);
    assert(ascii_upper(l) == c);
    assert(trim_start(name) == name);
    assert(trim_end(name) == name);
    assert(seq![l][0] != "0"@[0]);
    assert(seq![l][0] != "1"@[0]);
    assert(seq![l][0] != "2"@[0]);
    assert(seq![l][0] != "3"@[0]);
    assert(seq![l][0] != "4"@[0]);
    assert(seq![l][0] != "5"@[0]);
    assert(seq![l][0] != "6"@[0]);
    assert(seq![l][0] != "7"@[0]);
    assert(seq![l][0] != "8"@[0]);
    assert(seq![l][0] != "9"@[0]);
}

/// The names egui gives the keys a shortcut can use, other than the digit
/// keys, read back as those keys.
proof fn lemma_egui_names_read_back(code: KeyCode)
    requires
        !is_digit_key(code),
    ensures
        reads_as_key(egui_key_name(code), code),
{
    reveal_strlit("0");
    reveal_strlit("1");
    reveal_strlit("2");
    reveal_strlit("3");
    reveal_strlit("4");
    reveal_strlit("5");
    reveal_strlit("6");
    reveal_strlit("7");
    reveal_strlit("8");
    reveal_strlit("9");
    reveal_strlit("arrowdown");
    reveal_strlit("arrowleft");
    reveal_strlit("arrowright");
    reveal_strlit("arrowup");
    reveal_strlit("backspace");
    reveal_strlit("del");
    reveal_strlit("delete");
    reveal_strlit("down");
    reveal_strlit("enter");
    reveal_strlit("esc");
    reveal_strlit("escape");
    reveal_strlit("f1");
    reveal_strlit("f10");
    reveal_strlit("f11");
    reveal_strlit("f12");
    reveal_strlit("f2");
    reveal_strlit("f3");
    reveal_strlit("f4");
    reveal_strlit("f5");
    reveal_strlit("f6");
    reveal_strlit("f7");
    reveal_strlit("f8");
    reveal_strlit("f9");
    reveal_strlit("left");
    reveal_strlit("return");
    reveal_strlit("right");
    reveal_strlit("space");
    reveal_strlit("tab");
    reveal_strlit("up");
    reveal_strlit("Space");
    reveal_strlit("ArrowLeft");
    reveal_strlit("ArrowRight");
    reveal_strlit("ArrowUp");
    reveal_strlit("ArrowDown");
    reveal_strlit("Enter");
    reveal_strlit("Tab");
    reveal_strlit("Escape");
    reveal_strlit("Backspace");
    reveal_strlit("Delete");
    reveal_strlit("F1");
    reveal_strlit("F2");
    reveal_strlit("F3");
    reveal_strlit("F4");
    reveal_strlit("F5");
    reveal_strlit("F6");
    reveal_strlit("F7");
    reveal_strlit("F8");
    reveal_strlit("F9");
    reveal_strlit("F10");
    reveal_strlit("F11");
    reveal_strlit("F12");
    match code {
        KeyCode::Space => {
            assert(lower("Space"@) =~= "space"@);
            assert(trim_start("Space"@) == "Space"@);
            assert(trim_end("Space"@) == "Space"@);
        },
        KeyCode::ArrowLeft => {
            assert(lower("ArrowLeft"@) =~= "arrowleft"@);
            assert(trim_start("ArrowLeft"@) == "ArrowLeft"@);
            assert(trim_end("ArrowLeft"@) == "ArrowLeft"@);
        },
        KeyCode::ArrowRight => {
            assert(lower("ArrowRight"@) =~= "arrowright"@);
            assert(trim_start("ArrowRight"@) == "ArrowRight"@);
            assert(trim_end("ArrowRight"@) == "ArrowRight"@);
        },
        KeyCode::ArrowUp => {
            assert(lower("ArrowUp"@) =~= "arrowup"@);
            assert(trim_start("ArrowUp"@) == "ArrowUp"@);
            assert(trim_end("ArrowUp"@) == "ArrowUp"@);
        },
        KeyCode::ArrowDown => {
            assert(lower("ArrowDown"@) =~= "arrowdown"@);
            assert(trim_start("ArrowDown"@) == "ArrowDown"@);
            assert(trim_end("ArrowDown"@) == "ArrowDown"@);
            assert("arrowdown"@[5] != "arrowleft"@[5]);
        },
        KeyCode::Enter => {
            assert(lower("Enter"@) =~= "enter"@);
            assert(trim_start("Enter"@) == "Enter"@);
            assert(trim_end("Enter"@) == "Enter"@);
            assert("enter"@[0] != "space"@[0]);
            assert("enter"@[0] != "right"@[0]);
        },
        KeyCode::Tab => {
            assert(lower("Tab"@) =~= "tab"@);
            assert(trim_start("Tab"@) == "Tab"@);
            assert(trim_end("Tab"@) == "Tab"@);
        },
        KeyCode::Escape => {
            assert(lower("Escape"@) =~= "escape"@);
            assert(trim_start("Escape"@) == "Escape"@);
            assert(trim_end("Escape"@) == "Escape"@);
            assert("escape"@[0] != "return"@[0]);
        },
        KeyCode::Backspace => {
            assert(lower("Backspace"@) =~= "backspace"@);
            assert(trim_start("Backspace"@) == "Backspace"@);
            assert(trim_end("Backspace"@) == "Backspace"@);
            assert("backspace"@[0] != "arrowleft"@[0]);
            assert("backspace"@[0] != "arrowdown"@[0]);
        },
        KeyCode::Delete => {
            assert(lower("Delete"@) =~= "delete"@);
            assert(trim_start("Delete"@) == "Delete"@);
            assert(trim_end("Delete"@) == "Delete"@);
            assert("delete"@[0] != "return"@[0]);
            assert("delete"@[0] != "escape"@[0]);
        },
        KeyCode::F1 => {
            assert(lower("F1"@) =~= "f1"@);
            assert(trim_start("F1"@) == "F1"@);
            assert(trim_end("F1"@) == "F1"@);
            assert("f1"@[0] != "up"@[0]);
        },
        KeyCode::F2 => {
            assert(lower("F2"@) =~= "f2"@);
            assert(trim_start("F2"@) == "F2"@);
            assert(trim_end("F2"@) == "F2"@);
            assert("f2"@[0] != "up"@[0]);
            assert("f2"@[1] != "f1"@[1]);
        },
        KeyCode::F3 => {
            assert(lower("F3"@) =~= "f3"@);
            assert(trim_start("F3"@) == "F3"@);
            assert(trim_end("F3"@) == "F3"@);
            assert("f3"@[0] != "up"@[0]);
            assert("f3"@[1] != "f1"@[1]);
            assert("f3"@[1] != "f2"@[1]);
        },
        KeyCode::F4 => {
            assert(lower("F4"@) =~= "f4"@);
            assert(trim_start("F4"@) == "F4"@);
            assert(trim_end("F4"@) == "F4"@);
            assert("f4"@[0] != "up"@[0]);
            assert("f4"@[1] != "f1"@[1]);
            assert("f4"@[1] != "f2"@[1]);
            assert("f4"@[1] != "f3"@[1]);
        },
        KeyCode::F5 => {
            assert(lower("F5"@) =~= "f5"@);
            assert(trim_start("F5"@) == "F5"@);
            assert(trim_end("F5"@) == "F5"@);
            assert("f5"@[0] != "up"@[0]);
            assert("f5"@[1] != "f1"@[1]);
            assert("f5"@[1] != "f2"@[1]);
            assert("f5"@[1] != "f3"@[1]);
            assert("f5"@[1] != "f4"@[1]);
        },
        KeyCode::F6 => {
            assert(lower("F6"@) =~= "f6"@);
            assert(trim_start("F6"@) == "F6"@);
            assert(trim_end("F6"@) == "F6"@);
            assert("f6"@[0] != "up"@[0]);
            assert("f6"@[1] != "f1"@[1]);
            assert("f6"@[1] != "f2"@[1]);
            assert("f6"@[1] != "f3"@[1]);
            assert("f6"@[1] != "f4"@[1]);
            assert("f6"@[1] != "f5"@[1]);
        },
        KeyCode::F7 => {
            assert(lower("F7"@) =~= "f7"@);
            assert(trim_start("F7"@) == "F7"@);
            assert(trim_end("F7"@) == "F7"@);
            assert("f7"@[0] != "up"@[0]);
            assert("f7"@[1] != "f1"@[1]);
            assert("f7"@[1] != "f2"@[1]);
            assert("f7"@[1] != "f3"@[1]);
            assert("f7"@[1] != "f4"@[1]);
            assert("f7"@[1] != "f5"@[1]);
            assert("f7"@[1] != "f6"@[1]);
        },
        KeyCode::F8 => {
            assert(lower("F8"@) =~= "f8"@);
            assert(trim_start("F8"@) == "F8"@);
            assert(trim_end("F8"@) == "F8"@);
            assert("f8"@[0] != "up"@[0]);
            assert("f8"@[1] != "f1"@[1]);
            assert("f8"@[1] != "f2"@[1]);
            assert("f8"@[1] != "f3"@[1]);
            assert("f8"@[1] != "f4"@[1]);
            assert("f8"@[1] != "f5"@[1]);
            assert("f8"@[1] != "f6"@[1]);
            assert("f8"@[1] != "f7"@[1]);
        },
        KeyCode::F9 => {
            assert(lower("F9"@) =~= "f9"@);
            assert(trim_start("F9"@) == "F9"@);
            assert(trim_end("F9"@) == "F9"@);
            assert("f9"@[0] != "up"@[0]);
            assert("f9"@[1] != "f1"@[1]);
            assert("f9"@[1] != "f2"@[1]);
            assert("f9"@[1] != "f3"@[1]);
            assert("f9"@[1] != "f4"@[1]);
            assert("f9"@[1] != "f5"@[1]);
            assert("f9"@[1] != "f6"@[1]);
            assert("f9"@[1] != "f7"@[1]);
            assert("f9"@[1] != "f8"@[1]);
        },
        KeyCode::F10 => {
            assert(lower("F10"@) =~= "f10"@);
            assert(trim_start("F10"@) == "F10"@);
            assert(trim_end("F10"@) == "F10"@);
            assert("f10"@[0] != "tab"@[0]);
            assert("f10"@[0] != "esc"@[0]);
            assert("f10"@[0] != "del"@[0]);
        },
        KeyCode::F11 => {
            assert(lower("F11"@) =~= "f11"@);
            assert(trim_start("F11"@) == "F11"@);
            assert(trim_end("F11"@) == "F11"@);
            assert("f11"@[0] != "tab"@[0]);
            assert("f11"@[0] != "esc"@[0]);
            assert("f11"@[0] != "del"@[0]);
            assert("f11"@[2] != "f10"@[2]);
        },
        KeyCode::F12 => {
            assert(lower("F12"@) =~= "f12"@);
            assert(trim_start("F12"@) == "F12"@);
            assert(trim_end("F12"@) == "F12"@);
            assert("f12"@[0] != "tab"@[0]);
            assert("f12"@[0] != "esc"@[0]);
            assert("f12"@[0] != "del"@[0]);
            assert("f12"@[2] != "f10"@[2]);
            assert("f12"@[2] != "f11"@[2]);
        },
        _ => {
            let c = egui_key_name(code)[0];
            lemma_letter_name_reads_back(c);
            assert(egui_key_name(code) == seq![c]);
            assert(letter_code(c) == code);
        },
    }
}

/// A combination captured in the UI reads back: the text `format_from_egui`
/// writes for the modifiers held and the key pressed is read by
/// `parse_hotkey` as the same Ctrl, Alt and Shift (never the Windows key)
/// and the same key. The digit keys are left out: egui names them `Num0` to
/// `Num9`, which name no key.
pub proof fn lemma_egui_capture_reads_back(modifiers: Modifiers, code: KeyCode)
    requires
        !is_digit_key(code),
    ensures
        hotkey_of(
            join(
                hotkey_text_parts(modifiers.ctrl, modifiers.alt, modifiers.shift, egui_key_name(code)),
                "+"@,
            ),
        ) == Some(HotKey { mods: Modifiers { meta: false, ..modifiers }, code }),
{
    lemma_egui_names_read_back(code);
    lemma_format_then_parse(modifiers.ctrl, modifiers.alt, modifiers.shift, egui_key_name(code), code);
}

/// Every modifier name, aliases included, sets its own modifier: a key
/// name that reads as a key, written after `Ctrl` or `Control`, `Alt`,
/// `Shift`, or `Win`, `Super`, `Meta`, `Cmd` (the Windows key) and a `+`,
/// reads as that key with that one modifier.
pub proof fn lemma_modifier_names(key_name: Seq<char>, code: KeyCode)
    requires
        reads_as_key(key_name, code),
    ensures
        hotkey_of("Ctrl"@ + "+"@ + key_name) == Some(
            HotKey { mods: Modifiers { ctrl: true, alt: false, shift: false, meta: false }, code },
        ),
        hotkey_of("Control"@ + "+"@ + key_name) == Some(
            HotKey { mods: Modifiers { ctrl: true, alt: false, shift: false, meta: false }, code },
        ),
        hotkey_of("Alt"@ + "+"@ + key_name) == Some(
            HotKey { mods: Modifiers { ctrl: false, alt: true, shift: false, meta: false }, code },
        ),
        hotkey_of("Shift"@ + "+"@ + key_name) == Some(
            HotKey { mods: Modifiers { ctrl: false, alt: false, shift: true, meta: false }, code },
        ),
        hotkey_of("Win"@ + "+"@ + key_name) == Some(
            HotKey { mods: Modifiers { ctrl: false, alt: false, shift: false, meta: true }, code },
        ),
        hotkey_of("Super"@ + "+"@ + key_name) == Some(
            HotKey { mods: Modifiers { ctrl: false, alt: false, shift: false, meta: true }, code },
        ),
        hotkey_of("Meta"@ + "+"@ + key_name) == Some(
            HotKey { mods: Modifiers { ctrl: false, alt: false, shift: false, meta: true }, code },
        ),
        hotkey_of("Cmd"@ + "+"@ + key_name) == Some(
            HotKey { mods: Modifiers { ctrl: false, alt: false, shift: false, meta: true }, code },
        ),
{
    reveal_strlit("Ctrl");
    reveal_strlit("ctrl");
    reveal_strlit("Control");
    reveal_strlit("control");
    reveal_strlit("Alt");
    reveal_strlit("alt");
    reveal_strlit("Shift");
    reveal_strlit("shift");
    reveal_strlit("Win");
    reveal_strlit("win");
    reveal_strlit("Super");
    reveal_strlit("super");
    reveal_strlit("Meta");
    reveal_strlit("meta");
    reveal_strlit("Cmd");
    reveal_strlit("cmd");
    assert("ctrl"@.len() == 4 && "ctrl"@[0] == 'c' && "ctrl"@[1] == 't' && "ctrl"@[2] == 'r' && "ctrl"@[3] == 'l');
    assert("control"@.len() == 7 && "control"@[0] == 'c' && "control"@[1] == 'o' && "control"@[2] == 'n' && "control"@[3] == 't' && "control"@[4] == 'r' && "control"@[5] == 'o' && "control"@[6] == 'l');
    assert("alt"@.len() == 3 && "alt"@[0] == 'a' && "alt"@[1] == 'l' && "alt"@[2] == 't');
    assert("shift"@.len() == 5 && "shift"@[0] == 's' && "shift"@[1] == 'h' && "shift"@[2] == 'i' && "shift"@[3] == 'f' && "shift"@[4] == 't');
    assert("win"@.len() == 3 && "win"@[0] == 'w' && "win"@[1] == 'i' && "win"@[2] == 'n');
    assert("super"@.len() == 5 && "super"@[0] == 's' && "super"@[1] == 'u' && "super"@[2] == 'p' && "super"@[3] == 'e' && "super"@[4] == 'r');
    assert("meta"@.len() == 4 && "meta"@[0] == 'm' && "meta"@[1] == 'e' && "meta"@[2] == 't' && "meta"@[3] == 'a');
    assert("cmd"@.len() == 3 && "cmd"@[0] == 'c' && "cmd"@[1] == 'm' && "cmd"@[2] == 'd');
    assert(lower("Ctrl"@) =~= "ctrl"@);
    assert(read_parts(seq!["Ctrl"@]) == (Modifiers { ctrl: true, alt: false, shift: false, meta: false }, None::<KeyCode>)) by {
        assert(seq!["Ctrl"@].drop_last() =~= Seq::<Seq<char>>::empty());
        assert(trim_start("Ctrl"@) == "Ctrl"@ && trim_end("Ctrl"@) == "Ctrl"@);
        assert(trim("Ctrl"@) == "Ctrl"@);
        assert(read_parts(Seq::<Seq<char>>::empty()) == (no_mods(), None::<KeyCode>));
        assert(seq!["Ctrl"@].last() == "Ctrl"@);
    }
    lemma_modifier_then_key("Ctrl"@, key_name, code);
    assert(lower("Control"@) =~= "control"@);
    assert(read_parts(seq!["Control"@]) == (Modifiers { ctrl: true, alt: false, shift: false, meta: false }, None::<KeyCode>)) by {
        assert(seq!["Control"@].drop_last() =~= Seq::<Seq<char>>::empty());
        assert(trim_start("Control"@) == "Control"@ && trim_end("Control"@) == "Control"@);
        assert(trim("Control"@) == "Control"@);
        assert(read_parts(Seq::<Seq<char>>::empty()) == (no_mods(), None::<KeyCode>));
        assert(seq!["Control"@].last() == "Control"@);
    }
    lemma_modifier_then_key("Control"@, key_name, code);
    assert(lower("Alt"@) =~= "alt"@);
    assert(read_parts(seq!["Alt"@]) == (Modifiers { ctrl: false, alt: true, shift: false, meta: false }, None::<KeyCode>)) by {
        assert(seq!["Alt"@].drop_last() =~= Seq::<Seq<char>>::empty());
        assert(trim_start("Alt"@) == "Alt"@ && trim_end("Alt"@) == "Alt"@);
        assert(trim("Alt"@) == "Alt"@);
        assert(read_parts(Seq::<Seq<char>>::empty()) == (no_mods(), None::<KeyCode>));
        assert(seq!["Alt"@].last() == "Alt"@);
    }
    lemma_modifier_then_key("Alt"@, key_name, code);
    assert(lower("Shift"@) =~= "shift"@);
    assert(read_parts(seq!["Shift"@]) == (Modifiers { ctrl: false, alt: false, shift: true, meta: false }, None::<KeyCode>)) by {
        assert(seq!["Shift"@].drop_last() =~= Seq::<Seq<char>>::empty());
        assert(trim_start("Shift"@) == "Shift"@ && trim_end("Shift"@) == "Shift"@);
        assert(trim("Shift"@) == "Shift"@);
        assert(read_parts(Seq::<Seq<char>>::empty()) == (no_mods(), None::<KeyCode>));
        assert(seq!["Shift"@].last() == "Shift"@);
    }
    lemma_modifier_then_key("Shift"@, key_name, code);
    assert(lower("Win"@) =~= "win"@);
    assert(read_parts(seq!["Win"@]) == (Modifiers { ctrl: false, alt: false, shift: false, meta: true }, None::<KeyCode>)) by {
        assert(seq!["Win"@].drop_last() =~= Seq::<Seq<char>>::empty());
        assert(trim_start("Win"@) == "Win"@ && trim_end("Win"@) == "Win"@);
        assert(trim("Win"@) == "Win"@);
        assert(read_parts(Seq::<Seq<char>>::empty()) == (no_mods(), None::<KeyCode>));
        assert(seq!["Win"@].last() == "Win"@);
    }
    lemma_modifier_then_key("Win"@, key_name, code);
    assert(lower("Super"@) =~= "super"@);
    assert(read_parts(seq!["Super"@]) == (Modifiers { ctrl: false, alt: false, shift: false, meta: true }, None::<KeyCode>)) by {
        assert(seq!["Super"@].drop_last() =~= Seq::<Seq<char>>::empty());
        assert(trim_start("Super"@) == "Super"@ && trim_end("Super"@) == "Super"@);
        assert(trim("Super"@) == "Super"@);
        assert(read_parts(Seq::<Seq<char>>::empty()) == (no_mods(), None::<KeyCode>));
        assert(seq!["Super"@].last() == "Super"@);
    }
    lemma_modifier_then_key("Super"@, key_name, code);
    assert(lower("Meta"@) =~= "meta"@);
    assert(read_parts(seq!["Meta"@]) == (Modifiers { ctrl: false, alt: false, shift: false, meta: true }, None::<KeyCode>)) by {
        assert(seq!["Meta"@].drop_last() =~= Seq::<Seq<char>>::empty());
        assert(trim_start("Meta"@) == "Meta"@ && trim_end("Meta"@) == "Meta"@);
        assert(trim("Meta"@) == "Meta"@);
        assert(read_parts(Seq::<Seq<char>>::empty()) == (no_mods(), None::<KeyCode>));
        assert(seq!["Meta"@].last() == "Meta"@);
    }
    lemma_modifier_then_key("Meta"@, key_name, code);
    assert(lower("Cmd"@) =~= "cmd"@);
    assert(read_parts(seq!["Cmd"@]) == (Modifiers { ctrl: false, alt: false, shift: false, meta: true }, None::<KeyCode>)) by {
        assert(seq!["Cmd"@].drop_last() =~= Seq::<Seq<char>>::empty());
        assert(trim_start("Cmd"@) == "Cmd"@ && trim_end("Cmd"@) == "Cmd"@);
        assert(trim("Cmd"@) == "Cmd"@);
        assert(read_parts(Seq::<Seq<char>>::empty()) == (no_mods(), None::<KeyCode>));
        assert(seq!["Cmd"@].last() == "Cmd"@);
    }
    lemma_modifier_then_key("Cmd"@, key_name, code);
}

/// A modifier word, a `+` and a key name read as the key with the word's
/// modifier.
proof fn lemma_modifier_then_key(word: Seq<char>, key_name: Seq<char>, code: KeyCode)
    requires
        word.len() > 0,
        lacks(word, '+'),
        trim(word) == word,
        read_parts(seq![word]).1 is None,
        reads_as_key(key_name, code),
    ensures
        hotkey_of(word + "+"@ + key_name) == Some(HotKey { mods: read_parts(seq![word]).0, code }),
{
    lemma_word_facts();
    let parts = seq![word, key_name];
    let text = word + "+"@ + key_name;
    assert(parts.drop_last() =~= seq![word]);
    assert(parts.last() == key_name);
    assert(join(seq![word], seq!['+']) == word);
    assert(join(parts, seq!['+']) == text);
    lemma_split_join(parts, '+');
    assert(split_on(text, '+') == parts);
    assert(!is_white_space(word[0])) by {
        if is_white_space(word[0]) {
            assert(trim_start(word) == trim_start(word.drop_first()));
            lemma_trim_len(word.drop_first());
        }
    }
    assert(text[0] == word[0]);
    lemma_trim_nonempty(text, 0);
}

} // verus!
