//! Key names of the input fallback: the names the debugger accepts for key
//! presses and the key each stands for.
use vstd::prelude::*;
use crate::debugger::DebugError;
use crate::text::{owned, str_eq};

verus! {

/// A key the input fallback can press.
#[derive(Debug, Clone, Copy, PartialEq, Eq, Structural)]
pub enum KeyName {
    Return,
    Escape,
    Tab,
    Space,
    Backspace,
    Delete,
    UpArrow,
    DownArrow,
    LeftArrow,
    RightArrow,
    Home,
    End,
    PageUp,
    PageDown,
    F1,
    F2,
    F3,
    F4,
    F5,
    F6,
    F7,
    F8,
    F9,
    F10,
    F11,
    F12,
}

/// The key a name stands for, if it is one of the known names.
pub open spec fn key_of(name: Seq<char>) -> Option<KeyName> {
    if name == "Return"@ {
        Some(KeyName::Return)
    } else if name == "Enter"@ {
        Some(KeyName::Return)
    } else if name == "Escape"@ {
        Some(KeyName::Escape)
    } else if name == "Tab"@ {
        Some(KeyName::Tab)
    } else if name == "Space"@ {
        Some(KeyName::Space)
    } else if name == "Backspace"@ {
        Some(KeyName::Backspace)
    } else if name == "Delete"@ {
        Some(KeyName::Delete)
    } else if name == "Up"@ {
        Some(KeyName::UpArrow)
    } else if name == "Down"@ {
        Some(KeyName::DownArrow)
    } else if name == "Left"@ {
        Some(KeyName::LeftArrow)
    } else if name == "Right"@ {
        Some(KeyName::RightArrow)
    } else if name == "Home"@ {
        Some(KeyName::Home)
    } else if name == "End"@ {
        Some(KeyName::End)
    } else if name == "PageUp"@ {
        Some(KeyName::PageUp)
    } else if name == "PageDown"@ {
        Some(KeyName::PageDown)
    } else if name == "F1"@ {
        Some(KeyName::F1)
    } else if name == "F2"@ {
        Some(KeyName::F2)
    } else if name == "F3"@ {
        Some(KeyName::F3)
    } else if name == "F4"@ {
        Some(KeyName::F4)
    } else if name == "F5"@ {
        Some(KeyName::F5)
    } else if name == "F6"@ {
        Some(KeyName::F6)
    } else if name == "F7"@ {
        Some(KeyName::F7)
    } else if name == "F8"@ {
        Some(KeyName::F8)
    } else if name == "F9"@ {
        Some(KeyName::F9)
    } else if name == "F10"@ {
        Some(KeyName::F10)
    } else if name == "F11"@ {
        Some(KeyName::F11)
    } else if name == "F12"@ {
        Some(KeyName::F12)
    } else {
        None
    }
}

/// The message for a key name that is not known.
pub open spec fn unknown_key_text(name: Seq<char>) -> Seq<char> {
    "unknown key name: "@ + name + " \u{2014} add to input.rs::parse_key()"@
}

/// The key a key name stands for; an unknown name is reported as not
/// implemented.
pub fn parse_key(name: &str) -> (r: Result<KeyName, DebugError>)
    ensures
        match key_of(name@) {
            Some(k) => r == Ok::<KeyName, DebugError>(k),
            None => r matches Err(DebugError::NotImplemented(m)) && m@ == unknown_key_text(name@),
        },
{
    if str_eq(name, "Return") {
        Ok(KeyName::Return)
    } else if str_eq(name, "Enter") {
        Ok(KeyName::Return)
    } else if str_eq(name, "Escape") {
        Ok(KeyName::Escape)
    } else if str_eq(name, "Tab") {
        Ok(KeyName::Tab)
    } else if str_eq(name, "Space") {
        Ok(KeyName::Space)
    } else if str_eq(name, "Backspace") {
        Ok(KeyName::Backspace)
    } else if str_eq(name, "Delete") {
        Ok(KeyName::Delete)
    } else if str_eq(name, "Up") {
        Ok(KeyName::UpArrow)
    } else if str_eq(name, "Down") {
        Ok(KeyName::DownArrow)
    } else if str_eq(name, "Left") {
        Ok(KeyName::LeftArrow)
    } else if str_eq(name, "Right") {
        Ok(KeyName::RightArrow)
    } else if str_eq(name, "Home") {
        Ok(KeyName::Home)
    } else if str_eq(name, "End") {
        Ok(KeyName::End)
    } else if str_eq(name, "PageUp") {
        Ok(KeyName::PageUp)
    } else if str_eq(name, "PageDown") {
        Ok(KeyName::PageDown)
    } else if str_eq(name, "F1") {
        Ok(KeyName::F1)
    } else if str_eq(name, "F2") {
        Ok(KeyName::F2)
    } else if str_eq(name, "F3") {
        Ok(KeyName::F3)
    } else if str_eq(name, "F4") {
        Ok(KeyName::F4)
    } else if str_eq(name, "F5") {
        Ok(KeyName::F5)
    } else if str_eq(name, "F6") {
        Ok(KeyName::F6)
    } else if str_eq(name, "F7") {
        Ok(KeyName::F7)
    } else if str_eq(name, "F8") {
        Ok(KeyName::F8)
    } else if str_eq(name, "F9") {
        Ok(KeyName::F9)
    } else if str_eq(name, "F10") {
        Ok(KeyName::F10)
    } else if str_eq(name, "F11") {
        Ok(KeyName::F11)
    } else if str_eq(name, "F12") {
        Ok(KeyName::F12)
    } else {
        let mut m = owned("unknown key name: ");
        m.append(name);
        m.append(" \u{2014} add to input.rs::parse_key()");
        Err(DebugError::NotImplemented(m))
    }
}

} // verus!
