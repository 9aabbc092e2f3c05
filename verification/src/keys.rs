//! The key catalog: a static lookup from a human-readable key name to the
//! payload of a synthesized key event.
//!
//! A name of exactly one printable ASCII character names that character
//! itself: its key code is its scalar value and it types its own text.
//! A handful of longer names (`Enter`, `Tab`, and so on) name control keys.
//! Every other name is unknown and is reported as such before any protocol
//! call is made.

use vstd::prelude::*;

use crate::protocol::{opt_str_view, ErrV, Error};

verus! {

/// The payload of a key event: the key's protocol name, its key code, and
/// the text it types, if it types any.
#[derive(Clone, Debug)]
pub struct KeyDefinition {
    pub key: String,
    pub key_code: u32,
    pub text: Option<String>,
}

/// Mathematical image of a [`KeyDefinition`].
pub struct KeyDefV {
    pub key: Seq<char>,
    pub key_code: u32,
    pub text: Option<Seq<char>>,
}

impl View for KeyDefinition {
    type V = KeyDefV;

    open spec fn view(&self) -> KeyDefV {
        KeyDefV { key: self.key@, key_code: self.key_code, text: opt_str_view(self.text) }
    }
}

/// Whether `c` is a printable ASCII character, space through tilde.
pub open spec fn printable(c: char) -> bool {
    32 <= c as u32 <= 126
}

/// The definition a single printable character names: itself, with its
/// scalar value as key code.
pub open spec fn char_def(c: char) -> Option<KeyDefV> {
    if printable(c) {
        Some(KeyDefV { key: seq![c], key_code: c as u32, text: Some(seq![c]) })
    } else {
        None
    }
}

/// The whole catalog: what a key name resolves to, if anything.
pub open spec fn key_def_of(name: Seq<char>) -> Option<KeyDefV> {
    if name.len() == 1 {
        char_def(name[0])
    } else if name == "Enter"@ {
        Some(KeyDefV { key: "Enter"@, key_code: 13, text: Some("\r"@) })
    } else if name == "Tab"@ {
        Some(KeyDefV { key: "Tab"@, key_code: 9, text: None })
    } else if name == "Escape"@ {
        Some(KeyDefV { key: "Escape"@, key_code: 27, text: None })
    } else if name == "Backspace"@ {
        Some(KeyDefV { key: "Backspace"@, key_code: 8, text: None })
    } else if name == "Delete"@ {
        Some(KeyDefV { key: "Delete"@, key_code: 46, text: None })
    } else if name == "ArrowLeft"@ {
        Some(KeyDefV { key: "ArrowLeft"@, key_code: 37, text: None })
    } else if name == "ArrowUp"@ {
        Some(KeyDefV { key: "ArrowUp"@, key_code: 38, text: None })
    } else if name == "ArrowRight"@ {
        Some(KeyDefV { key: "ArrowRight"@, key_code: 39, text: None })
    } else if name == "ArrowDown"@ {
        Some(KeyDefV { key: "ArrowDown"@, key_code: 40, text: None })
    } else {
        None
    }
}

/// Character-by-character string comparison.
fn str_eq(a: &str, b: &str) -> (r: bool)
    ensures
        r == (a@ == b@),
{
    let a_len = a.unicode_len();
    let b_len = b.unicode_len();
    if a_len != b_len {
        return false;
    }
    let mut i: usize = 0;
    while i < a_len
        invariant
            i <= a_len,
            a_len == a@.len(),
            b_len == b@.len(),
            a_len == b_len,
            forall|j: int| 0 <= j < i ==> a@[j] == b@[j],
        decreases a_len - i,
    {
        if a.get_char(i) != b.get_char(i) {
            return false;
        }
        i = i + 1;
    }
    proof {
        assert(a@ =~= b@);
    }
    true
}

/// Look a key name up in the catalog.  Returns the unknown-key error,
/// naming the key, exactly when the catalog has no entry for the name.
pub fn get_key_definition(key: &str) -> (r: Result<KeyDefinition, Error>)
    ensures
        match r {
            Ok(d) => key_def_of(key@) == Some(d@),
            Err(e) => key_def_of(key@) is None && e@ == (ErrV::UnknownKey { key: key@ }),
        },
{
    let len = key.unicode_len();
    if len == 1 {
        let c = key.get_char(0);
        let code = c as u32;
        if 32 <= code && code <= 126 {
            proof {
                assert(key@ =~= seq![key@[0]]);
            }
            return Ok(
                KeyDefinition { key: key.to_owned(), key_code: code, text: Some(key.to_owned()) },
            );
        }
        return Err(Error::UnknownKey { key: key.to_owned() });
    }
    if str_eq(key, "Enter") {
        return Ok(
            KeyDefinition { key: key.to_owned(), key_code: 13, text: Some("\r".to_owned()) },
        );
    }
    if str_eq(key, "Tab") {
        return Ok(KeyDefinition { key: key.to_owned(), key_code: 9, text: None });
    }
    if str_eq(key, "Escape") {
        return Ok(KeyDefinition { key: key.to_owned(), key_code: 27, text: None });
    }
    if str_eq(key, "Backspace") {
        return Ok(KeyDefinition { key: key.to_owned(), key_code: 8, text: None });
    }
    if str_eq(key, "Delete") {
        return Ok(KeyDefinition { key: key.to_owned(), key_code: 46, text: None });
    }
    if str_eq(key, "ArrowLeft") {
        return Ok(KeyDefinition { key: key.to_owned(), key_code: 37, text: None });
    }
    if str_eq(key, "ArrowUp") {
        return Ok(KeyDefinition { key: key.to_owned(), key_code: 38, text: None });
    }
    if str_eq(key, "ArrowRight") {
        return Ok(KeyDefinition { key: key.to_owned(), key_code: 39, text: None });
    }
    if str_eq(key, "ArrowDown") {
        return Ok(KeyDefinition { key: key.to_owned(), key_code: 40, text: None });
    }
    Err(Error::UnknownKey { key: key.to_owned() })
}

} // verus!
