//! The entries of the tray menu.

use crate::text::same_text;
use vstd::prelude::*;
use vstd::string::StringExecFns;

verus! {

/// The entries of the tray menu.
#[derive(Debug, Clone, Copy, PartialEq, Eq, Structural)]
pub enum MenuId {
    Quit,
    Test,
    Hide,
    Show,
    SetClipboard,
    GetClipboard,
}

/// The entry with the identifier `id`.
pub open spec fn menu_entry(id: Seq<char>) -> Option<MenuId> {
    if id == "quit"@ {
        Some(MenuId::Quit)
    } else if id == "test"@ {
        Some(MenuId::Test)
    } else if id == "hide"@ {
        Some(MenuId::Hide)
    } else if id == "show"@ {
        Some(MenuId::Show)
    } else if id == "set_clipboard"@ {
        Some(MenuId::SetClipboard)
    } else if id == "get_clipboard"@ {
        Some(MenuId::GetClipboard)
    } else {
        None
    }
}

/// The message for an identifier that is no entry's.
pub open spec fn unknown_menu_id(id: Seq<char>) -> Seq<char> {
    "Unknown menu id: "@ + id
}

impl MenuId {
    /// The identifier of the entry.
    pub open spec fn id(self) -> Seq<char> {
        match self {
            MenuId::Quit => "quit"@,
            MenuId::Test => "test"@,
            MenuId::Hide => "hide"@,
            MenuId::Show => "show"@,
            MenuId::SetClipboard => "set_clipboard"@,
            MenuId::GetClipboard => "get_clipboard"@,
        }
    }

    /// Returns the identifier of the entry.
    pub fn as_str(&self) -> (id: &'static str)
        ensures
            id@ == self.id(),
    {
        match self {
            MenuId::Quit => "quit",
            MenuId::Test => "test",
            MenuId::Hide => "hide",
            MenuId::Show => "show",
            MenuId::SetClipboard => "set_clipboard",
            MenuId::GetClipboard => "get_clipboard",
        }
    }

    /// Finds the entry with the identifier `id`; the exact identifier, in lower case.
    pub fn parse_menu_id(id: &str) -> (r: Result<MenuId, String>)
        ensures
            match menu_entry(id@) {
                Some(entry) => r == Ok::<MenuId, String>(entry),
                None => r matches Err(message) && message@ == unknown_menu_id(id@),
            },
    {
        if same_text(id, "quit") {
            Ok(MenuId::Quit)
        } else if same_text(id, "test") {
            Ok(MenuId::Test)
        } else if same_text(id, "hide") {
            Ok(MenuId::Hide)
        } else if same_text(id, "show") {
            Ok(MenuId::Show)
        } else if same_text(id, "set_clipboard") {
            Ok(MenuId::SetClipboard)
        } else if same_text(id, "get_clipboard") {
            Ok(MenuId::GetClipboard)
        } else {
            let mut message = String::from_str("Unknown menu id: ");
            message.append(id);
            Err(message)
        }
    }
}

} // verus!
