//! The top-level menu: its text and the selections it accepts.

use vstd::prelude::*;
use vstd::string::StrSliceExecFns;

verus! {

/// One of the four actions offered by the top-level menu.
#[derive(Clone, Copy, Debug, PartialEq, Eq, Structural)]
pub enum MainMenu {
    Addbill,
    ViewBill,
    RemoveBill,
    UpdateBill,
}

/// The text of the menu, as one piece with its line breaks.
pub open spec fn menu_text() -> Seq<char> {
    "\n == Bill Manager ==\n1. Add Bill\n2. View Bill\n3. Remove Bill\n4. Update Bill\n\nEnter selection: "@
}

/// The action that a selection token stands for, if any: `1` adds, `2`
/// views, `3` removes and `4` updates. Every other text selects nothing.
pub open spec fn selection_of(token: Seq<char>) -> Option<MainMenu> {
    if token == seq!['1'] {
        Some(MainMenu::Addbill)
    } else if token == seq!['2'] {
        Some(MainMenu::ViewBill)
    } else if token == seq!['3'] {
        Some(MainMenu::RemoveBill)
    } else if token == seq!['4'] {
        Some(MainMenu::UpdateBill)
    } else {
        None
    }
}

impl MainMenu {
    /// The menu and the request for a selection, to be printed as they are.
    pub fn show() -> (text: &'static str)
        ensures
            text@ == menu_text(),
    {
        "\n == Bill Manager ==\n1. Add Bill\n2. View Bill\n3. Remove Bill\n4. Update Bill\n\nEnter selection: "
    }

    /// Reads a selection token. The token must match exactly: no
    /// surrounding blanks, no other spelling of the digit.
    pub fn from_str(input: &str) -> (selection: Option<MainMenu>)
        ensures
            selection == selection_of(input@),
    {
        if input.unicode_len() != 1 {
            return None;
        }
        let c = input.get_char(0);
        assert(input@ =~= seq![c]);
        if c == '1' {
            Some(MainMenu::Addbill)
        } else if c == '2' {
            Some(MainMenu::ViewBill)
        } else if c == '3' {
            Some(MainMenu::RemoveBill)
        } else if c == '4' {
            Some(MainMenu::UpdateBill)
        } else {
            assert(seq![c][0] == c);
            None
        }
    }
}

} // verus!
