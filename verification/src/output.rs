//! What the tracker says: fixed lines of text and bills to show.

use vstd::prelude::*;
use vstd::string::StringExecFns;
use crate::bill::{Bill, BillView};
use crate::main_menu::{menu_text, MainMenu};

verus! {

/// A fixed piece of text of the dialogue.
#[derive(Clone, Copy, Debug, PartialEq, Eq, Structural)]
pub enum Message {
    /// The menu and the request for a selection.
    Menu,
    /// The request for the name of a bill to add.
    AskName,
    /// An empty line.
    Blank,
    /// The request for an amount.
    AskAmount,
    /// The answer to the request for an amount was no number.
    NotANumber,
    /// A bill was added.
    Added,
    /// The request for the name of a bill to remove.
    AskRemoveName,
    /// The named bill was removed.
    Removed,
    /// There was no bill of that name to remove.
    NothingToRemove,
    /// The request for the name of a bill to update.
    AskUpdateName,
    /// The named bill was updated.
    Updated,
    /// There was no bill of that name to update.
    NothingToUpdate,
    /// The selection was none of the menu's.
    InvalidMenu,
}

impl Message {
    /// The characters of the message.
    pub open spec fn spec_text(self) -> Seq<char> {
        match self {
            Message::Menu => menu_text(),
            Message::AskName => "Bill name: "@,
            Message::Blank => ""@,
            Message::AskAmount => "Bill amount: "@,
            Message::NotANumber => "please, enter a number"@,
            Message::Added => "Bill added "@,
            Message::AskRemoveName => "Enter bill name to remove: "@,
            Message::Removed => "bill removed !"@,
            Message::NothingToRemove => "bill not found !"@,
            Message::AskUpdateName => "Enter bill name to update: "@,
            Message::Updated => "Updated !"@,
            Message::NothingToUpdate => "Bill not found !"@,
            Message::InvalidMenu => "Invalid menu"@,
        }
    }

    /// The message as text, to be printed as a line of its own.
    pub fn text(&self) -> (text: &'static str)
        ensures
            text@ == self.spec_text(),
    {
        match self {
            Message::Menu => MainMenu::show(),
            Message::AskName => "Bill name: ",
            Message::Blank => "",
            Message::AskAmount => "Bill amount: ",
            Message::NotANumber => "please, enter a number",
            Message::Added => "Bill added ",
            Message::AskRemoveName => "Enter bill name to remove: ",
            Message::Removed => "bill removed !",
            Message::NothingToRemove => "bill not found !",
            Message::AskUpdateName => "Enter bill name to update: ",
            Message::Updated => "Updated !",
            Message::NothingToUpdate => "Bill not found !",
            Message::InvalidMenu => "Invalid menu",
        }
    }
}

/// One thing for the front end to print.
#[derive(Clone, Debug, PartialEq, Eq)]
pub enum Output {
    /// A fixed message.
    Say(Message),
    /// A bill laid out as a card: its name and its amount between two rules.
    Card(Bill),
    /// A bill on one line, as a record.
    Record(Bill),
    /// A text that the user entered, repeated in quotes.
    Echo(String),
}

/// What an output is, mathematically.
pub enum OutputView {
    Say(Message),
    Card(BillView),
    Record(BillView),
    Echo(Seq<char>),
}

impl View for Output {
    type V = OutputView;

    open spec fn view(&self) -> OutputView {
        match self {
            Output::Say(message) => OutputView::Say(*message),
            Output::Card(bill) => OutputView::Card(bill@),
            Output::Record(bill) => OutputView::Record(bill@),
            Output::Echo(text) => OutputView::Echo(text@),
        }
    }
}

/// The text that a text is shown as in quotes: what the standard library's
/// `{:?}` makes of a `str`, with its quotation marks and escapes.
pub uninterp spec fn quoted(text: Seq<char>) -> Seq<char>;

/// Formats a text with `{:?}`. Believed, not proved: the result depends on
/// the characters of the text alone, which is all that the name `quoted`
/// says.
#[verifier::external_body]
pub(crate) fn quote(text: &str) -> (shown: String)
    ensures
        shown@ == quoted(text@),
{
    format!("{:?}", text)
}

/// The line that rules a card off, above and below.
pub open spec fn card_rule() -> Seq<char> {
    " ------------ "@
}

/// The four lines of a card, given the bill's name in quotes and its amount
/// as text: a rule, the name, the amount, a rule.
pub open spec fn card_of(quoted_name: Seq<char>, amount_text: Seq<char>) -> Seq<Seq<char>> {
    seq![
        card_rule(),
        "Bill name: "@ + quoted_name,
        "Bill amount: "@ + amount_text,
        card_rule(),
    ]
}

/// The one line of a record, given the bill's name in quotes and its amount
/// as text.
pub open spec fn record_of(quoted_name: Seq<char>, amount_text: Seq<char>) -> Seq<char> {
    "Bill { name: "@ + quoted_name + ", amount: "@ + amount_text + " }"@
}

/// The lines that an output is printed as, each to be followed by a line
/// break. `amount_text` is the amount of the bill shown, written out; it
/// counts for a card and a record only.
pub open spec fn lines_of(output: OutputView, amount_text: Seq<char>) -> Seq<Seq<char>> {
    match output {
        OutputView::Say(message) => seq![message.spec_text()],
        OutputView::Card(bill) => card_of(quoted(bill.name), amount_text),
        OutputView::Record(bill) => seq![record_of(quoted(bill.name), amount_text)],
        OutputView::Echo(text) => seq![quoted(text)],
    }
}

/// The characters of each text of a sequence.
pub open spec fn texts_of(lines: Seq<String>) -> Seq<Seq<char>> {
    lines.map_values(|line: String| line@)
}

/// The four lines of a card, from the bill's name in quotes and its amount
/// as text.
pub fn card_lines(quoted_name: &str, amount_text: &str) -> (lines: Vec<String>)
    ensures
        texts_of(lines@) == card_of(quoted_name@, amount_text@),
{
    let mut lines: Vec<String> = Vec::new();
    lines.push(" ------------ ".to_owned());
    lines.push("Bill name: ".to_owned().concat(quoted_name));
    lines.push("Bill amount: ".to_owned().concat(amount_text));
    lines.push(" ------------ ".to_owned());
    assert(texts_of(lines@) =~= card_of(quoted_name@, amount_text@));
    lines
}

/// The one line of a record, from the bill's name in quotes and its amount
/// as text.
pub fn record_line(quoted_name: &str, amount_text: &str) -> (line: String)
    ensures
        line@ == record_of(quoted_name@, amount_text@),
{
    "Bill { name: ".to_owned().concat(quoted_name).concat(", amount: ").concat(amount_text).concat(
        " }",
    )
}

impl Output {
    /// The amount of the bill that the output shows, if it shows one: what
    /// the front end is to write out for [`Output::lines`].
    pub fn amount(&self) -> (amount: Option<u64>)
        ensures
            amount == match self@ {
                OutputView::Card(bill) => Some(bill.amount),
                OutputView::Record(bill) => Some(bill.amount),
                _ => None,
            },
    {
        match self {
            Output::Card(bill) => Some(bill.amount()),
            Output::Record(bill) => Some(bill.amount()),
            _ => None,
        }
    }

    /// The lines that the output is printed as. `amount_text` is the amount
    /// of the bill shown, written out by the front end.
    pub fn lines(&self, amount_text: &str) -> (lines: Vec<String>)
        ensures
            texts_of(lines@) == lines_of(self@, amount_text@),
    {
        match self {
            Output::Say(message) => one_line(message.text().to_owned()),
            Output::Card(bill) => card_lines(quote(bill.name()).as_str(), amount_text),
            Output::Record(bill) => one_line(record_line(quote(bill.name()).as_str(), amount_text)),
            Output::Echo(text) => one_line(quote(text.as_str())),
        }
    }
}

/// One line, alone.
fn one_line(line: String) -> (lines: Vec<String>)
    ensures
        texts_of(lines@) == seq![line@],
{
    let mut lines: Vec<String> = Vec::new();
    lines.push(line);
    assert(texts_of(lines@) =~= seq![line@]);
    lines
}

/// The outputs of a sequence, each as what it is mathematically.
pub open spec fn outputs_of(said: Seq<Output>) -> Seq<OutputView> {
    said.map_values(|output: Output| output@)
}

/// The cards of a sequence of records, in the same order.
pub open spec fn cards_of(records: Seq<BillView>) -> Seq<OutputView> {
    records.map_values(|record: BillView| OutputView::Card(record))
}

/// The one-line records of a sequence of records, in the same order.
pub open spec fn rows_of(records: Seq<BillView>) -> Seq<OutputView> {
    records.map_values(|record: BillView| OutputView::Record(record))
}

} // verus!
