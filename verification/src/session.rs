//! A session at the menu: where the dialogue stands, what the next answer
//! does to the store and what is said in return.
//!
//! The front end prints what was said, reads a line and hands it over, until
//! the session is finished.

use vstd::prelude::*;
use crate::bill::{is_finite_amount, BillView};
use crate::bills::{after_add, after_remove, after_update, lists, Bills};
use crate::input::{amount_reply, amount_reply_of, cleaned, entry, entry_of, trim, AmountReply};
use crate::input::{is_white_space, lemma_blank_line_gives_no_answer};
use crate::main_menu::{selection_of, MainMenu};
use crate::menu::{add_bill, list_bills, remove_bill, update_bill, view_bills};
use crate::menu::{said_on_add, said_on_remove, said_on_update};
use crate::output::{cards_of, outputs_of, rows_of, Message, Output, OutputView};

verus! {

/// What the session waits for.
#[derive(Clone, Debug, PartialEq, Eq)]
pub enum Stage {
    /// A selection from the menu.
    Selecting,
    /// The name of a bill to add.
    AddName,
    /// The amount of the bill to add under the given name.
    AddAmount { name: String },
    /// The name of a bill to remove.
    RemoveName,
    /// The name of a bill to update.
    UpdateName,
    /// The new amount of the bill of the given name.
    UpdateAmount { name: String },
    /// Nothing: the session is over.
    Finished,
}

/// What a stage is, mathematically.
pub enum StageView {
    Selecting,
    AddName,
    AddAmount { name: Seq<char> },
    RemoveName,
    UpdateName,
    UpdateAmount { name: Seq<char> },
    Finished,
}

impl View for Stage {
    type V = StageView;

    open spec fn view(&self) -> StageView {
        match self {
            Stage::Selecting => StageView::Selecting,
            Stage::AddName => StageView::AddName,
            Stage::AddAmount { name } => StageView::AddAmount { name: name@ },
            Stage::RemoveName => StageView::RemoveName,
            Stage::UpdateName => StageView::UpdateName,
            Stage::UpdateAmount { name } => StageView::UpdateAmount { name: name@ },
            Stage::Finished => StageView::Finished,
        }
    }
}

/// What a session is, mathematically: the ledger of its store and its stage.
pub struct SessionView {
    pub ledger: Map<Seq<char>, u64>,
    pub stage: StageView,
}

/// A session as it begins: no bills, and the menu awaiting a selection.
pub open spec fn opening_state() -> SessionView {
    SessionView { ledger: Map::empty(), stage: StageView::Selecting }
}

/// Every name in the session is a text of at least one character: the names
/// in the ledger and the name that an amount is awaited for.
pub open spec fn well_named(state: SessionView) -> bool {
    &&& forall|name: Seq<char>| #[trigger] state.ledger.contains_key(name) ==> name.len() > 0
    &&& match state.stage {
        StageView::AddAmount { name } => name.len() > 0,
        StageView::UpdateAmount { name } => name.len() > 0,
        _ => true,
    }
}

/// Every amount in the ledger is a finite number.
pub open spec fn finite_amounts(ledger: Map<Seq<char>, u64>) -> bool {
    forall|name: Seq<char>| #[trigger] ledger.contains_key(name) ==> is_finite_amount(ledger[name])
}

/// The session after one answer. `input` is the answer, `None` for an empty
/// one; `reading` is what the answer reads as, the bit pattern of a
/// double-precision number, or `None` where it reads as none. Only an answer
/// that reads as a finite number completes an addition or an update, and
/// until then the ledger stays as it is.
pub open spec fn next_state(
    state: SessionView,
    input: Option<Seq<char>>,
    reading: Option<u64>,
) -> SessionView {
    let back = SessionView { ledger: state.ledger, stage: StageView::Selecting };
    match state.stage {
        StageView::Selecting => match input {
            None => SessionView { ledger: state.ledger, stage: StageView::Finished },
            Some(token) => SessionView {
                ledger: state.ledger,
                stage: match selection_of(token) {
                    Some(MainMenu::Addbill) => StageView::AddName,
                    Some(MainMenu::ViewBill) => StageView::Selecting,
                    Some(MainMenu::RemoveBill) => StageView::RemoveName,
                    Some(MainMenu::UpdateBill) => StageView::UpdateName,
                    None => StageView::Finished,
                },
            },
        },
        StageView::AddName => match input {
            None => back,
            Some(name) => SessionView {
                ledger: state.ledger,
                stage: StageView::AddAmount { name },
            },
        },
        StageView::AddAmount { name } => match amount_reply_of(input, reading) {
            AmountReply::Cancelled => back,
            AmountReply::Rejected => state,
            AmountReply::Accepted(amount) => SessionView {
                ledger: after_add(state.ledger, BillView { name, amount }),
                stage: StageView::Selecting,
            },
        },
        StageView::RemoveName => match input {
            None => back,
            Some(name) => SessionView {
                ledger: after_remove(state.ledger, name),
                stage: StageView::Selecting,
            },
        },
        StageView::UpdateName => match input {
            None => back,
            Some(name) => SessionView {
                ledger: state.ledger,
                stage: StageView::UpdateAmount { name },
            },
        },
        StageView::UpdateAmount { name } => match amount_reply_of(input, reading) {
            AmountReply::Cancelled => back,
            AmountReply::Rejected => state,
            AmountReply::Accepted(amount) => SessionView {
                ledger: after_update(state.ledger, name, amount),
                stage: StageView::Selecting,
            },
        },
        StageView::Finished => state,
    }
}

/// Whether `said` is what the session says in return for one answer. Every
/// return to the menu ends with the menu's text; where the bills are shown,
/// they come in the order of some listing of the ledger.
pub open spec fn said_in_return(
    state: SessionView,
    input: Option<Seq<char>>,
    reading: Option<u64>,
    said: Seq<OutputView>,
) -> bool {
    let menu = OutputView::Say(Message::Menu);
    match state.stage {
        StageView::Selecting => match input {
            None => said == Seq::<OutputView>::empty(),
            Some(token) => match selection_of(token) {
                Some(MainMenu::Addbill) => said == seq![OutputView::Say(Message::AskName)],
                Some(MainMenu::ViewBill) => exists|records: Seq<BillView>| #[trigger]
                    lists(records, state.ledger) && said == cards_of(records).push(menu),
                Some(MainMenu::RemoveBill) => exists|records: Seq<BillView>| #[trigger]
                    lists(records, state.ledger) && said == rows_of(records).push(
                        OutputView::Say(Message::AskRemoveName),
                    ),
                Some(MainMenu::UpdateBill) => exists|records: Seq<BillView>| #[trigger]
                    lists(records, state.ledger) && said == rows_of(records).push(
                        OutputView::Say(Message::AskUpdateName),
                    ),
                None => said == seq![OutputView::Say(Message::InvalidMenu)],
            },
        },
        StageView::AddName => match input {
            None => said == seq![menu],
            Some(_) => said == seq![
                OutputView::Say(Message::Blank),
                OutputView::Say(Message::AskAmount),
            ],
        },
        StageView::AddAmount { name } => match amount_reply_of(input, reading) {
            AmountReply::Cancelled => said == seq![menu],
            AmountReply::Rejected => said == seq![OutputView::Say(Message::NotANumber)],
            AmountReply::Accepted(_) => said == said_on_add().push(menu),
        },
        StageView::RemoveName => match input {
            None => said == seq![menu],
            Some(name) => said == said_on_remove(state.ledger, name).push(menu),
        },
        StageView::UpdateName => match input {
            None => said == seq![menu],
            Some(_) => said == seq![OutputView::Say(Message::AskAmount)],
        },
        StageView::UpdateAmount { name } => match amount_reply_of(input, reading) {
            AmountReply::Cancelled => said == seq![menu],
            AmountReply::Rejected => said == seq![OutputView::Say(Message::NotANumber)],
            AmountReply::Accepted(_) => said == said_on_update(state.ledger, name).push(menu),
        },
        StageView::Finished => said == Seq::<OutputView>::empty(),
    }
}

/// Whether a stage awaits an amount.
pub open spec fn awaits_amount(stage: StageView) -> bool {
    stage is AddAmount || stage is UpdateAmount
}

/// The session after a run of answers, each with the number it reads as,
/// taken one after the other.
pub open spec fn state_after(
    state: SessionView,
    answers: Seq<(Option<Seq<char>>, Option<u64>)>,
) -> SessionView
    decreases answers.len(),
{
    if answers.len() == 0 {
        state
    } else {
        next_state(state_after(state, answers.drop_last()), answers.last().0, answers.last().1)
    }
}

/// Whether what an answer reads as is a finite number.
pub open spec fn reads_as_amount(reading: Option<u64>) -> bool {
    reading matches Some(amount) && is_finite_amount(amount)
}

/// While an amount is awaited, an answer that does not read as a finite
/// number is answered with the request for a number and changes nothing:
/// neither the store nor what is awaited. An empty answer gives the action
/// up and leaves the store as it is too. The store changes on a finite
/// number only.
pub proof fn lemma_amount_awaited(
    state: SessionView,
    input: Option<Seq<char>>,
    reading: Option<u64>,
    said: Seq<OutputView>,
)
    requires
        awaits_amount(state.stage),
        said_in_return(state, input, reading, said),
    ensures
        input is Some && !reads_as_amount(reading) ==> next_state(state, input, reading) == state
            && said == seq![OutputView::Say(Message::NotANumber)],
        input is None ==> next_state(state, input, reading) == (SessionView {
            ledger: state.ledger,
            stage: StageView::Selecting,
        }),
        !(input is Some && reads_as_amount(reading)) ==> next_state(state, input, reading).ledger
            == state.ledger,
{
}

/// However many answers that do not read as finite numbers are given while
/// an amount is awaited, the session stays as it was before the first of
/// them.
pub proof fn lemma_rejected_answers_change_nothing(
    state: SessionView,
    answers: Seq<(Option<Seq<char>>, Option<u64>)>,
)
    requires
        awaits_amount(state.stage),
        forall|i: int|
            0 <= i < answers.len() ==> (#[trigger] answers[i]).0 is Some && !reads_as_amount(
                answers[i].1,
            ),
    ensures
        state_after(state, answers) == state,
    decreases answers.len(),
{
    if answers.len() > 0 {
        lemma_rejected_answers_change_nothing(state, answers.drop_last());
        assert(answers.last() == answers[answers.len() - 1]);
    }
}

/// At the menu, an empty answer and an answer that is none of the four
/// selections both end the session: the store stays as it is, and nothing
/// is said but, for the latter, that the selection was invalid.
pub proof fn lemma_session_ends(
    state: SessionView,
    input: Option<Seq<char>>,
    reading: Option<u64>,
    said: Seq<OutputView>,
)
    requires
        state.stage is Selecting,
        input matches Some(token) ==> selection_of(token) is None,
        said_in_return(state, input, reading, said),
    ensures
        next_state(state, input, reading) == (SessionView {
            ledger: state.ledger,
            stage: StageView::Finished,
        }),
        input is None ==> said == Seq::<OutputView>::empty(),
        input is Some ==> said == seq![OutputView::Say(Message::InvalidMenu)],
{
}

/// At the menu, a line of white space only, the empty line among them, ends
/// the session: the store stays as it is and nothing is said.
pub proof fn lemma_blank_line_ends_session(
    state: SessionView,
    line: Seq<char>,
    reading: Option<u64>,
    said: Seq<OutputView>,
)
    requires
        state.stage is Selecting,
        forall|i: int| 0 <= i < line.len() ==> is_white_space(#[trigger] line[i]),
        said_in_return(state, cleaned(line), reading, said),
    ensures
        next_state(state, cleaned(line), reading) == (SessionView {
            ledger: state.ledger,
            stage: StageView::Finished,
        }),
        said == Seq::<OutputView>::empty(),
{
    lemma_blank_line_gives_no_answer(line);
}

/// A session that is over stays over: whatever is answered, nothing changes
/// and nothing is said.
pub proof fn lemma_finished_is_final(
    state: SessionView,
    input: Option<Seq<char>>,
    reading: Option<u64>,
    said: Seq<OutputView>,
)
    requires
        state.stage is Finished,
        said_in_return(state, input, reading, said),
    ensures
        next_state(state, input, reading) == state,
        said == Seq::<OutputView>::empty(),
{
}

/// The store changes in three places only: where a finite amount completes
/// an addition, where a name is given to remove, and where a finite amount
/// completes an update. Every other answer leaves the ledger as it is.
pub proof fn lemma_ledger_changes_on_completion(
    state: SessionView,
    input: Option<Seq<char>>,
    reading: Option<u64>,
)
    ensures
        next_state(state, input, reading).ledger == match state.stage {
            StageView::AddAmount { name } => match amount_reply_of(input, reading) {
                AmountReply::Accepted(amount) => after_add(state.ledger, BillView { name, amount }),
                _ => state.ledger,
            },
            StageView::RemoveName => match input {
                Some(name) => after_remove(state.ledger, name),
                None => state.ledger,
            },
            StageView::UpdateAmount { name } => match amount_reply_of(input, reading) {
                AmountReply::Accepted(amount) => after_update(state.ledger, name, amount),
                _ => state.ledger,
            },
            _ => state.ledger,
        },
        input is Some && reads_as_amount(reading) <==> amount_reply_of(input, reading) is Accepted,
{
}

/// Amounts stay finite: a ledger of finite amounts holds finite amounts
/// after every answer, whatever the answer reads as.
pub proof fn lemma_amounts_stay_finite(
    state: SessionView,
    input: Option<Seq<char>>,
    reading: Option<u64>,
)
    requires
        finite_amounts(state.ledger),
    ensures
        finite_amounts(next_state(state, input, reading).ledger),
{
}

/// Names stay texts of at least one character: a session that is well named
/// is well named after every answer, an answer being no text or a text of at
/// least one character.
pub proof fn lemma_names_stay_nonempty(
    state: SessionView,
    input: Option<Seq<char>>,
    reading: Option<u64>,
)
    requires
        well_named(state),
        input matches Some(text) ==> text.len() > 0,
    ensures
        well_named(next_state(state, input, reading)),
{
}

/// No output.
fn nothing() -> (said: Vec<Output>)
    ensures
        outputs_of(said@) == Seq::<OutputView>::empty(),
{
    let said: Vec<Output> = Vec::new();
    assert(outputs_of(said@) =~= Seq::<OutputView>::empty());
    said
}

/// One output, alone.
fn one(output: Output) -> (said: Vec<Output>)
    ensures
        outputs_of(said@) == seq![output@],
{
    let mut said: Vec<Output> = Vec::new();
    said.push(output);
    assert(outputs_of(said@) =~= seq![output@]);
    said
}

/// Two outputs, in their order.
fn two(first: Output, second: Output) -> (said: Vec<Output>)
    ensures
        outputs_of(said@) == seq![first@, second@],
{
    let mut said: Vec<Output> = Vec::new();
    said.push(first);
    said.push(second);
    assert(outputs_of(said@) =~= seq![first@, second@]);
    said
}

/// The outputs given, followed by one more.
fn then(said: Vec<Output>, output: Output) -> (all: Vec<Output>)
    ensures
        outputs_of(all@) == outputs_of(said@).push(output@),
{
    let mut all = said;
    all.push(output);
    assert(outputs_of(all@) =~= outputs_of(said@).push(output@));
    all
}

/// Takes one answer at the given stage: changes the store as the answer
/// asks, and returns the stage that follows and what is to be said.
fn transition(bills: &mut Bills, stage: Stage, text: &str, reading: Option<u64>) -> (next: (
    Stage,
    Vec<Output>,
))
    requires
        well_named(SessionView { ledger: old(bills)@, stage: stage@ }),
        finite_amounts(old(bills)@),
    ensures
        (SessionView { ledger: final(bills)@, stage: next.0@ }) == next_state(
            SessionView { ledger: old(bills)@, stage: stage@ },
            entry_of(text@),
            reading,
        ),
        said_in_return(
            SessionView { ledger: old(bills)@, stage: stage@ },
            entry_of(text@),
            reading,
            outputs_of(next.1@),
        ),
        well_named(SessionView { ledger: final(bills)@, stage: next.0@ }),
        finite_amounts(final(bills)@),
{
    let input = entry(text);
    match stage {
        Stage::Selecting => match input {
            None => (Stage::Finished, nothing()),
            Some(token) => match MainMenu::from_str(token.as_str()) {
                Some(MainMenu::Addbill) => (Stage::AddName, one(Output::Say(Message::AskName))),
                Some(MainMenu::ViewBill) => (
                    Stage::Selecting,
                    then(view_bills(bills), Output::Say(Message::Menu)),
                ),
                Some(MainMenu::RemoveBill) => (
                    Stage::RemoveName,
                    then(list_bills(bills), Output::Say(Message::AskRemoveName)),
                ),
                Some(MainMenu::UpdateBill) => (
                    Stage::UpdateName,
                    then(list_bills(bills), Output::Say(Message::AskUpdateName)),
                ),
                None => (Stage::Finished, one(Output::Say(Message::InvalidMenu))),
            },
        },
        Stage::AddName => match input {
            None => (Stage::Selecting, one(Output::Say(Message::Menu))),
            Some(name) => (
                Stage::AddAmount { name },
                two(Output::Say(Message::Blank), Output::Say(Message::AskAmount)),
            ),
        },
        Stage::AddAmount { name } => match amount_reply(&input, reading) {
            AmountReply::Cancelled => (Stage::Selecting, one(Output::Say(Message::Menu))),
            AmountReply::Rejected => (
                Stage::AddAmount { name },
                one(Output::Say(Message::NotANumber)),
            ),
            AmountReply::Accepted(amount) => {
                let said = add_bill(bills, name, amount);
                (Stage::Selecting, then(said, Output::Say(Message::Menu)))
            },
        },
        Stage::RemoveName => match input {
            None => (Stage::Selecting, one(Output::Say(Message::Menu))),
            Some(name) => {
                let said = remove_bill(bills, name.as_str());
                (Stage::Selecting, then(said, Output::Say(Message::Menu)))
            },
        },
        Stage::UpdateName => match input {
            None => (Stage::Selecting, one(Output::Say(Message::Menu))),
            Some(name) => (Stage::UpdateAmount { name }, one(Output::Say(Message::AskAmount))),
        },
        Stage::UpdateAmount { name } => match amount_reply(&input, reading) {
            AmountReply::Cancelled => (Stage::Selecting, one(Output::Say(Message::Menu))),
            AmountReply::Rejected => (
                Stage::UpdateAmount { name },
                one(Output::Say(Message::NotANumber)),
            ),
            AmountReply::Accepted(amount) => {
                let said = update_bill(bills, name.as_str(), amount);
                (Stage::Selecting, then(said, Output::Say(Message::Menu)))
            },
        },
        Stage::Finished => (Stage::Finished, nothing()),
    }
}

/// A session at the menu: a store of bills and the stage of the dialogue.
pub struct Session {
    bills: Bills,
    stage: Stage,
}

impl View for Session {
    type V = SessionView;

    closed spec fn view(&self) -> SessionView {
        SessionView { ledger: self.bills@, stage: self.stage@ }
    }
}

impl Session {
    #[verifier::type_invariant]
    spec fn well_formed(self) -> bool {
        well_named(self@) && finite_amounts(self@.ledger)
    }

    /// Opens a session: an empty store, and the menu to be shown.
    pub fn start() -> (opened: (Session, Vec<Output>))
        ensures
            opened.0@ == opening_state(),
            outputs_of(opened.1@) == seq![OutputView::Say(Message::Menu)],
    {
        let session = Session { bills: Bills::new(), stage: Stage::Selecting };
        (session, one(Output::Say(Message::Menu)))
    }

    /// Takes one answer, given as the text that is left of the line once it
    /// is trimmed, and returns what is to be said. `reading` is what the
    /// text reads as, the bit pattern of a double-precision number, or `None`
    /// where the text reads as none; it counts only while an amount is
    /// awaited, and only a finite number is taken for an amount.
    pub fn advance(&mut self, text: &str, reading: Option<u64>) -> (said: Vec<Output>)
        ensures
            final(self)@ == next_state(old(self)@, entry_of(text@), reading),
            said_in_return(old(self)@, entry_of(text@), reading, outputs_of(said@)),
            well_named(old(self)@) && finite_amounts(old(self)@.ledger),
            well_named(final(self)@) && finite_amounts(final(self)@.ledger),
    {
        proof {
            use_type_invariant(&*self);
        }
        let mut bills = Bills::new();
        let mut stage = Stage::Finished;
        std::mem::swap(&mut bills, &mut self.bills);
        std::mem::swap(&mut stage, &mut self.stage);
        let (next, said) = transition(&mut bills, stage, text, reading);
        self.bills = bills;
        self.stage = next;
        said
    }

    /// Takes one answer, given as the line that was read, and returns what
    /// is to be said. `reading` is what the line reads as once it is
    /// trimmed, as for [`Session::advance`].
    pub fn step(&mut self, line: &str, reading: Option<u64>) -> (said: Vec<Output>)
        ensures
            final(self)@ == next_state(old(self)@, cleaned(line@), reading),
            said_in_return(old(self)@, cleaned(line@), reading, outputs_of(said@)),
            well_named(old(self)@) && finite_amounts(old(self)@.ledger),
            well_named(final(self)@) && finite_amounts(final(self)@.ledger),
    {
        self.advance(trim(line), reading)
    }

    /// Whether the session is over.
    pub fn is_finished(&self) -> (finished: bool)
        ensures
            finished == (self@.stage is Finished),
    {
        match self.stage {
            Stage::Finished => true,
            _ => false,
        }
    }

    /// What the session waits for.
    pub fn stage(&self) -> (stage: &Stage)
        ensures
            stage@ == self@.stage,
            well_named(self@) && finite_amounts(self@.ledger),
    {
        proof {
            use_type_invariant(self);
        }
        &self.stage
    }

    /// The store of the session.
    pub fn bills(&self) -> (bills: &Bills)
        ensures
            bills@ == self@.ledger,
            well_named(self@) && finite_amounts(self@.ledger),
    {
        proof {
            use_type_invariant(self);
        }
        &self.bills
    }
}

} // verus!
