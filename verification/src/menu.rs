//! The four actions of the menu, each on a store that is handed to it.
//!
//! An action takes what the user answered and returns what is to be said;
//! asking and printing are the front end's part.

use vstd::prelude::*;
use crate::bill::{Bill, BillView};
use crate::bills::{after_add, after_remove, after_update, lists, records_shown, Bills};
use crate::output::{cards_of, outputs_of, rows_of, Message, Output, OutputView};

verus! {

/// What is said once a bill was added.
pub open spec fn said_on_add() -> Seq<OutputView> {
    seq![OutputView::Say(Message::Added)]
}

/// What is said on removing a name from a ledger: the name in quotes, an
/// empty line, and whether a bill of that name was there.
pub open spec fn said_on_remove(ledger: Map<Seq<char>, u64>, name: Seq<char>) -> Seq<OutputView> {
    seq![
        OutputView::Echo(name),
        OutputView::Say(Message::Blank),
        OutputView::Say(
            if ledger.contains_key(name) {
                Message::Removed
            } else {
                Message::NothingToRemove
            },
        ),
    ]
}

/// What is said on updating a name of a ledger: whether a bill of that name
/// was there.
pub open spec fn said_on_update(ledger: Map<Seq<char>, u64>, name: Seq<char>) -> Seq<OutputView> {
    seq![
        OutputView::Say(
            if ledger.contains_key(name) {
                Message::Updated
            } else {
                Message::NothingToUpdate
            },
        ),
    ]
}

/// Adds a bill of the given name and amount, in place of any bill of that
/// name, and says so.
pub fn add_bill(bills: &mut Bills, name: String, amount: u64) -> (said: Vec<Output>)
    ensures
        final(bills)@ == after_add(old(bills)@, BillView { name: name@, amount }),
        outputs_of(said@) == said_on_add(),
{
    bills.add(Bill::new(name, amount));
    let mut said: Vec<Output> = Vec::new();
    said.push(Output::Say(Message::Added));
    assert(outputs_of(said@) =~= said_on_add());
    said
}

/// Shows every bill of the store as a card, each once.
pub fn view_bills(bills: &Bills) -> (said: Vec<Output>)
    ensures
        exists|records: Seq<BillView>| #[trigger]
            lists(records, bills@) && outputs_of(said@) == cards_of(records),
{
    let all = bills.get_all();
    let mut said: Vec<Output> = Vec::new();
    let mut i: usize = 0;
    while i < all.len()
        invariant
            i <= all.len(),
            said.len() == i,
            forall|j: int| 0 <= j < i ==> said@[j]@ == OutputView::Card(all@[j]@),
        decreases all.len() - i,
    {
        said.push(Output::Card(all[i].clone()));
        i += 1;
    }
    assert(outputs_of(said@) =~= cards_of(records_shown(all@)));
    said
}

/// Shows every bill of the store on a line of its own, each once, as the
/// user sees them before naming one.
pub fn list_bills(bills: &Bills) -> (said: Vec<Output>)
    ensures
        exists|records: Seq<BillView>| #[trigger]
            lists(records, bills@) && outputs_of(said@) == rows_of(records),
{
    let all = bills.get_all();
    let mut said: Vec<Output> = Vec::new();
    let mut i: usize = 0;
    while i < all.len()
        invariant
            i <= all.len(),
            said.len() == i,
            forall|j: int| 0 <= j < i ==> said@[j]@ == OutputView::Record(all@[j]@),
        decreases all.len() - i,
    {
        said.push(Output::Record(all[i].clone()));
        i += 1;
    }
    assert(outputs_of(said@) =~= rows_of(records_shown(all@)));
    said
}

/// Removes the bill of the given name, if there is one, and says which.
pub fn remove_bill(bills: &mut Bills, name: &str) -> (said: Vec<Output>)
    ensures
        final(bills)@ == after_remove(old(bills)@, name@),
        outputs_of(said@) == said_on_remove(old(bills)@, name@),
{
    let mut said: Vec<Output> = Vec::new();
    said.push(Output::Echo(name.to_owned()));
    said.push(Output::Say(Message::Blank));
    if bills.remove(name) {
        said.push(Output::Say(Message::Removed));
    } else {
        said.push(Output::Say(Message::NothingToRemove));
    }
    assert(outputs_of(said@) =~= said_on_remove(old(bills)@, name@));
    said
}

/// Gives the bill of the given name a new amount, if there is such a bill,
/// and says which.
pub fn update_bill(bills: &mut Bills, name: &str, amount: u64) -> (said: Vec<Output>)
    ensures
        final(bills)@ == after_update(old(bills)@, name@, amount),
        outputs_of(said@) == said_on_update(old(bills)@, name@),
{
    let mut said: Vec<Output> = Vec::new();
    if bills.update(name, amount) {
        said.push(Output::Say(Message::Updated));
    } else {
        said.push(Output::Say(Message::NothingToUpdate));
    }
    assert(outputs_of(said@) =~= said_on_update(old(bills)@, name@));
    said
}

} // verus!
