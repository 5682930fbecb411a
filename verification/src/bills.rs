//! The bill store: at most one bill per name.

use vstd::prelude::*;
use crate::bill::{Bill, BillView};
use crate::text::same_text;

verus! {

/// No two records carry the same name.
pub open spec fn distinct_names(records: Seq<BillView>) -> bool {
    forall|i: int, j: int| 0 <= i < j < records.len() ==> records[i].name != records[j].name
}

/// `records` is a listing of `ledger`: each record is an entry of the
/// ledger, each entry of the ledger has its record, and none comes twice.
/// The order of the records is left open.
pub open spec fn lists(records: Seq<BillView>, ledger: Map<Seq<char>, u64>) -> bool {
    &&& distinct_names(records)
    &&& forall|i: int|
        0 <= i < records.len() ==> ledger.contains_pair(
            (#[trigger] records[i]).name,
            records[i].amount,
        )
    &&& forall|name: Seq<char>| #[trigger]
        ledger.contains_key(name) ==> exists|i: int|
            0 <= i < records.len() && (#[trigger] records[i]).name == name
}

/// The ledger once a bill was added: the bill's amount stands under its
/// name, whatever stood there before.
pub open spec fn after_add(ledger: Map<Seq<char>, u64>, bill: BillView) -> Map<Seq<char>, u64> {
    ledger.insert(bill.name, bill.amount)
}

/// The ledger once a name was removed.
pub open spec fn after_remove(ledger: Map<Seq<char>, u64>, name: Seq<char>) -> Map<
    Seq<char>,
    u64,
> {
    ledger.remove(name)
}

/// The ledger once the amount of a name was updated: a new amount under a
/// name that is present, no change for a name that is absent.
pub open spec fn after_update(ledger: Map<Seq<char>, u64>, name: Seq<char>, amount: u64) -> Map<
    Seq<char>,
    u64,
> {
    if ledger.contains_key(name) {
        ledger.insert(name, amount)
    } else {
        ledger
    }
}

/// The records that a sequence of borrowed bills shows, in the same order.
pub open spec fn records_shown(bills: Seq<&Bill>) -> Seq<BillView> {
    bills.map_values(|bill: &Bill| bill@)
}

/// The bills of a session, keyed by name.
///
/// Seen from outside the store is a finite map from a name to the amount
/// billed under it; the bills themselves sit in a vector that never holds a
/// name twice.
pub struct Bills {
    inner: Vec<Bill>,
}

impl View for Bills {
    type V = Map<Seq<char>, u64>;

    closed spec fn view(&self) -> Map<Seq<char>, u64> {
        ledger_of(records_of(self.inner@))
    }
}

impl Bills {
    #[verifier::type_invariant]
    spec fn well_formed(self) -> bool {
        distinct_names(records_of(self.inner@))
    }

    /// An empty store.
    pub fn new() -> (bills: Bills)
        ensures
            bills@ == Map::<Seq<char>, u64>::empty(),
    {
        let bills = Bills { inner: Vec::new() };
        assert(bills@ =~= Map::<Seq<char>, u64>::empty());
        bills
    }

    /// Stores the bill under its name. A bill already stored under that name
    /// is replaced.
    pub fn add(&mut self, bill: Bill)
        ensures
            final(self)@ == after_add(old(self)@, bill@),
    {
        proof {
            use_type_invariant(&*self);
        }
        let ghost records = records_of(self.inner@);
        let found = self.position(bill.name());
        let mut inner = self.take_inner();
        match found {
            Some(i) => {
                proof {
                    lemma_ledger_replace(records, i as int, bill@);
                }
                inner.set(i, bill);
                assert(records_of(inner@) =~= records.update(i as int, bill@));
            },
            None => {
                proof {
                    lemma_ledger_push(records, bill@);
                }
                inner.push(bill);
                assert(records_of(inner@) =~= records.push(bill@));
            },
        }
        self.inner = inner;
    }

    /// Every bill of the store, each once, in no particular order.
    pub fn get_all(&self) -> (all: Vec<&Bill>)
        ensures
            lists(records_shown(all@), self@),
            self@.dom().finite(),
            all@.len() == self@.dom().len(),
    {
        proof {
            use_type_invariant(self);
        }
        let mut all: Vec<&Bill> = Vec::new();
        let mut i: usize = 0;
        while i < self.inner.len()
            invariant
                i <= self.inner.len(),
                all.len() == i,
                forall|j: int| 0 <= j < i ==> all@[j]@ == self.inner@[j]@,
            decreases self.inner.len() - i,
        {
            all.push(&self.inner[i]);
            i += 1;
        }
        proof {
            assert(records_shown(all@) =~= records_of(self.inner@));
            lemma_ledger_listed(records_of(self.inner@));
            lemma_listing_counts(records_shown(all@), self@);
        }
        all
    }

    /// Deletes the bill of the given name and tells whether there was one.
    pub fn remove(&mut self, bill_name: &str) -> (found: bool)
        ensures
            found == old(self)@.contains_key(bill_name@),
            final(self)@ == after_remove(old(self)@, bill_name@),
    {
        proof {
            use_type_invariant(&*self);
        }
        let ghost records = records_of(self.inner@);
        match self.position(bill_name) {
            Some(i) => {
                proof {
                    lemma_ledger_entry(records, i as int);
                    lemma_ledger_remove(records, i as int);
                }
                let mut inner = self.take_inner();
                let _ = inner.remove(i);
                assert(records_of(inner@) =~= records.remove(i as int));
                self.inner = inner;
                true
            },
            None => {
                proof {
                    lemma_ledger_absent(records, bill_name@);
                    assert(self@ =~= self@.remove(bill_name@));
                }
                false
            },
        }
    }

    /// Replaces the amount of the bill of the given name and tells whether
    /// there was one. Without such a bill the store is left as it is.
    pub fn update(&mut self, bill_name: &str, amount: u64) -> (found: bool)
        ensures
            found == old(self)@.contains_key(bill_name@),
            final(self)@ == after_update(old(self)@, bill_name@, amount),
    {
        proof {
            use_type_invariant(&*self);
        }
        let ghost records = records_of(self.inner@);
        match self.position(bill_name) {
            Some(i) => {
                let ghost record = BillView { name: bill_name@, amount };
                proof {
                    lemma_ledger_entry(records, i as int);
                    lemma_ledger_replace(records, i as int, record);
                }
                let mut inner = self.take_inner();
                inner[i].set_amount(amount);
                assert(records_of(inner@) =~= records.update(i as int, record));
                self.inner = inner;
                true
            },
            None => {
                proof {
                    lemma_ledger_absent(records, bill_name@);
                }
                false
            },
        }
    }

    /// Moves the bills out and leaves the store empty, so that they can be
    /// changed and put back.
    fn take_inner(&mut self) -> (inner: Vec<Bill>)
        ensures
            inner == old(self).inner,
            final(self).inner@.len() == 0,
    {
        let mut inner: Vec<Bill> = Vec::new();
        std::mem::swap(&mut inner, &mut self.inner);
        inner
    }

    /// Where the bill of the given name sits, if the store has one.
    fn position(&self, name: &str) -> (found: Option<usize>)
        ensures
            match found {
                Some(i) => i < self.inner.len() && self.inner@[i as int]@.name == name@,
                None => forall|j: int| 0 <= j < self.inner.len() ==> self.inner@[j]@.name != name@,
            },
    {
        let mut i: usize = 0;
        while i < self.inner.len()
            invariant
                i <= self.inner.len(),
                forall|j: int| 0 <= j < i ==> self.inner@[j]@.name != name@,
            decreases self.inner.len() - i,
        {
            if same_text(self.inner[i].name(), name) {
                return Some(i);
            }
            i += 1;
        }
        None
    }
}

/// A listing determines the ledger it lists.
pub proof fn lemma_listing_determines_ledger(
    records: Seq<BillView>,
    a: Map<Seq<char>, u64>,
    b: Map<Seq<char>, u64>,
)
    requires
        lists(records, a),
        lists(records, b),
    ensures
        a == b,
{
    assert forall|name: Seq<char>| a.contains_key(name) implies b.contains_key(name) && b[name]
        == a[name] by {
        let i = choose|i: int| 0 <= i < records.len() && (#[trigger] records[i]).name == name;
        assert(a.contains_pair(records[i].name, records[i].amount));
        assert(b.contains_pair(records[i].name, records[i].amount));
    }
    assert forall|name: Seq<char>| b.contains_key(name) implies a.contains_key(name) by {
        let i = choose|i: int| 0 <= i < records.len() && (#[trigger] records[i]).name == name;
        assert(a.contains_pair(records[i].name, records[i].amount));
    }
    assert(a =~= b);
}

/// A listing shows as many records as the ledger has names, and a ledger
/// that has a listing is finite.
pub proof fn lemma_listing_counts(records: Seq<BillView>, ledger: Map<Seq<char>, u64>)
    requires
        lists(records, ledger),
    ensures
        ledger.dom().finite(),
        ledger.dom().len() == records.len(),
    decreases records.len(),
{
    if records.len() == 0 {
        assert(ledger.dom() =~= Set::<Seq<char>>::empty());
    } else {
        let last = records.last();
        let rest = records.drop_last();
        let fewer = ledger.remove(last.name);
        assert(ledger.contains_pair(last.name, last.amount));
        assert forall|i: int| 0 <= i < rest.len() implies fewer.contains_pair(
            (#[trigger] rest[i]).name,
            rest[i].amount,
        ) by {
            assert(rest[i] == records[i]);
            assert(records[i].name != records[records.len() - 1].name);
        }
        assert forall|name: Seq<char>| #[trigger] fewer.contains_key(name) implies exists|i: int|
            0 <= i < rest.len() && (#[trigger] rest[i]).name == name by {
            let k = choose|k: int| 0 <= k < records.len() && (#[trigger] records[k]).name == name;
            assert(rest[k] == records[k]);
        }
        assert(distinct_names(rest)) by {
            assert forall|i: int, j: int| 0 <= i < j < rest.len() implies rest[i].name
                != rest[j].name by {
                assert(rest[i] == records[i] && rest[j] == records[j]);
            }
        }
        lemma_listing_counts(rest, fewer);
        assert(ledger.dom() =~= fewer.dom().insert(last.name));
    }
}

/// Adding a bill to an empty store and listing it yields that bill alone.
pub proof fn lemma_first_bill_listed_alone(bill: BillView, records: Seq<BillView>)
    requires
        lists(records, after_add(Map::empty(), bill)),
    ensures
        records == seq![bill],
{
    let ledger = after_add(Map::empty(), bill);
    assert(ledger.contains_key(bill.name));
    let k = choose|k: int| 0 <= k < records.len() && (#[trigger] records[k]).name == bill.name;
    assert forall|i: int| 0 <= i < records.len() implies (#[trigger] records[i]) == bill by {
        assert(ledger.contains_pair(records[i].name, records[i].amount));
    }
    if records.len() > 1 {
        assert(records[0].name != records[1].name);
    }
    assert(records =~= seq![bill]);
}

/// Adding two bills of one name keeps the later amount only: the store is
/// as if the earlier bill had never been added, and a listing shows the
/// name once, with the later amount.
pub proof fn lemma_add_overwrites(
    ledger: Map<Seq<char>, u64>,
    name: Seq<char>,
    earlier: u64,
    later: u64,
    records: Seq<BillView>,
)
    requires
        lists(
            records,
            after_add(
                after_add(ledger, BillView { name, amount: earlier }),
                BillView { name, amount: later },
            ),
        ),
    ensures
        after_add(
            after_add(ledger, BillView { name, amount: earlier }),
            BillView { name, amount: later },
        ) == after_add(ledger, BillView { name, amount: later }),
        exists|i: int|
            0 <= i < records.len() && #[trigger] records[i] == (BillView { name, amount: later }),
        forall|i: int|
            0 <= i < records.len() && (#[trigger] records[i]).name == name ==> records[i].amount
                == later,
{
    let twice = after_add(
        after_add(ledger, BillView { name, amount: earlier }),
        BillView { name, amount: later },
    );
    assert(twice =~= after_add(ledger, BillView { name, amount: later }));
    assert(twice.contains_key(name));
    let k = choose|k: int| 0 <= k < records.len() && (#[trigger] records[k]).name == name;
    assert(twice.contains_pair(records[k].name, records[k].amount));
    assert(records[k] == (BillView { name, amount: later }));
    assert forall|i: int| 0 <= i < records.len() && (#[trigger] records[i]).name
        == name implies records[i].amount == later by {
        assert(twice.contains_pair(records[i].name, records[i].amount));
    }
}

/// Removing a name that is absent changes nothing; after removing any name,
/// present or not, no listing of the store shows it, and every other entry
/// stays as it was.
pub proof fn lemma_remove_omits(
    ledger: Map<Seq<char>, u64>,
    name: Seq<char>,
    records: Seq<BillView>,
)
    requires
        lists(records, after_remove(ledger, name)),
    ensures
        !ledger.contains_key(name) ==> after_remove(ledger, name) == ledger,
        !after_remove(ledger, name).contains_key(name),
        forall|i: int| 0 <= i < records.len() ==> (#[trigger] records[i]).name != name,
        forall|other: Seq<char>|
            other != name ==> (after_remove(ledger, name).contains_key(other)
                <==> ledger.contains_key(other)) && after_remove(ledger, name)[other]
                == ledger[other],
{
    let left = after_remove(ledger, name);
    if !ledger.contains_key(name) {
        assert(left =~= ledger);
    }
    assert forall|i: int| 0 <= i < records.len() implies (#[trigger] records[i]).name
        != name by {
        assert(left.contains_pair(records[i].name, records[i].amount));
    }
}

/// Updating a name that is present changes the amount under that name and
/// nothing else: the same names stay, each other name keeps its amount.
/// Updating a name that is absent leaves the store as it was.
pub proof fn lemma_update_touches_one(ledger: Map<Seq<char>, u64>, name: Seq<char>, amount: u64)
    ensures
        after_update(ledger, name, amount).dom() == ledger.dom(),
        ledger.contains_key(name) ==> after_update(ledger, name, amount)[name] == amount,
        forall|other: Seq<char>|
            other != name ==> after_update(ledger, name, amount)[other] == ledger[other],
        !ledger.contains_key(name) ==> after_update(ledger, name, amount) == ledger,
{
    assert(after_update(ledger, name, amount).dom() =~= ledger.dom());
}

/// The records of a sequence of bills, in the same order.
spec fn records_of(bills: Seq<Bill>) -> Seq<BillView> {
    bills.map_values(|bill: Bill| bill@)
}

/// Whether some record carries the name.
spec fn holds(records: Seq<BillView>, name: Seq<char>) -> bool {
    exists|i: int| 0 <= i < records.len() && (#[trigger] records[i]).name == name
}

/// The place of a record that carries the name, where there is one.
spec fn slot(records: Seq<BillView>, name: Seq<char>) -> int {
    choose|i: int| 0 <= i < records.len() && (#[trigger] records[i]).name == name
}

/// The ledger that a sequence of records stands for: under each name
/// the amount of a record that carries it.
spec fn ledger_of(records: Seq<BillView>) -> Map<Seq<char>, u64> {
    Map::new(
        |name: Seq<char>| holds(records, name),
        |name: Seq<char>| records[slot(records, name)].amount,
    )
}

/// With distinct names, each record is found at its own place and is an
/// entry of the ledger.
proof fn lemma_ledger_entry(records: Seq<BillView>, i: int)
    requires
        distinct_names(records),
        0 <= i < records.len(),
    ensures
        holds(records, records[i].name),
        slot(records, records[i].name) == i,
        ledger_of(records).contains_pair(records[i].name, records[i].amount),
{
    let name = records[i].name;
    assert(holds(records, name));
    let k = slot(records, name);
    assert(0 <= k < records.len() && records[k].name == name);
    if k < i {
        assert(records[k].name != records[i].name);
    } else if i < k {
        assert(records[i].name != records[k].name);
    }
}

/// Records with distinct names are a listing of their ledger.
proof fn lemma_ledger_listed(records: Seq<BillView>)
    requires
        distinct_names(records),
    ensures
        lists(records, ledger_of(records)),
{
    assert forall|i: int| 0 <= i < records.len() implies ledger_of(records).contains_pair(
        (#[trigger] records[i]).name,
        records[i].amount,
    ) by {
        lemma_ledger_entry(records, i);
    }
}

/// A name that no record carries is not in the ledger.
proof fn lemma_ledger_absent(records: Seq<BillView>, name: Seq<char>)
    requires
        forall|j: int| 0 <= j < records.len() ==> (#[trigger] records[j]).name != name,
    ensures
        !ledger_of(records).contains_key(name),
{
}

/// Appending a record of a new name adds its entry to the ledger.
proof fn lemma_ledger_push(records: Seq<BillView>, record: BillView)
    requires
        distinct_names(records),
        forall|j: int| 0 <= j < records.len() ==> (#[trigger] records[j]).name != record.name,
    ensures
        distinct_names(records.push(record)),
        ledger_of(records.push(record)) == ledger_of(records).insert(record.name, record.amount),
{
    let grown = records.push(record);
    let ledger = ledger_of(records).insert(record.name, record.amount);
    lemma_ledger_listed(records);
    assert(distinct_names(grown));
    assert forall|i: int| 0 <= i < grown.len() implies ledger.contains_pair(
        (#[trigger] grown[i]).name,
        grown[i].amount,
    ) by {
        if i < records.len() {
            assert(grown[i] == records[i]);
        }
    }
    assert forall|name: Seq<char>| #[trigger] ledger.contains_key(name) implies exists|i: int|
        0 <= i < grown.len() && (#[trigger] grown[i]).name == name by {
        if name == record.name {
            assert(grown[records.len() as int].name == name);
        } else {
            let i = choose|i: int| 0 <= i < records.len() && (#[trigger] records[i]).name == name;
            assert(grown[i].name == name);
        }
    }
    lemma_ledger_listed(grown);
    lemma_listing_determines_ledger(grown, ledger_of(grown), ledger);
}

/// Replacing a record by one of the same name puts the new amount under
/// that name.
proof fn lemma_ledger_replace(records: Seq<BillView>, at: int, record: BillView)
    requires
        distinct_names(records),
        0 <= at < records.len(),
        records[at].name == record.name,
    ensures
        distinct_names(records.update(at, record)),
        ledger_of(records.update(at, record)) == ledger_of(records).insert(
            record.name,
            record.amount,
        ),
{
    let changed = records.update(at, record);
    let ledger = ledger_of(records).insert(record.name, record.amount);
    lemma_ledger_listed(records);
    assert forall|i: int, j: int| 0 <= i < j < changed.len() implies changed[i].name
        != changed[j].name by {
        assert(changed[i].name == records[i].name);
        assert(changed[j].name == records[j].name);
    }
    assert forall|i: int| 0 <= i < changed.len() implies ledger.contains_pair(
        (#[trigger] changed[i]).name,
        changed[i].amount,
    ) by {
        if i != at {
            assert(changed[i] == records[i]);
            if i < at {
                assert(records[i].name != records[at].name);
            } else {
                assert(records[at].name != records[i].name);
            }
        }
    }
    assert forall|name: Seq<char>| #[trigger] ledger.contains_key(name) implies exists|i: int|
        0 <= i < changed.len() && (#[trigger] changed[i]).name == name by {
        if name == record.name {
            assert(changed[at].name == name);
        } else {
            let i = choose|i: int| 0 <= i < records.len() && (#[trigger] records[i]).name == name;
            assert(changed[i].name == name);
        }
    }
    lemma_ledger_listed(changed);
    lemma_listing_determines_ledger(changed, ledger_of(changed), ledger);
}

/// Taking a record out removes its name from the ledger.
proof fn lemma_ledger_remove(records: Seq<BillView>, at: int)
    requires
        distinct_names(records),
        0 <= at < records.len(),
    ensures
        distinct_names(records.remove(at)),
        ledger_of(records.remove(at)) == ledger_of(records).remove(records[at].name),
{
    let left = records.remove(at);
    let gone = records[at].name;
    let ledger = ledger_of(records).remove(gone);
    lemma_ledger_listed(records);
    assert forall|i: int| 0 <= i < left.len() implies (#[trigger] left[i]) == records[if i
        < at {
        i
    } else {
        i + 1
    }] && left[i].name != gone by {
        if i < at {
            assert(records[i].name != records[at].name);
        } else {
            assert(records[at].name != records[i + 1].name);
        }
    }
    assert forall|i: int, j: int| 0 <= i < j < left.len() implies left[i].name
        != left[j].name by {
        let a = if i < at { i } else { i + 1 };
        let b = if j < at { j } else { j + 1 };
        assert(left[i] == records[a]);
        assert(left[j] == records[b]);
        assert(records[a].name != records[b].name);
    }
    assert forall|i: int| 0 <= i < left.len() implies ledger.contains_pair(
        (#[trigger] left[i]).name,
        left[i].amount,
    ) by {
        let a = if i < at { i } else { i + 1 };
        assert(left[i] == records[a]);
    }
    assert forall|name: Seq<char>| #[trigger] ledger.contains_key(name) implies exists|i: int|
        0 <= i < left.len() && (#[trigger] left[i]).name == name by {
        let k = choose|k: int| 0 <= k < records.len() && (#[trigger] records[k]).name == name;
        assert(k != at);
        let i = if k < at { k } else { k - 1 };
        assert(left[i] == records[k]);
    }
    lemma_ledger_listed(left);
    lemma_listing_determines_ledger(left, ledger_of(left), ledger);
}

} // verus!
