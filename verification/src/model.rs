//! The contents of a safe as the views read them: records of plain text
//! fields, grouped by name.

use rs_pwsafe::pwserrors::PwSafeError;
use vstd::prelude::*;
use crate::contracts::{classify, TuiPwSafeErrors};
use crate::text::{str_eq, views};

verus! {

/// One record of the safe as character sequences.
pub struct EntryView {
    pub group: Option<Seq<char>>,
    pub title: Option<Seq<char>>,
    pub username: Option<Seq<char>>,
    pub password: Option<Seq<char>>,
}

/// One record of the safe. Every field may be missing.
#[derive(Debug)]
pub struct Entry {
    pub group: Option<String>,
    pub title: Option<String>,
    pub username: Option<String>,
    pub password: Option<String>,
}

/// An optional string as an optional character sequence.
pub open spec fn text_of(field: Option<String>) -> Option<Seq<char>> {
    match field {
        Some(s) => Some(s@),
        None => None,
    }
}

/// A copy of an optional string.
pub fn copy_text(field: &Option<String>) -> (copy: Option<String>)
    ensures
        text_of(copy) == text_of(*field),
{
    match field {
        Some(s) => Some(s.clone()),
        None => None,
    }
}

impl View for Entry {
    type V = EntryView;

    open spec fn view(&self) -> EntryView {
        EntryView {
            group: text_of(self.group),
            title: text_of(self.title),
            username: text_of(self.username),
            password: text_of(self.password),
        }
    }
}

impl Entry {
    /// A copy of this record.
    pub fn duplicate(&self) -> (copy: Entry)
        ensures
            copy@ == self@,
    {
        Entry {
            group: copy_text(&self.group),
            title: copy_text(&self.title),
            username: copy_text(&self.username),
            password: copy_text(&self.password),
        }
    }
}

/// The records of `records` as character sequences.
pub open spec fn entry_views(records: Seq<Entry>) -> Seq<EntryView> {
    Seq::new(records.len(), |i: int| records[i]@)
}

/// The records that belong to the group `name`, in the order of the safe.
pub open spec fn entries_in_group(records: Seq<EntryView>, name: Seq<char>) -> Seq<EntryView> {
    records.filter(|e: EntryView| e.group == Some(name))
}

/// `name` is the group of some record.
pub open spec fn is_group(records: Seq<EntryView>, name: Seq<char>) -> bool {
    exists|i: int| 0 <= i < records.len() && (#[trigger] records[i]).group == Some(name)
}

/// The names of the groups of `records`, each once, in the order in which
/// the records first mention them.
pub open spec fn group_names(records: Seq<EntryView>) -> Seq<Seq<char>>
    decreases records.len(),
{
    if records.len() == 0 {
        Seq::empty()
    } else {
        let prior = group_names(records.drop_last());
        match records.last().group {
            Some(name) => if prior.contains(name) {
                prior
            } else {
                prior.push(name)
            },
            None => prior,
        }
    }
}

/// The group names hold every group of the records, and each once.
pub proof fn lemma_group_names(records: Seq<EntryView>)
    ensures
        distinct(group_names(records)),
        forall|name: Seq<char>|
            #![trigger group_names(records).contains(name)]
            #![trigger is_group(records, name)]
            group_names(records).contains(name) <==> is_group(records, name),
    decreases records.len(),
{
    let names = group_names(records);
    if records.len() > 0 {
        let front = records.drop_last();
        let prior = group_names(front);
        lemma_group_names(front);
        assert forall|name: Seq<char>| names.contains(name) implies is_group(records, name) by {
            if prior.contains(name) {
                assert(group_names(front).contains(name));
                assert(is_group(front, name));
                let j = choose|j: int| 0 <= j < front.len() && (#[trigger] front[j]).group == Some(
                    name,
                );
                assert(records[j].group == Some(name));
            } else {
                let j = choose|j: int| 0 <= j < names.len() && names[j] == name;
                assert(j == prior.len());
                assert(records[records.len() - 1].group == Some(name));
            }
        }
        assert forall|name: Seq<char>| is_group(records, name) implies names.contains(name) by {
            let j = choose|j: int| 0 <= j < records.len() && (#[trigger] records[j]).group
                == Some(name);
            if j < front.len() {
                assert(front[j].group == Some(name));
                assert(is_group(front, name));
                assert(group_names(front).contains(name));
                let m = choose|m: int| 0 <= m < prior.len() && prior[m] == name;
                assert(names[m] == name);
            } else {
                if prior.contains(name) {
                    let m = choose|m: int| 0 <= m < prior.len() && prior[m] == name;
                    assert(names[m] == name);
                } else {
                    assert(names[prior.len() as int] == name);
                }
            }
        }
        assert forall|i: int, j: int| 0 <= i < j < names.len() implies names[i] != names[j] by {
            if j == prior.len() {
                assert(prior[i] == names[i]);
            }
        }
    }
}

/// No name occurs twice.
pub open spec fn distinct(names: Seq<Seq<char>>) -> bool {
    forall|i: int, j: int| 0 <= i < j < names.len() ==> names[i] != names[j]
}

/// Filtering a sequence that ends in `last` filters what comes before and
/// then keeps or drops `last`.
pub proof fn lemma_filter_push<A>(s: Seq<A>, last: A, pred: spec_fn(A) -> bool)
    ensures
        s.push(last).filter(pred) == if pred(last) {
            s.filter(pred).push(last)
        } else {
            s.filter(pred)
        },
{
    reveal(Seq::filter);
    assert(s.push(last).drop_last() =~= s);
}

/// The decrypted records of a safe. It is empty until the safe is unlocked.
pub struct SafeModel {
    records: Vec<Entry>,
}

impl View for SafeModel {
    type V = Seq<EntryView>;

    closed spec fn view(&self) -> Seq<EntryView> {
        entry_views(self.records@)
    }
}

impl SafeModel {
    /// The model of a safe that is still locked: it shows no record.
    pub fn new() -> (model: SafeModel)
        ensures
            model@ == Seq::<EntryView>::empty(),
    {
        let model = SafeModel { records: Vec::new() };
        assert(model@ =~= Seq::<EntryView>::empty());
        model
    }

    /// Takes what an attempt to unlock the safe gave: its records, or the
    /// failure of the safe engine. The records replace what the model held; a
    /// failure leaves the model as it was and is handed on under its own name
    /// among the failures of the views.
    pub fn unlock(&mut self, outcome: Result<Vec<Entry>, PwSafeError>) -> (r: Result<
        (),
        TuiPwSafeErrors,
    >)
        ensures
            match outcome {
                Ok(records) => r is Ok && final(self)@ == entry_views(records@),
                Err(e) => r == Err::<(), TuiPwSafeErrors>(classify(e)) && final(self)@ == old(
                    self,
                )@,
            },
    {
        match outcome {
            Ok(records) => {
                self.records = records;
                Ok(())
            },
            Err(e) => Err(TuiPwSafeErrors::from(e)),
        }
    }

    /// The model of an unlocked safe with the records given.
    pub fn with_records(records: Vec<Entry>) -> (model: SafeModel)
        ensures
            model@ == entry_views(records@),
    {
        SafeModel { records }
    }

    /// Number of records.
    pub fn len(&self) -> (n: usize)
        ensures
            n == self@.len(),
    {
        self.records.len()
    }

    /// The records of the group `name`, in the order of the safe.
    pub fn by_group_name(&self, name: &str) -> (found: Vec<Entry>)
        ensures
            entry_views(found@) == entries_in_group(self@, name@),
    {
        let ghost pred = |e: EntryView| e.group == Some(name@);
        let mut found: Vec<Entry> = Vec::new();
        let mut i: usize = 0;
        assert(self@.take(0) =~= Seq::<EntryView>::empty());
        assert(entry_views(found@) =~= Seq::<EntryView>::empty());
        while i < self.records.len()
            invariant
                i <= self.records.len(),
                pred == (|e: EntryView| e.group == Some(name@)),
                entry_views(found@) == self@.take(i as int).filter(pred),
            decreases self.records.len() - i,
        {
            let record = &self.records[i];
            let ghost before = entry_views(found@);
            proof {
                lemma_filter_push(self@.take(i as int), record@, pred);
                assert(self@.take(i as int).push(record@) =~= self@.take(i + 1));
            }
            let hit = match &record.group {
                Some(g) => str_eq(g.as_str(), name),
                None => false,
            };
            assert(hit == pred(record@));
            assert(self@[i as int] == record@);
            if hit {
                found.push(record.duplicate());
                assert(entry_views(found@) =~= before.push(record@));
            }
            i += 1;
        }
        assert(self@.take(i as int) =~= self@);
        found
    }

    /// The names of the groups, each once, in the order in which the safe
    /// first mentions them.
    pub fn groups(&self) -> (names: Vec<String>)
        ensures
            views(names@) == group_names(self@),
    {
        let mut names: Vec<String> = Vec::new();
        let mut i: usize = 0;
        assert(self@.take(0) =~= Seq::<EntryView>::empty());
        assert(views(names@) =~= group_names(self@.take(0)));
        while i < self.records.len()
            invariant
                i <= self.records.len(),
                views(names@) == group_names(self@.take(i as int)),
            decreases self.records.len() - i,
        {
            let ghost before = views(names@);
            assert(self@.take(i + 1).drop_last() =~= self@.take(i as int));
            assert(self@.take(i + 1).last() == self.records[i as int]@);
            match &self.records[i].group {
                Some(g) => {
                    let mut k: usize = 0;
                    let mut known = false;
                    while k < names.len()
                        invariant
                            k <= names.len(),
                            known == exists|j: int| 0 <= j < k && views(names@)[j] == g@,
                        decreases names.len() - k,
                    {
                        if str_eq(names[k].as_str(), g.as_str()) {
                            known = true;
                            assert(views(names@)[k as int] == g@);
                        }
                        k += 1;
                    }
                    assert(known == before.contains(g@));
                    if !known {
                        names.push(g.clone());
                        assert(views(names@) =~= before.push(g@));
                    }
                },
                None => {},
            }
            i += 1;
        }
        assert(self@.take(i as int) =~= self@);
        names
    }
}

} // verus!
