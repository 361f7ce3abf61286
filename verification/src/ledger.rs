//! What the host read of a campaign's ledger.
use vstd::prelude::*;

verus! {

/// What is known of the spending of a hold.
#[derive(Clone, Copy, Debug, PartialEq, Eq, Structural)]
pub enum Usage {
    /// Nothing final: the whole hold may have been spent.
    Unknown,
    /// The final amount.
    Final(crate::model::Units),
}

/// Allowance that is held for one request.
#[derive(Debug)]
pub struct Hold {
    /// The allocation that the hold is taken from, if it is taken from one.
    pub allocation: Option<String>,
    pub usage: Usage,
    pub cancellation_requested: bool,
}

/// A campaign's ledger: its holds by receipt, and its allocations by id, each
/// with whether it was closed. Neither list names anything twice.
#[derive(Debug)]
pub struct Ledger {
    reservations: Vec<(String, Hold)>,
    allocations: Vec<(String, bool)>,
    admissions_paused: bool,
}

/// What a ledger says.
#[verifier::ext_equal]
pub struct LedgerView {
    pub reservations: Map<Seq<char>, Hold>,
    pub allocations: Map<Seq<char>, bool>,
    pub admissions_paused: bool,
}

/// No key occurs twice.
pub open spec fn distinct_keys<V>(entries: Seq<(String, V)>) -> bool {
    forall|i: int, j: int|
        0 <= i < j < entries.len() ==> (#[trigger] entries[i]).0@ != (#[trigger] entries[j]).0@
}

/// What some entries say together: the last one of a key counts.
pub open spec fn collected<V>(entries: Seq<(String, V)>) -> Map<Seq<char>, V>
    decreases entries.len(),
{
    if entries.len() == 0 {
        Map::empty()
    } else {
        collected(entries.drop_last()).insert(entries.last().0@, entries.last().1)
    }
}

/// The value of a key, if it has one.
pub open spec fn lookup<V>(entries: Map<Seq<char>, V>, key: Seq<char>) -> Option<V> {
    if entries.dom().contains(key) {
        Some(entries[key])
    } else {
        None
    }
}

/// A key has a value exactly where there is an entry of it; where no key occurs
/// twice, the value is that of the entry.
pub proof fn lookup_finds_the_entry<V>(entries: Seq<(String, V)>)
    ensures
        forall|i: int|
            0 <= i < entries.len() ==> collected(entries).dom().contains((#[trigger] entries[i]).0@),
        forall|key: Seq<char>| #[trigger]
            collected(entries).dom().contains(key) ==> exists|i: int|
                0 <= i < entries.len() && (#[trigger] entries[i]).0@ == key,
        distinct_keys(entries) ==> forall|i: int|
            0 <= i < entries.len() ==> collected(entries)[(#[trigger] entries[i]).0@]
                == entries[i].1,
    decreases entries.len(),
{
    if entries.len() > 0 {
        let fewer = entries.drop_last();
        lookup_finds_the_entry(fewer);
        assert forall|i: int| 0 <= i < entries.len() implies collected(entries).dom().contains(
            (#[trigger] entries[i]).0@,
        ) by {
            if i < fewer.len() {
                assert(fewer[i] == entries[i]);
            }
        }
        assert forall|key: Seq<char>| #[trigger]
            collected(entries).dom().contains(key) implies exists|i: int|
            0 <= i < entries.len() && (#[trigger] entries[i]).0@ == key by {
            if key == entries.last().0@ {
                assert(entries[entries.len() - 1].0@ == key);
            } else {
                assert(collected(fewer).dom().contains(key));
                let i = choose|i: int| 0 <= i < fewer.len() && (#[trigger] fewer[i]).0@ == key;
                assert(entries[i].0@ == key);
            }
        }
        if distinct_keys(entries) {
            assert forall|i: int, j: int| 0 <= i < j < fewer.len() implies (#[trigger] fewer[i]).0@
                != (#[trigger] fewer[j]).0@ by {
                assert(entries[i].0@ != entries[j].0@);
            }
            assert forall|i: int| 0 <= i < entries.len() implies collected(entries)[(
            #[trigger] entries[i]).0@] == entries[i].1 by {
                if i < fewer.len() {
                    assert(fewer[i] == entries[i]);
                    assert(entries[i].0@ != entries[entries.len() - 1].0@);
                }
            }
        }
    }
}

/// Where an entry of a key stands, if there is one.
fn position<V>(entries: &Vec<(String, V)>, key: &String) -> (res: Option<usize>)
    ensures
        match res {
            Some(at) => at < entries@.len() && entries@[at as int].0@ == key@,
            None => forall|i: int| 0 <= i < entries@.len() ==> (#[trigger] entries@[i]).0@ != key@,
        },
{
    let mut i: usize = 0;
    while i < entries.len()
        invariant
            i <= entries.len(),
            forall|j: int| 0 <= j < i ==> (#[trigger] entries@[j]).0@ != key@,
        decreases entries.len() - i,
    {
        if entries[i].0 == *key {
            return Some(i);
        }
        i = i + 1;
    }
    None
}

/// Put an entry among others, in the place of the one with its key if there is
/// one.
fn put<V>(entries: &mut Vec<(String, V)>, entry: (String, V))
    requires
        distinct_keys(old(entries)@),
    ensures
        distinct_keys(final(entries)@),
        collected(final(entries)@) == collected(old(entries)@).insert(entry.0@, entry.1),
{
    let ghost before = entries@;
    match position(entries, &entry.0) {
        Some(at) => {
            entries.set(at, entry);
            proof {
                let after = entries@;
                assert(after == before.update(at as int, entry));
                lookup_finds_the_entry(before);
                lookup_finds_the_entry(after);
                assert(before[at as int].0@ == entry.0@);
                assert forall|i: int, j: int| 0 <= i < j < after.len() implies (
                #[trigger] after[i]).0@ != (#[trigger] after[j]).0@ by {
                    assert(before[i].0@ != before[j].0@);
                }
                let expected = collected(before).insert(entry.0@, entry.1);
                assert forall|key: Seq<char>| #[trigger]
                    collected(after).dom().contains(key) implies expected.dom().contains(key)
                    && collected(after)[key] == expected[key] by {
                    let i = choose|i: int| 0 <= i < after.len() && (#[trigger] after[i]).0@ == key;
                    assert(before[i].0@ == key);
                    assert(collected(after)[after[i].0@] == after[i].1);
                    assert(collected(before)[before[i].0@] == before[i].1);
                    if key == entry.0@ {
                        assert(i == at);
                    }
                }
                assert forall|key: Seq<char>| #[trigger]
                    expected.dom().contains(key) implies collected(after).dom().contains(key) by {
                    assert(after[at as int].0@ == entry.0@);
                    if key != entry.0@ {
                        assert(collected(before).dom().contains(key));
                        let i = choose|i: int|
                            0 <= i < before.len() && (#[trigger] before[i]).0@ == key;
                        assert(after[i].0@ == key);
                    }
                }
                assert(collected(after) =~= expected);
            }
        },
        None => {
            entries.push(entry);
            proof {
                assert(entries@.drop_last() == before);
                assert forall|i: int, j: int| 0 <= i < j < entries@.len() implies (
                #[trigger] entries@[i]).0@ != (#[trigger] entries@[j]).0@ by {
                    assert(entries@[i] == before[i]);
                }
            }
        },
    }
}

/// Some entries without those that a later one of the same key takes the place
/// of.
fn collect<V>(entries: Vec<(String, V)>) -> (res: Vec<(String, V)>)
    ensures
        distinct_keys(res@),
        collected(res@) == collected(entries@),
{
    let ghost all = entries@;
    let mut kept: Vec<(String, V)> = Vec::new();
    for entry in iter: entries
        invariant
            iter.seq() == all,
            distinct_keys(kept@),
            collected(kept@) == collected(all.take(iter.index())),
    {
        assert(all.take(iter.index() + 1).drop_last() == all.take(iter.index()));
        put(&mut kept, entry);
    }
    assert(all.take(all.len() as int) == all);
    kept
}

/// The value of a key.
fn find<'a, V>(entries: &'a Vec<(String, V)>, key: &String) -> (res: Option<&'a V>)
    requires
        distinct_keys(entries@),
    ensures
        match res {
            Some(value) => lookup(collected(entries@), key@) == Some(*value),
            None => lookup(collected(entries@), key@) is None,
        },
{
    proof {
        lookup_finds_the_entry(entries@);
    }
    match position(entries, key) {
        Some(at) => Some(&entries[at].1),
        None => None,
    }
}

/// Whether a hold is one of an allocation, and not final yet.
pub open spec fn open_hold(hold: Hold, dispatch_id: Seq<char>) -> bool {
    &&& hold.allocation matches Some(allocation)
    &&& allocation@ == dispatch_id
    &&& !(hold.usage is Final)
}

impl LedgerView {
    /// The hold of a receipt.
    pub open spec fn hold(self, receipt: Seq<char>) -> Option<Hold> {
        lookup(self.reservations, receipt)
    }

    /// Whether an allocation was closed, where there is one of that id.
    pub open spec fn allocation(self, dispatch_id: Seq<char>) -> Option<bool> {
        lookup(self.allocations, dispatch_id)
    }

    /// Whether any hold of an allocation is not final yet.
    pub open spec fn accounting_open(self, dispatch_id: Seq<char>) -> bool {
        exists|receipt: Seq<char>| #[trigger]
            self.reservations.dom().contains(receipt) && open_hold(
                self.reservations[receipt],
                dispatch_id,
            )
    }
}

impl View for Ledger {
    type V = LedgerView;

    closed spec fn view(&self) -> LedgerView {
        LedgerView {
            reservations: collected(self.reservations@),
            allocations: collected(self.allocations@),
            admissions_paused: self.admissions_paused,
        }
    }
}

impl Ledger {
    #[verifier::type_invariant]
    spec fn names_nothing_twice(self) -> bool {
        distinct_keys(self.reservations@) && distinct_keys(self.allocations@)
    }

    /// A ledger of some holds and allocations. Of several with one receipt or id
    /// the last counts.
    pub fn new(
        reservations: Vec<(String, Hold)>,
        allocations: Vec<(String, bool)>,
        admissions_paused: bool,
    ) -> (res: Ledger)
        ensures
            res@ == (LedgerView {
                reservations: collected(reservations@),
                allocations: collected(allocations@),
                admissions_paused,
            }),
    {
        Ledger {
            reservations: collect(reservations),
            allocations: collect(allocations),
            admissions_paused,
        }
    }

    /// The hold of a receipt.
    pub fn hold(&self, receipt: &String) -> (res: Option<&Hold>)
        ensures
            match res {
                Some(hold) => self@.hold(receipt@) == Some(*hold),
                None => self@.hold(receipt@) is None,
            },
    {
        proof {
            use_type_invariant(self);
        }
        find(&self.reservations, receipt)
    }

    /// Whether an allocation was closed, where there is one of that id.
    pub fn allocation(&self, dispatch_id: &String) -> (res: Option<bool>)
        ensures
            res == self@.allocation(dispatch_id@),
    {
        proof {
            use_type_invariant(self);
        }
        match find(&self.allocations, dispatch_id) {
            Some(closed) => Some(*closed),
            None => None,
        }
    }

    /// Whether the campaign admits nothing for now.
    pub fn admissions_paused(&self) -> (res: bool)
        ensures
            res == self@.admissions_paused,
    {
        self.admissions_paused
    }

    /// Whether any hold of an allocation is not final yet.
    pub fn accounting_open(&self, dispatch_id: &String) -> (res: bool)
        ensures
            res == self@.accounting_open(dispatch_id@),
    {
        proof {
            use_type_invariant(self);
            lookup_finds_the_entry(self.reservations@);
        }
        let mut i: usize = 0;
        while i < self.reservations.len()
            invariant
                i <= self.reservations.len(),
                forall|j: int|
                    0 <= j < i ==> !open_hold(
                        (#[trigger] self.reservations@[j]).1,
                        dispatch_id@,
                    ),
                forall|j: int|
                    0 <= j < self.reservations@.len() ==> self@.reservations.dom().contains(
                        (#[trigger] self.reservations@[j]).0@,
                    ) && self@.reservations[self.reservations@[j].0@] == self.reservations@[j].1,
            decreases self.reservations.len() - i,
        {
            let hold = &self.reservations[i].1;
            let own = match &hold.allocation {
                Some(allocation) => *allocation == *dispatch_id,
                None => false,
            };
            if own && !matches!(hold.usage, Usage::Final(_)) {
                assert(self@.reservations.dom().contains(self.reservations@[i as int].0@));
                return true;
            }
            i = i + 1;
        }
        assert forall|receipt: Seq<char>| #[trigger]
            self@.reservations.dom().contains(receipt) implies !open_hold(
            self@.reservations[receipt],
            dispatch_id@,
        ) by {
            assert(collected(self.reservations@).dom().contains(receipt));
            let j = choose|j: int|
                0 <= j < self.reservations@.len() && (#[trigger] self.reservations@[j]).0@
                    == receipt;
            assert(!open_hold(self.reservations@[j].1, dispatch_id@));
        }
        false
    }
}

} // verus!
