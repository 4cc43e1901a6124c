//! Payload records, the sets that hold them and the diffs between sets.

use std::sync::Arc;
use vstd::prelude::*;

verus! {

/// An IPv4 route origin: the prefix as a number, its length, the longest
/// more specific prefix covered and the origin AS.
#[derive(Clone, Copy, Debug, PartialEq, Eq, Structural, Hash)]
pub struct Ipv4Prefix {
    pub prefix: u32,
    pub prefix_len: u8,
    pub max_len: u8,
    pub asn: u32,
}

/// An IPv6 route origin.
#[derive(Clone, Copy, Debug, PartialEq, Eq, Structural, Hash)]
pub struct Ipv6Prefix {
    pub prefix: u128,
    pub prefix_len: u8,
    pub max_len: u8,
    pub asn: u32,
}

/// One validated record.
#[derive(Clone, Copy, Debug, PartialEq, Eq, Structural, Hash)]
pub enum Payload {
    V4(Ipv4Prefix),
    V6(Ipv6Prefix),
}

/// What to do with a record.
#[derive(Clone, Copy, Debug, PartialEq, Eq, Structural, Hash)]
pub enum Action {
    /// Add the record to the set.
    Announce,
    /// Remove the record from the set.
    Withdraw,
}

/// Why a record was not accepted.
#[derive(Clone, Copy, Debug, PartialEq, Eq, Structural, Hash)]
pub enum VrpError {
    /// A record was withdrawn that the set does not hold.
    UnknownWithdraw,
    /// A record was announced that the set already holds.
    DuplicateAnnounce,
    /// The record makes no sense where it came.
    Corrupt,
}

/// The set after one action on one record; an action that cannot be
/// carried out leaves the set as it is.
pub open spec fn apply_entry(set: Set<Payload>, entry: (Action, Payload)) -> Set<Payload> {
    match entry.0 {
        Action::Announce => set.insert(entry.1),
        Action::Withdraw => set.remove(entry.1),
    }
}

/// The set after all entries of a diff, first to last.
pub open spec fn apply_diff(set: Set<Payload>, diff: Seq<(Action, Payload)>) -> Set<Payload>
    decreases diff.len(),
{
    if diff.len() == 0 {
        set
    } else {
        apply_entry(apply_diff(set, diff.drop_last()), diff.last())
    }
}

/// Where `payload` stands in `items`, if it does.
fn position(items: &Vec<Payload>, payload: Payload) -> (r: Option<usize>)
    ensures
        match r {
            Some(i) => i < items.len() && items[i as int] == payload,
            None => !items@.contains(payload),
        },
{
    let mut i: usize = 0;
    while i < items.len()
        invariant
            i <= items.len(),
            forall|j: int| 0 <= j < i ==> items[j] != payload,
        decreases items.len() - i,
    {
        if items[i] == payload {
            return Some(i);
        }
        i += 1;
    }
    None
}

/// A sequence without repeats grows by one member when a new value is
/// pushed, and stays without repeats.
proof fn lemma_push_fresh(s: Seq<Payload>, payload: Payload)
    requires
        s.no_duplicates(),
        !s.contains(payload),
    ensures
        s.push(payload).no_duplicates(),
        s.push(payload).to_set() == s.to_set().insert(payload),
{
    let t = s.push(payload);
    assert forall|i: int, j: int| 0 <= i < t.len() && 0 <= j < t.len() && i != j implies t[i]
        != t[j] by {
        if i < s.len() {
            assert(s.contains(s[i]));
        }
        if j < s.len() {
            assert(s.contains(s[j]));
        }
    }
    assert forall|x: Payload| t.to_set().contains(x) <==> s.to_set().insert(payload).contains(
        x,
    ) by {
        if t.contains(x) {
            let i = choose|i: int| 0 <= i < t.len() && t[i] == x;
            if i < s.len() {
                assert(s[i] == x);
                assert(s.contains(x));
            }
        }
        if s.contains(x) {
            let i = choose|i: int| 0 <= i < s.len() && s[i] == x;
            assert(t[i] == x);
        }
        if x == payload {
            assert(t[s.len() as int] == x);
        }
    }
    assert(t.to_set() =~= s.to_set().insert(payload));
}

/// A sequence without repeats loses exactly the value at `i` when that
/// position is taken out, and stays without repeats.
proof fn lemma_remove_at(s: Seq<Payload>, i: int)
    requires
        s.no_duplicates(),
        0 <= i < s.len(),
    ensures
        s.remove(i).no_duplicates(),
        s.remove(i).to_set() == s.to_set().remove(s[i]),
{
    let t = s.remove(i);
    assert forall|a: int, b: int| 0 <= a < t.len() && 0 <= b < t.len() && a != b implies t[a]
        != t[b] by {
        let a0 = if a < i { a } else { a + 1 };
        let b0 = if b < i { b } else { b + 1 };
        assert(t[a] == s[a0]);
        assert(t[b] == s[b0]);
    }
    assert forall|x: Payload| t.to_set().contains(x) <==> s.to_set().remove(s[i]).contains(
        x,
    ) by {
        if t.contains(x) {
            let a = choose|a: int| 0 <= a < t.len() && t[a] == x;
            let a0 = if a < i { a } else { a + 1 };
            assert(s[a0] == x);
            assert(s.contains(x));
        }
        if s.contains(x) && x != s[i] {
            let a0 = choose|a0: int| 0 <= a0 < s.len() && s[a0] == x;
            let a = if a0 < i { a0 } else { a0 - 1 };
            assert(t[a] == x);
        }
    }
    assert(t.to_set() =~= s.to_set().remove(s[i]));
}

/// A set under construction.
pub struct SetBuilder {
    items: Vec<Payload>,
}

impl View for SetBuilder {
    type V = Set<Payload>;

    closed spec fn view(&self) -> Set<Payload> {
        self.items@.to_set()
    }
}

impl SetBuilder {
    #[verifier::type_invariant]
    spec fn distinct(self) -> bool {
        self.items@.no_duplicates()
    }

    /// A builder that holds nothing.
    pub fn new() -> (r: SetBuilder)
        ensures
            r@ == Set::<Payload>::empty(),
    {
        let r = SetBuilder { items: Vec::new() };
        assert(r.items@.to_set() =~= Set::<Payload>::empty());
        r
    }

    /// Whether the builder holds `payload`.
    pub fn contains(&self, payload: &Payload) -> (r: bool)
        ensures
            r == self@.contains(*payload),
    {
        position(&self.items, *payload).is_some()
    }

    /// Adds a record that the builder does not hold yet.
    pub fn insert(&mut self, payload: Payload) -> (r: Result<(), VrpError>)
        ensures
            old(self)@.contains(payload) ==> r == Err::<(), VrpError>(VrpError::DuplicateAnnounce)
                && final(self)@ == old(self)@,
            !old(self)@.contains(payload) ==> r == Ok::<(), VrpError>(()) && final(self)@ == old(
                self,
            )@.insert(payload),
    {
        proof {
            use_type_invariant(&*self);
        }
        match position(&self.items, payload) {
            Some(_) => Err(VrpError::DuplicateAnnounce),
            None => {
                let mut items = Vec::new();
                std::mem::swap(&mut items, &mut self.items);
                proof {
                    lemma_push_fresh(items@, payload);
                }
                items.push(payload);
                self.items = items;
                Ok(())
            },
        }
    }

    /// Takes out a record that the builder holds.
    pub fn remove(&mut self, payload: &Payload) -> (r: Result<(), VrpError>)
        ensures
            old(self)@.contains(*payload) ==> r == Ok::<(), VrpError>(()) && final(self)@ == old(
                self,
            )@.remove(*payload),
            !old(self)@.contains(*payload) ==> r == Err::<(), VrpError>(
                VrpError::UnknownWithdraw,
            ) && final(self)@ == old(self)@,
    {
        proof {
            use_type_invariant(&*self);
        }
        match position(&self.items, *payload) {
            Some(i) => {
                let mut items = Vec::new();
                std::mem::swap(&mut items, &mut self.items);
                proof {
                    lemma_remove_at(items@, i as int);
                }
                items.remove(i);
                self.items = items;
                Ok(())
            },
            None => Err(VrpError::UnknownWithdraw),
        }
    }

    /// Whether the builder holds nothing.
    pub fn is_empty(&self) -> (r: bool)
        ensures
            r == (self@ == Set::<Payload>::empty()),
    {
        let r = self.items.len() == 0;
        proof {
            if r {
                assert(self.items@.to_set() =~= Set::<Payload>::empty());
            } else {
                assert(self.items@.contains(self.items@[0]));
                assert(self.items@.to_set().contains(self.items@[0]));
            }
        }
        r
    }

    /// Closes the builder: the set of what it holds.
    pub fn finalize(self) -> (r: PayloadSet)
        ensures
            r@ == self@,
    {
        proof {
            use_type_invariant(&self);
        }
        PayloadSet { items: self.items }
    }
}

/// A finished set of records. Once made it does not change.
pub struct PayloadSet {
    items: Vec<Payload>,
}

impl View for PayloadSet {
    type V = Set<Payload>;

    closed spec fn view(&self) -> Set<Payload> {
        self.items@.to_set()
    }
}

impl PayloadSet {
    #[verifier::type_invariant]
    spec fn distinct(self) -> bool {
        self.items@.no_duplicates()
    }

    /// The set that holds nothing.
    pub fn new() -> (r: PayloadSet)
        ensures
            r@ == Set::<Payload>::empty(),
    {
        let r = PayloadSet { items: Vec::new() };
        assert(r.items@.to_set() =~= Set::<Payload>::empty());
        r
    }

    /// Whether the set holds `payload`.
    pub fn contains(&self, payload: &Payload) -> (r: bool)
        ensures
            r == self@.contains(*payload),
    {
        position(&self.items, *payload).is_some()
    }

    /// How many records the set holds.
    pub fn len(&self) -> (r: usize)
        ensures
            self@.finite(),
            r == self@.len(),
    {
        proof {
            use_type_invariant(&*self);
            self.items@.unique_seq_to_set();
        }
        self.items.len()
    }

    /// Whether the set holds nothing.
    pub fn is_empty(&self) -> (r: bool)
        ensures
            r == (self@ == Set::<Payload>::empty()),
    {
        let r = self.items.len() == 0;
        proof {
            if r {
                assert(self.items@.to_set() =~= Set::<Payload>::empty());
            } else {
                assert(self.items@.contains(self.items@[0]));
                assert(self.items@.to_set().contains(self.items@[0]));
            }
        }
        r
    }

    /// A builder that starts out with a copy of this set.
    pub fn to_builder(&self) -> (r: SetBuilder)
        ensures
            r@ == self@,
    {
        proof {
            use_type_invariant(&*self);
        }
        let mut items: Vec<Payload> = Vec::new();
        let mut i: usize = 0;
        while i < self.items.len()
            invariant
                i <= self.items.len(),
                items@ == self.items@.take(i as int),
            decreases self.items.len() - i,
        {
            items.push(self.items[i]);
            assert(self.items@.take(i as int).push(self.items@[i as int]) =~= self.items@.take(
                i + 1,
            ));
            i += 1;
        }
        assert(self.items@.take(i as int) =~= self.items@);
        SetBuilder { items }
    }

    /// The records of the set, each once.
    pub fn to_vec(&self) -> (r: Vec<Payload>)
        ensures
            r@.no_duplicates(),
            r@.to_set() == self@,
    {
        proof {
            use_type_invariant(&*self);
        }
        let mut items: Vec<Payload> = Vec::new();
        let mut i: usize = 0;
        while i < self.items.len()
            invariant
                i <= self.items.len(),
                items@ == self.items@.take(i as int),
            decreases self.items.len() - i,
        {
            items.push(self.items[i]);
            assert(self.items@.take(i as int).push(self.items@[i as int]) =~= self.items@.take(
                i + 1,
            ));
            i += 1;
        }
        assert(self.items@.take(i as int) =~= self.items@);
        items
    }
}

/// A diff under construction: the actions in the order they were pushed.
pub struct DiffBuilder {
    items: Vec<(Action, Payload)>,
}

impl View for DiffBuilder {
    type V = Seq<(Action, Payload)>;

    closed spec fn view(&self) -> Seq<(Action, Payload)> {
        self.items@
    }
}

impl DiffBuilder {
    /// A builder without entries.
    pub fn new() -> (r: DiffBuilder)
        ensures
            r@ == Seq::<(Action, Payload)>::empty(),
    {
        DiffBuilder { items: Vec::new() }
    }

    /// Appends one entry.
    pub fn push(&mut self, payload: Payload, action: Action)
        ensures
            final(self)@ == old(self)@.push((action, payload)),
    {
        self.items.push((action, payload));
    }

    /// Whether nothing was pushed.
    pub fn is_empty(&self) -> (r: bool)
        ensures
            r == (self@.len() == 0),
    {
        self.items.len() == 0
    }

    /// Closes the builder: the diff with its entries.
    pub fn finalize(self) -> (r: PayloadDiff)
        ensures
            r@ == self@,
    {
        PayloadDiff { items: self.items }
    }
}

/// A finished diff: the steps that lead from one set to the next.
pub struct PayloadDiff {
    items: Vec<(Action, Payload)>,
}

impl View for PayloadDiff {
    type V = Seq<(Action, Payload)>;

    closed spec fn view(&self) -> Seq<(Action, Payload)> {
        self.items@
    }
}

impl PayloadDiff {
    /// How many entries the diff has.
    pub fn len(&self) -> (r: usize)
        ensures
            r == self@.len(),
    {
        self.items.len()
    }

    /// Whether the diff has no entries.
    pub fn is_empty(&self) -> (r: bool)
        ensures
            r == (self@.len() == 0),
    {
        self.items.len() == 0
    }

    /// The entry at `index`, counted from zero.
    pub fn get(&self, index: usize) -> (r: Option<(Action, Payload)>)
        ensures
            r == if index < self@.len() {
                Some(self@[index as int])
            } else {
                None
            },
    {
        if index < self.items.len() {
            Some(self.items[index])
        } else {
            None
        }
    }
}

/// What an [`Update`] stands for.
pub struct UpdateView {
    pub serial: u32,
    pub set: Set<Payload>,
    pub diff: Option<Seq<(Action, Payload)>>,
}

/// One published state of the data: its serial, the full set and, unless
/// the set replaces everything before it, the diff from the previous set.
pub struct Update {
    serial: u32,
    set: Arc<PayloadSet>,
    diff: Option<Arc<PayloadDiff>>,
}

impl View for Update {
    type V = UpdateView;

    closed spec fn view(&self) -> UpdateView {
        UpdateView {
            serial: self.serial,
            set: self.set@,
            diff: match self.diff {
                Some(diff) => Some(diff@),
                None => None,
            },
        }
    }
}

/// `Arc::clone` of std: the new pointer shares the value of the old one.
#[verifier::external_body]
pub(crate) fn share<T>(value: &Arc<T>) -> (r: Arc<T>)
    ensures
        r == *value,
{
    Arc::clone(value)
}

impl Update {
    /// Puts an update together.
    pub fn new(serial: u32, set: Arc<PayloadSet>, diff: Option<Arc<PayloadDiff>>) -> (r: Update)
        ensures
            r@.serial == serial,
            r@.set == set@,
            r@.diff == match diff {
                Some(d) => Some(d@),
                None => None,
            },
    {
        Update { serial, set, diff }
    }

    /// The serial of the update.
    pub fn serial(&self) -> (r: u32)
        ensures
            r == self@.serial,
    {
        self.serial
    }

    /// The set of the update.
    pub fn set(&self) -> (r: Arc<PayloadSet>)
        ensures
            r@ == self@.set,
    {
        share(&self.set)
    }

    /// The diff of the update, if it has one.
    pub fn diff(&self) -> (r: Option<Arc<PayloadDiff>>)
        ensures
            match r {
                Some(d) => self@.diff == Some(d@),
                None => self@.diff is None,
            },
    {
        match &self.diff {
            Some(diff) => Some(share(diff)),
            None => None,
        }
    }
}

} // verus!
