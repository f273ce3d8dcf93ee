use vstd::prelude::*;
use crate::context::Context;

verus! {

/// A rule that decides whether data of type `T` may be declassified for the
/// principal and operation of a context, possibly consulting a datastore
/// handle of type `D` (read only).
pub trait AbstractPolicy<T, U, D> {
    /// Whether the rule permits declassifying `data` under `context`.
    spec fn allows(&self, data: T, context: Context<U>, db: D) -> bool;

    /// Evaluates the rule.
    fn check(&self, data: &T, context: &Context<U>, db: &D) -> (r: bool)
        ensures
            r == self.allows(*data, *context, *db),
    ;
}

/// Every policy of `policies` permits declassifying `data` under `context`.
pub open spec fn all_allow<T, U, D, P: AbstractPolicy<T, U, D>>(
    policies: Seq<P>,
    data: T,
    context: Context<U>,
    db: D,
) -> bool {
    forall|i: int| 0 <= i < policies.len() ==> #[trigger] policies[i].allows(data, context, db)
}

/// The policies registered for one (table, column) location.
pub struct PolicyEntry<P> {
    table: String,
    column: String,
    policies: Vec<P>,
}

/// The table from a data location (table name, column name) to the ordered
/// policies that govern it. Registering accumulates; an unknown location has
/// no policies.
pub struct PolicyStorage<P> {
    entries: Vec<PolicyEntry<P>>,
    no_policies: Vec<P>,
}

impl<P> PolicyStorage<P> {
    /// The location of the `i`-th entry.
    pub closed spec fn key_at(&self, i: int) -> (Seq<char>, Seq<char>) {
        (self.entries@[i].table@, self.entries@[i].column@)
    }

    /// Some entry is kept for the location.
    pub closed spec fn has_key(&self, table: Seq<char>, column: Seq<char>) -> bool {
        exists|i: int| 0 <= i < self.entries@.len() && #[trigger] self.key_at(i) == (table, column)
    }

    /// The policies registered for a location, in order of registration.
    pub closed spec fn policies_for(&self, table: Seq<char>, column: Seq<char>) -> Seq<P> {
        if self.has_key(table, column) {
            let i = choose|i: int| 0 <= i < self.entries@.len() && #[trigger] self.key_at(i) == (table, column);
            self.entries@[i].policies@
        } else {
            Seq::empty()
        }
    }

    /// Each location has at most one entry.
    pub closed spec fn wf(&self) -> bool {
        &&& self.no_policies@.len() == 0
        &&& forall|i: int, j: int|
            0 <= i < self.entries@.len() && 0 <= j < self.entries@.len() && i != j
                ==> #[trigger] self.key_at(i) != #[trigger] self.key_at(j)
    }

    proof fn lemma_policies_at(&self, i: int)
        requires
            self.wf(),
            0 <= i < self.entries@.len(),
        ensures
            self.has_key(self.key_at(i).0, self.key_at(i).1),
            self.policies_for(self.key_at(i).0, self.key_at(i).1) == self.entries@[i].policies@,
    {
        let k = self.key_at(i);
        assert(self.key_at(i) == (k.0, k.1));
    }

    /// A table with no policies at all.
    pub fn new() -> (r: Self)
        ensures
            r.wf(),
            forall|t: Seq<char>, c: Seq<char>| #[trigger] r.policies_for(t, c) == Seq::<P>::empty(),
    {
        PolicyStorage { entries: Vec::new(), no_policies: Vec::new() }
    }

    /// The index of the entry for a location, if there is one.
    fn find(&self, table: &String, column: &String) -> (r: Option<usize>)
        requires
            self.wf(),
        ensures
            r is None <==> !self.has_key(table@, column@),
            r matches Some(i) ==> i < self.entries@.len() && self.key_at(i as int) == (table@, column@),
    {
        let mut i: usize = 0;
        while i < self.entries.len()
            invariant
                i <= self.entries@.len(),
                forall|j: int| 0 <= j < i ==> #[trigger] self.key_at(j) != (table@, column@),
            decreases self.entries@.len() - i,
        {
            let e = &self.entries[i];
            if e.table == *table && e.column == *column {
                assert(self.key_at(i as int) == (table@, column@));
                return Some(i);
            }
            i = i + 1;
        }
        None
    }

    /// The policies registered for `(table, column)`, in the order in which
    /// they were registered; none where nothing was registered.
    pub fn get_policies(&self, table: String, column: String) -> (r: &Vec<P>)
        requires
            self.wf(),
        ensures
            r@ == self.policies_for(table@, column@),
    {
        match self.find(&table, &column) {
            Some(i) => {
                proof {
                    self.lemma_policies_at(i as int);
                }
                &self.entries[i].policies
            },
            None => &self.no_policies,
        }
    }

    /// `after` is `before` with `policy` registered at `(table, column)` after
    /// the policies already there, and every other location unchanged.
    pub open spec fn added(before: Self, after: Self, table: Seq<char>, column: Seq<char>, policy: P) -> bool {
        &&& after.wf()
        &&& after.policies_for(table, column) == before.policies_for(table, column).push(policy)
        &&& forall|t: Seq<char>, c: Seq<char>|
            (t, c) != (table, column) ==> #[trigger] after.policies_for(t, c) == before.policies_for(t, c)
    }

    /// Registers one more policy for `(table, column)`, after those already
    /// registered there. Other locations keep their policies.
    pub fn add_policy(&mut self, table: String, column: String, policy: P)
        requires
            old(self).wf(),
        ensures
            Self::added(*old(self), *final(self), table@, column@, policy),
    {
        match self.find(&table, &column) {
            Some(i) => {
                proof {
                    self.lemma_policies_at(i as int);
                }
                let ghost before = *self;
                let mut entry = self.entries.remove(i);
                entry.policies.push(policy);
                self.entries.insert(i, entry);
                assert(self.entries@ =~= before.entries@.update(i as int, self.entries@[i as int]));
                assert(forall|j: int| 0 <= j < self.entries@.len() ==> #[trigger] self.key_at(j) == before.key_at(j));
                assert forall|t: Seq<char>, c: Seq<char>|
                    (t, c) != (table@, column@) implies #[trigger] self.policies_for(t, c) == before.policies_for(t, c) by {
                    if before.has_key(t, c) {
                        let j = choose|j: int| 0 <= j < before.entries@.len() && #[trigger] before.key_at(j) == (t, c);
                        before.lemma_policies_at(j);
                        self.lemma_policies_at(j);
                    } else {
                        if self.has_key(t, c) {
                            let j = choose|j: int| 0 <= j < self.entries@.len() && #[trigger] self.key_at(j) == (t, c);
                            assert(before.key_at(j) == (t, c));
                        }
                    }
                }
                proof {
                    self.lemma_policies_at(i as int);
                }
            },
            None => {
                let ghost before = *self;
                let mut policies = Vec::new();
                policies.push(policy);
                self.entries.push(PolicyEntry { table, column, policies });
                let n = self.entries.len() - 1;
                assert(forall|j: int| 0 <= j < n ==> #[trigger] self.key_at(j) == before.key_at(j));
                assert forall|t: Seq<char>, c: Seq<char>|
                    (t, c) != (table@, column@) implies #[trigger] self.policies_for(t, c) == before.policies_for(t, c) by {
                    if before.has_key(t, c) {
                        let j = choose|j: int| 0 <= j < before.entries@.len() && #[trigger] before.key_at(j) == (t, c);
                        before.lemma_policies_at(j);
                        assert(self.key_at(j) == before.key_at(j));
                        self.lemma_policies_at(j);
                    } else {
                        if self.has_key(t, c) {
                            let j = choose|j: int| 0 <= j < self.entries@.len() && #[trigger] self.key_at(j) == (t, c);
                            assert(j < before.entries@.len());
                            assert(before.key_at(j) == (t, c));
                        }
                    }
                }
                proof {
                    self.lemma_policies_at(n as int);
                }
            },
        }
    }
}

/// Registering two policies at one location keeps both, in the order of
/// registration, after any that were there before: the second does not
/// replace the first.
pub proof fn lemma_registration_accumulates<P>(
    s0: PolicyStorage<P>,
    s1: PolicyStorage<P>,
    s2: PolicyStorage<P>,
    table: Seq<char>,
    column: Seq<char>,
    first: P,
    second: P,
)
    requires
        PolicyStorage::added(s0, s1, table, column, first),
        PolicyStorage::added(s1, s2, table, column, second),
    ensures
        s2.policies_for(table, column) == s0.policies_for(table, column).push(first).push(second),
        s0.policies_for(table, column).len() == 0 ==> s2.policies_for(table, column) == seq![first, second],
{
    if s0.policies_for(table, column).len() == 0 {
        assert(s2.policies_for(table, column) =~= seq![first, second]);
    }
}

/// A location with no registered policies restricts nothing: every value
/// kept there may be declassified under every context.
pub proof fn lemma_no_policy_allows<T, U, D, P: AbstractPolicy<T, U, D>>(
    storage: PolicyStorage<P>,
    table: Seq<char>,
    column: Seq<char>,
    data: T,
    context: Context<U>,
    db: D,
)
    requires
        storage.policies_for(table, column).len() == 0,
    ensures
        all_allow(storage.policies_for(table, column), data, context, db),
{
}

} // verus!
