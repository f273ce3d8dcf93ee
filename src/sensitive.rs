use vstd::prelude::*;
use crate::context::Context;
use crate::policy::{all_allow, AbstractPolicy, PolicyStorage};

verus! {

/// What a call site takes a value out of protection for.
#[derive(Clone, Copy, Debug, PartialEq, Eq, Structural)]
pub enum Purpose {
    /// Building the view shown to the requester.
    Render,
    /// Composing an outbound email.
    Email,
    /// Deciding a permission (such as an administrator check).
    AccessCheck,
    /// Handing the value to the datastore.
    Storage,
}

/// Names one declassification site and its purpose, for audit.
pub struct AuditTag {
    pub site: String,
    pub purpose: Purpose,
}

/// The policies registered for a value's location rejected its declassification.
pub struct PolicyDenied {
    /// The site that asked.
    pub tag: AuditTag,
}

/// A protected value. Nothing hands out the value it holds but the
/// declassification methods; code that works with it does so through
/// `transform` and `combine`, which keep their results protected.
pub struct SensitiveValue<T> {
    value: T,
}

impl<T> SensitiveValue<T> {
    /// The protected value.
    pub closed spec fn inner(self) -> T {
        self.value
    }

    /// The protected form of `value`, as `wrap` returns it.
    pub closed spec fn wrap_spec(value: T) -> Self {
        SensitiveValue { value }
    }

    /// Protects a value. From here on it is treated as secret.
    pub fn wrap(value: T) -> (r: Self)
        ensures
            r == Self::wrap_spec(value),
            r.inner() == value,
    {
        SensitiveValue { value }
    }

    /// Applies `f` to the protected value and protects what it returns.
    pub fn transform<R, F: Fn(&T) -> R>(self, f: F) -> (r: SensitiveValue<R>)
        requires
            f.requires((&self.inner(),)),
        ensures
            f.ensures((&self.inner(),), r.inner()),
    {
        let value = f(&self.value);
        SensitiveValue { value }
    }

    /// Applies `f` to two protected values and protects what it returns.
    pub fn combine<B, R, F: Fn(&T, &B) -> R>(a: Self, b: SensitiveValue<B>, f: F) -> (r: SensitiveValue<R>)
        requires
            f.requires((&a.inner(), &b.inner())),
        ensures
            f.ensures((&a.inner(), &b.inner()), r.inner()),
    {
        let value = f(&a.value, &b.value);
        SensitiveValue { value }
    }

    /// Hands out the protected value unconditionally. Reserved for trusted
    /// sites such as the final render step.
    pub fn declassify_trusted(self) -> (r: T)
        ensures
            r == self.inner(),
    {
        self.value
    }

    /// Hands out the protected value if every policy that `storage` holds for
    /// `(table, column)` permits it under `context`; a location with no
    /// policies permits it. Otherwise reports the denial with `tag`.
    pub fn declassify_audited<U, D, P: AbstractPolicy<T, U, D>>(
        self,
        tag: AuditTag,
        storage: &PolicyStorage<P>,
        table: String,
        column: String,
        context: &Context<U>,
        db: &D,
    ) -> (r: Result<T, PolicyDenied>)
        requires
            storage.wf(),
        ensures
            r is Ok <==> all_allow(storage.policies_for(table@, column@), self.inner(), *context, *db),
            r matches Ok(v) ==> v == self.inner(),
            r matches Err(e) ==> e.tag == tag,
    {
        let ghost location = (table@, column@);
        let policies = storage.get_policies(table, column);
        let mut i: usize = 0;
        while i < policies.len()
            invariant
                i <= policies@.len(),
                policies@ == storage.policies_for(location.0, location.1),
                location == (table@, column@),
                forall|j: int| 0 <= j < i ==> #[trigger] policies@[j].allows(self.value, *context, *db),
            decreases policies@.len() - i,
        {
            if !policies[i].check(&self.value, context, db) {
                assert(!policies@[i as int].allows(self.value, *context, *db));
                assert(!all_allow(storage.policies_for(location.0, location.1), self.inner(), *context, *db));
                return Err(PolicyDenied { tag });
            }
            i = i + 1;
        }
        Ok(self.value)
    }
}

/// Transforming with the identity changes nothing: if `f` returns what it
/// is given, then `transform(wrap(v), f)` declassifies to `v`.
pub proof fn lemma_transform_identity<T, F: Fn(&T) -> T>(v: T, f: F, r: SensitiveValue<T>)
    requires
        forall|x: &T, y: T| #[trigger] f.ensures((x,), y) ==> y == *x,
        f.ensures((&SensitiveValue::wrap_spec(v).inner(),), r.inner()),
    ensures
        r.inner() == v,
{
}

} // verus!
