use vstd::prelude::*;

verus! {

/// The endpoint a request is served by: its HTTP method and its route path.
pub struct Operation {
    pub method: String,
    pub path: String,
}

/// Who is asking, and for which operation.
///
/// The fields are private: a context comes only out of `Context::from_request`,
/// which the request-dispatch boundary calls once per request.
pub struct Context<U> {
    user: Option<U>,
    route: Operation,
}

/// Why a context could not be built.
#[derive(Debug, PartialEq, Eq, Structural)]
pub enum ContextError {
    /// The operation (route) being served could not be resolved.
    Unconstructible,
}

impl<U> Context<U> {
    /// The authenticated principal, if authentication succeeded.
    pub closed spec fn principal(self) -> Option<U> {
        self.user
    }

    /// The operation being served.
    pub closed spec fn operation(self) -> Operation {
        self.route
    }

    /// What `from_request` promises of its result: it fails exactly when the
    /// route is unknown, and otherwise carries the given principal and route.
    pub open spec fn built_from(user: Option<U>, route: Option<Operation>, r: Result<Context<U>, ContextError>) -> bool {
        &&& (route is None <==> r is Err)
        &&& (r matches Err(e) ==> e == ContextError::Unconstructible)
        &&& (r matches Ok(c) ==> c.principal() == user && Some(c.operation()) == route)
    }

    /// Builds the context of one request from what the authentication guard
    /// produced (`None` where it failed) and the resolved route (`None` where
    /// the route is unknown, which leaves the request impossible to check).
    pub fn from_request(user: Option<U>, route: Option<Operation>) -> (r: Result<Context<U>, ContextError>)
        ensures
            Self::built_from(user, route, r),
    {
        match route {
            None => Err(ContextError::Unconstructible),
            Some(route) => Ok(Context { user, route }),
        }
    }

    /// The authenticated principal, borrowed.
    pub fn get_user(&self) -> (r: Option<&U>)
        ensures
            r is Some <==> self.principal() is Some,
            r matches Some(u) ==> *u == self.principal()->Some_0,
    {
        match &self.user {
            None => None,
            Some(user) => Some(user),
        }
    }

    /// The operation being served, borrowed.
    pub fn get_route(&self) -> (r: &Operation)
        ensures
            *r == self.operation(),
    {
        &self.route
    }
}

/// A request whose authentication failed still gets a context: it carries no
/// principal and exactly the operation that was resolved.
pub proof fn lemma_unauthenticated_context<U>(route: Operation, r: Result<Context<U>, ContextError>)
    requires
        Context::<U>::built_from(None, Some(route), r),
    ensures
        r is Ok,
        r->Ok_0.principal() is None,
        r->Ok_0.operation() == route,
{
}

/// A request whose route cannot be resolved gets no context at all, whoever
/// is asking: no operation is ever made up for it.
pub proof fn lemma_unresolved_route<U>(user: Option<U>, r: Result<Context<U>, ContextError>)
    requires
        Context::<U>::built_from(user, None, r),
    ensures
        r == Err::<Context<U>, ContextError>(ContextError::Unconstructible),
{
}

} // verus!
