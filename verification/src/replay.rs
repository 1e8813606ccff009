//! Requests that can be made more than once.

use vstd::prelude::*;

verus! {

/// A small callable factory that creates a fresh body (or a fallible body result)
/// on every invocation. It carries no retry policy.
#[derive(Debug)]
pub struct BodyFactory<F> {
    factory: F,
}

impl<F> BodyFactory<F> {
    /// The underlying factory.
    pub closed spec fn inner(self) -> F {
        self.factory
    }

    /// Wraps a closure that can produce a fresh body.
    pub fn new(factory: F) -> (wrapped: Self)
        ensures
            wrapped.inner() == factory,
    {
        BodyFactory { factory }
    }

    /// Borrows the underlying factory.
    pub fn as_inner(&self) -> (factory: &F)
        ensures
            *factory == self.inner(),
    {
        &self.factory
    }
}

impl<F: Clone> Clone for BodyFactory<F> {
    fn clone(&self) -> (copy: Self)
        ensures
            cloned(self.inner(), copy.inner()),
    {
        BodyFactory::new(self.factory.clone())
    }
}

impl<F, O> BodyFactory<F> where F: Fn() -> O {
    /// Creates a fresh body by invoking the factory.
    pub fn make(&self) -> (body: O)
        requires
            call_requires(self.inner(), ()),
        ensures
            call_ensures(self.inner(), (), body),
    {
        (self.factory)()
    }
}

/// A request head `H` paired with an explicit fresh-body factory.
///
/// [`ReplayableRequest::build`] clones only the request head and invokes the
/// factory for a new body. Retries stay under the application's control, and no
/// one-shot stream is buffered.
#[derive(Debug)]
pub struct ReplayableRequest<H, F> {
    template: H,
    body: BodyFactory<F>,
}

/// A descriptive alias for a replayable request factory.
pub type RequestFactory<H, F> = ReplayableRequest<H, F>;

impl<H, F> ReplayableRequest<H, F> {
    /// The request head.
    pub closed spec fn head(self) -> H {
        self.template
    }

    /// What makes the bodies.
    pub closed spec fn factory(self) -> BodyFactory<F> {
        self.body
    }

    /// Creates a replayable request from a request head and a factory.
    pub fn new(template: H, factory: F) -> (request: Self)
        ensures
            request.head() == template,
            request.factory().inner() == factory,
    {
        ReplayableRequest { template, body: BodyFactory::new(factory) }
    }

    /// Retains the head of an existing request and replaces its body with a
    /// factory. The existing body is dropped.
    pub fn from_request<B>(request: (H, B), factory: F) -> (replayable: Self)
        ensures
            replayable.head() == request.0,
            replayable.factory().inner() == factory,
    {
        let (parts, _) = request;
        ReplayableRequest::new(parts, factory)
    }

    /// Borrows the request head.
    pub fn template(&self) -> (template: &H)
        ensures
            *template == self.head(),
    {
        &self.template
    }

    /// Borrows the explicit body factory.
    pub fn body_factory(&self) -> (factory: &BodyFactory<F>)
        ensures
            *factory == self.factory(),
    {
        &self.body
    }
}

impl<H: Clone, F: Clone> Clone for ReplayableRequest<H, F> {
    fn clone(&self) -> (copy: Self)
        ensures
            cloned(self.head(), copy.head()),
            cloned(self.factory().inner(), copy.factory().inner()),
    {
        ReplayableRequest { template: self.template.clone(), body: self.body.clone() }
    }
}

impl<H: Clone, F, O> ReplayableRequest<H, F> where F: Fn() -> O {
    /// Builds a request with a newly generated body.
    pub fn build(&self) -> (request: (H, O))
        requires
            call_requires(self.factory().inner(), ()),
        ensures
            cloned(self.head(), request.0),
            call_ensures(self.factory().inner(), (), request.1),
    {
        (self.template.clone(), self.body.make())
    }

    /// Alias for [`build`](Self::build).
    pub fn request(&self) -> (request: (H, O))
        requires
            call_requires(self.factory().inner(), ()),
        ensures
            cloned(self.head(), request.0),
            call_ensures(self.factory().inner(), (), request.1),
    {
        self.build()
    }
}

/// What makes copies of one value.
#[derive(Debug)]
pub struct ValueFactory<T> {
    value: T,
}

impl<T> ValueFactory<T> {
    /// The value that is copied.
    pub closed spec fn value(self) -> T {
        self.value
    }
}

impl<T: Clone> Clone for ValueFactory<T> {
    fn clone(&self) -> (copy: Self)
        ensures
            cloned(self.value(), copy.value()),
    {
        ValueFactory { value: self.value.clone() }
    }
}

impl<T: Clone> BodyFactory<ValueFactory<T>> {
    /// Creates a fresh body by copying the value.
    pub fn make(&self) -> (body: T)
        ensures
            cloned(self.inner().value(), body),
    {
        self.factory.value.clone()
    }
}

/// Makes a factory from a cloneable value, useful for bytes and static JSON bodies
/// that are naturally replayable.
pub fn replayable_value<T: Clone>(value: T) -> (factory: BodyFactory<ValueFactory<T>>)
    ensures
        factory.inner().value() == value,
{
    BodyFactory::new(ValueFactory { value })
}

/// Where a copy of a value equals the value, every body that a factory for it
/// makes equals the value, and so does every body that a copy of the factory, or a
/// copy of that copy, makes. Making does not use the factory up.
pub proof fn replayed_values_are_equal<T: Clone>(
    factory: BodyFactory<ValueFactory<T>>,
    copy: BodyFactory<ValueFactory<T>>,
    made: T,
    made_by_copy: T,
)
    requires
        forall|a: T, b: T| #[trigger] cloned(a, b) ==> a == b,
        cloned(factory.inner(), copy.inner()),
        cloned(factory.inner().value(), made),
        cloned(copy.inner().value(), made_by_copy),
    ensures
        made == factory.inner().value(),
        made_by_copy == factory.inner().value(),
        copy.inner().value() == factory.inner().value(),
{
    assert(cloned(factory.inner().value(), copy.inner().value()));
}

/// A request can be built any number of times: each time its head is a copy of the
/// template and its body comes of another call of the factory.
pub proof fn requests_are_built_anew<H: Clone, O, F: Fn() -> O>(
    template: H,
    factory: F,
    replayable: ReplayableRequest<H, F>,
    first: (H, O),
    second: (H, O),
)
    requires
        call_ensures(ReplayableRequest::<H, F>::new, (template, factory), replayable),
        call_ensures(ReplayableRequest::<H, F>::build, (&replayable,), first),
        call_ensures(ReplayableRequest::<H, F>::request, (&replayable,), second),
    ensures
        cloned(template, first.0),
        cloned(template, second.0),
        call_ensures(factory, (), first.1),
        call_ensures(factory, (), second.1),
{
}

} // verus!
