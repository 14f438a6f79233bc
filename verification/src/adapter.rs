//! Pipeline adapters: layers and services that hold a rule chain and
//! mutate a message's header container.
//!
//! The adapters here carry the configuration-time state and the verified
//! per-message step: evaluate the chain against a snapshot of the headers,
//! then apply the prepared mutations in order. Wiring them into a service
//! stack (readiness, futures, delegation to an inner handler) is the host
//! framework's side and stays outside this crate.

use vstd::prelude::*;

use core::marker::PhantomData;
use crate::chain::{And, MakeFullHeader, MakeHeaderValue, MakeHeaders, NoopMakeHeaders, ToMakeHeaders};
use crate::headers::{map_entries, name_chars};
use crate::mutation::{
    apply_mode_spec, apply_prepared, apply_seq_spec, applied_prefix, mode_accepts, InsertHeaderMode,
    PreparedModel,
};

verus! {

/// Evaluates the chain against the container's current state, then applies
/// the prepared mutations in order.
///
/// Returns how many mutations were carried out: the contents afterwards
/// are the model application of exactly that prefix of the chain's yield,
/// and the whole yield is applied unless the container itself refused the
/// next mutation in the state reached (for want of room). The chain's
/// yield is unchanged by the run.
pub fn run_header_chain<M: MakeHeaders<http::header::HeaderMap>>(
    make: &mut M,
    target: &mut http::header::HeaderMap,
) -> (n: usize)
    ensures
        applied_prefix(
            old(make).headers_spec(*old(target)),
            map_entries(*old(target)),
            n as int,
            map_entries(*final(target)),
        ),
        forall|m: http::header::HeaderMap|
            #[trigger] final(make).headers_spec(m) == old(make).headers_spec(m),
{
    let muts = make.make_headers(&*target);
    let n = apply_prepared(target, &muts);
    proof {
        assert(crate::mutation::views_of(muts@) == old(make).headers_spec(*old(target)));
    }
    n
}

/// The response-path decision: a failed inner outcome passes through
/// unchanged and the chain is never evaluated; a successful one has the
/// chain's whole yield applied to its header container, stopping short
/// only at a mutation the container itself refused.
pub fn apply_on_result<M: MakeHeaders<http::header::HeaderMap>, E>(
    make: &mut M,
    outcome: Result<http::header::HeaderMap, E>,
) -> (r: Result<http::header::HeaderMap, E>)
    ensures
        forall|m: http::header::HeaderMap|
            #[trigger] final(make).headers_spec(m) == old(make).headers_spec(m),
        outcome matches Err(e) ==> r matches Err(e2) && e2 == e,
        outcome is Ok ==> r is Ok,
        outcome matches Ok(hm) ==> (r matches Ok(hm2) ==> exists|n: int|
            applied_prefix(old(make).headers_spec(hm), map_entries(hm), n, map_entries(hm2))),
{
    match outcome {
        Ok(mut hm) => {
            let n = run_header_chain(make, &mut hm);
            let res: Result<http::header::HeaderMap, E> = Ok(hm);
            proof {
                assert(applied_prefix(
                    old(make).headers_spec(outcome->Ok_0),
                    map_entries(outcome->Ok_0),
                    n as int,
                    map_entries(res->Ok_0),
                ));
                assert(exists|i: int|
                    applied_prefix(
                        old(make).headers_spec(outcome->Ok_0),
                        map_entries(outcome->Ok_0),
                        i,
                        map_entries(res->Ok_0),
                    ));
            }
            res
        },
        Err(e) => Err(e),
    }
}

/// A layer holding a rule chain for the request path: given an inner
/// handler, it produces a request adapter carrying a copy of the chain.
pub struct SetManyRequestHeadersLayer<M> {
    pub make_headers: M,
}

impl<M> SetManyRequestHeadersLayer<M> {
    /// A layer from a chain of replacing rules: a named synonym of
    /// `new`, since each rule carries its own insertion mode.
    pub fn overriding(make: M) -> (r: Self)
        ensures
            r.make_headers == make,
    {
        Self::new(make)
    }

    /// A layer from a chain of appending rules: a named synonym of
    /// `new`, since each rule carries its own insertion mode.
    pub fn appending(make: M) -> (r: Self)
        ensures
            r.make_headers == make,
    {
        Self::new(make)
    }

    /// A layer from a chain of insert-if-absent rules: a named synonym
    /// of `new`, since each rule carries its own insertion mode.
    pub fn if_not_present(make: M) -> (r: Self)
        ensures
            r.make_headers == make,
    {
        Self::new(make)
    }

    /// A layer from the given chain.
    pub fn new(make: M) -> (r: Self)
        ensures
            r.make_headers == make,
    {
        SetManyRequestHeadersLayer { make_headers: make }
    }
}

impl<M: MakeHeaders<http::header::HeaderMap>> SetManyRequestHeadersLayer<M> {
    /// Wraps an inner handler with a request adapter carrying a copy of
    /// this layer's chain; the copy yields the same mutations.
    pub fn layer<S>(&self, inner: S) -> (r: SetManyRequestHeaders<S, M>)
        ensures
            r.inner == inner,
            forall|m: http::header::HeaderMap|
                #[trigger] r.make.headers_spec(m) == self.make_headers.headers_spec(m),
    {
        SetManyRequestHeaders { inner, make: self.make_headers.clone_chain() }
    }
}

/// A request adapter: holds an inner handler and a rule chain, and mutates
/// a request's headers before the request is delegated onward.
pub struct SetManyRequestHeaders<S, M> {
    pub inner: S,
    pub make: M,
}

impl<S, M: MakeHeaders<http::header::HeaderMap>> SetManyRequestHeaders<S, M> {
    /// The request-path step: runs the chain against the request's header
    /// container, applying its whole yield unless the container itself
    /// refused a mutation. The inner handler and the chain's yield are
    /// untouched.
    pub fn mutate(&mut self, target: &mut http::header::HeaderMap) -> (n: usize)
        ensures
            final(self).inner == old(self).inner,
            applied_prefix(
                old(self).make.headers_spec(*old(target)),
                map_entries(*old(target)),
                n as int,
                map_entries(*final(target)),
            ),
            forall|m: http::header::HeaderMap|
                #[trigger] final(self).make.headers_spec(m) == old(self).make.headers_spec(m),
    {
        run_header_chain(&mut self.make, target)
    }
}

/// A single-rule request adapter: holds an inner handler, a header name,
/// an insertion mode, and a value producer, and applies that one rule to a
/// request's headers before the request is delegated onward.
pub struct SetRequestHeader<S, M> {
    pub inner: S,
    pub header_name: http::header::HeaderName,
    pub make: M,
    pub mode: InsertHeaderMode,
}

impl<S, M> SetRequestHeader<S, M> {
    /// An adapter that replaces any existing values of the header.
    pub fn overriding(inner: S, header_name: http::header::HeaderName, make: M) -> (r: Self)
        ensures
            r == (SetRequestHeader {
                inner,
                header_name,
                make,
                mode: InsertHeaderMode::Override,
            }),
    {
        Self::new(inner, header_name, make, InsertHeaderMode::Override)
    }

    /// An adapter that adds its value after any existing values.
    pub fn appending(inner: S, header_name: http::header::HeaderName, make: M) -> (r: Self)
        ensures
            r == (SetRequestHeader { inner, header_name, make, mode: InsertHeaderMode::Append }),
    {
        Self::new(inner, header_name, make, InsertHeaderMode::Append)
    }

    /// An adapter that sets its value only when the header has none.
    pub fn if_not_present(inner: S, header_name: http::header::HeaderName, make: M) -> (r: Self)
        ensures
            r == (SetRequestHeader {
                inner,
                header_name,
                make,
                mode: InsertHeaderMode::IfNotPresent,
            }),
    {
        Self::new(inner, header_name, make, InsertHeaderMode::IfNotPresent)
    }

    fn new(inner: S, header_name: http::header::HeaderName, make: M, mode: InsertHeaderMode) -> (r:
        Self)
        ensures
            r == (SetRequestHeader { inner, header_name, make, mode }),
    {
        SetRequestHeader { inner, header_name, make, mode }
    }
}

impl<S, M: MakeHeaderValue<http::header::HeaderMap>> SetRequestHeader<S, M> {
    /// The request-path step: evaluates the producer against the request's
    /// header container and applies the one mutation. The result is
    /// exactly the container's acceptance of that mutation: on success the
    /// contents afterwards are the one-step model application; a refusal
    /// (only for want of room) leaves the contents unchanged. The inner
    /// handler and the producer's yield are untouched.
    pub fn mutate(&mut self, target: &mut http::header::HeaderMap) -> (r: bool)
        ensures
            final(self).inner == old(self).inner,
            final(self).header_name == old(self).header_name,
            final(self).mode == old(self).mode,
            forall|m: http::header::HeaderMap|
                #[trigger] final(self).make.value_spec(m) == old(self).make.value_spec(m),
            r == mode_accepts(
                old(self).mode,
                name_chars(old(self).header_name),
                old(self).make.value_spec(*old(target)),
                *old(target),
            ),
            r ==> map_entries(*final(target)) == apply_mode_spec(
                old(self).mode,
                name_chars(old(self).header_name),
                old(self).make.value_spec(*old(target)),
                map_entries(*old(target)),
            ),
            !r ==> map_entries(*final(target)) == map_entries(*old(target)),
    {
        let value = self.make.make_header_value(&*target);
        self.mode.apply(&self.header_name, target, value)
    }
}

/// A layer holding a rule chain for the response path: given an inner
/// handler, it produces a response adapter carrying a copy of the chain.
pub struct SetMultipleResponseHeadersLayer<M> {
    pub make_headers: M,
}

impl<M> SetMultipleResponseHeadersLayer<M> {
    /// A layer from a chain of replacing rules: a named synonym of
    /// `new`, since each rule carries its own insertion mode.
    pub fn overriding(make: M) -> (r: Self)
        ensures
            r.make_headers == make,
    {
        Self::new(make)
    }

    /// A layer from a chain of appending rules: a named synonym of
    /// `new`, since each rule carries its own insertion mode.
    pub fn appending(make: M) -> (r: Self)
        ensures
            r.make_headers == make,
    {
        Self::new(make)
    }

    /// A layer from a chain of insert-if-absent rules: a named synonym
    /// of `new`, since each rule carries its own insertion mode.
    pub fn if_not_present(make: M) -> (r: Self)
        ensures
            r.make_headers == make,
    {
        Self::new(make)
    }

    /// A layer from the given chain.
    pub fn new(make: M) -> (r: Self)
        ensures
            r.make_headers == make,
    {
        SetMultipleResponseHeadersLayer { make_headers: make }
    }
}

impl<M: MakeHeaders<http::header::HeaderMap>> SetMultipleResponseHeadersLayer<M> {
    /// Wraps an inner handler with a response adapter carrying a copy of
    /// this layer's chain; the copy yields the same mutations.
    pub fn layer<S>(&self, inner: S) -> (r: SetMultipleResponseHeaders<
        S,
        M,
        http::header::HeaderMap,
    >)
        ensures
            r.inner == inner,
            forall|m: http::header::HeaderMap|
                #[trigger] r.make.headers_spec(m) == self.make_headers.headers_spec(m),
    {
        SetMultipleResponseHeaders {
            inner,
            make: self.make_headers.clone_chain(),
            _marker: PhantomData,
        }
    }
}

/// A response adapter: holds an inner handler and a rule chain, and
/// mutates a response's headers once the inner handler has produced one.
/// Built rule by rule: each builder call wraps the previous chain as the
/// tail and appends its own rule's mutation after the chain's, so rules
/// take effect in the order the builder calls were made.
pub struct SetMultipleResponseHeaders<S, M: MakeHeaders<T>, T> {
    pub inner: S,
    pub make: M,
    pub _marker: PhantomData<T>,
}

impl<S, T> SetMultipleResponseHeaders<S, NoopMakeHeaders, T> {
    /// An adapter around an inner handler, with the empty chain.
    pub fn new(inner: S) -> (r: Self)
        ensures
            r.inner == inner,
    {
        SetMultipleResponseHeaders { inner, make: NoopMakeHeaders {}, _marker: PhantomData }
    }
}

impl<S, M: MakeHeaders<T>, T> SetMultipleResponseHeaders<S, M, T> {
    /// Extends the chain with a rule that adds the producer's value after
    /// any existing values of the header.
    pub fn appending<Mhv: MakeHeaderValue<T>>(
        self,
        header_name: http::header::HeaderName,
        make: Mhv,
    ) -> (r: SetMultipleResponseHeaders<S, And<ToMakeHeaders<Mhv, T>, M>, T>)
        ensures
            r.inner == self.inner,
            forall|m: T|
                #[trigger] r.make.headers_spec(m) == self.make.headers_spec(m).push(
                    (PreparedModel {
                        name: name_chars(header_name),
                        value: make.value_spec(m),
                        mode: InsertHeaderMode::Append,
                    }),
                ),
    {
        self.add_make_headers(header_name, make, InsertHeaderMode::Append)
    }

    /// Extends the chain with a rule that replaces any existing values of
    /// the header with the producer's value.
    pub fn overriding<Mhv: MakeHeaderValue<T>>(
        self,
        header_name: http::header::HeaderName,
        make: Mhv,
    ) -> (r: SetMultipleResponseHeaders<S, And<ToMakeHeaders<Mhv, T>, M>, T>)
        ensures
            r.inner == self.inner,
            forall|m: T|
                #[trigger] r.make.headers_spec(m) == self.make.headers_spec(m).push(
                    (PreparedModel {
                        name: name_chars(header_name),
                        value: make.value_spec(m),
                        mode: InsertHeaderMode::Override,
                    }),
                ),
    {
        self.add_make_headers(header_name, make, InsertHeaderMode::Override)
    }

    /// Extends the chain with a rule that sets the producer's value only
    /// when the header has no value yet.
    pub fn if_not_present<Mhv: MakeHeaderValue<T>>(
        self,
        header_name: http::header::HeaderName,
        make: Mhv,
    ) -> (r: SetMultipleResponseHeaders<S, And<ToMakeHeaders<Mhv, T>, M>, T>)
        ensures
            r.inner == self.inner,
            forall|m: T|
                #[trigger] r.make.headers_spec(m) == self.make.headers_spec(m).push(
                    (PreparedModel {
                        name: name_chars(header_name),
                        value: make.value_spec(m),
                        mode: InsertHeaderMode::IfNotPresent,
                    }),
                ),
    {
        self.add_make_headers(header_name, make, InsertHeaderMode::IfNotPresent)
    }

    fn add_make_headers<Mhv: MakeHeaderValue<T>>(
        self,
        header_name: http::header::HeaderName,
        make: Mhv,
        mode: InsertHeaderMode,
    ) -> (r: SetMultipleResponseHeaders<S, And<ToMakeHeaders<Mhv, T>, M>, T>)
        ensures
            r.inner == self.inner,
            forall|m: T|
                #[trigger] r.make.headers_spec(m) == self.make.headers_spec(m).push(
                    (PreparedModel { name: name_chars(header_name), value: make.value_spec(m), mode }),
                ),
    {
        SetMultipleResponseHeaders {
            inner: self.inner,
            make: ToMakeHeaders { _marker: PhantomData, header_name, mode, make }.and(self.make),
            _marker: PhantomData,
        }
    }

    /// Extends the chain with a raw rule of the caller's own. A rule
    /// attached here yields exactly one mutation per message; a capability
    /// yielding several per message is a chain in its own right
    /// ([`MakeHeaders`]) and serves as the base that the layer
    /// constructors and [`Self::new`]-built adapters wrap, not as a link.
    pub fn custom<Mk: MakeFullHeader<T>>(self, make: Mk) -> (r: SetMultipleResponseHeaders<
        S,
        And<Mk, M>,
        T,
    >)
        ensures
            r.inner == self.inner,
            forall|m: T|
                #[trigger] r.make.headers_spec(m) == self.make.headers_spec(m).push(
                    make.header_spec(m),
                ),
    {
        SetMultipleResponseHeaders { inner: self.inner, make: make.and(self.make), _marker: PhantomData }
    }
}

impl<S, M: MakeHeaders<http::header::HeaderMap>> SetMultipleResponseHeaders<
    S,
    M,
    http::header::HeaderMap,
> {
    /// The response-path step: runs the chain against the response's
    /// header container, applying its whole yield unless the container
    /// itself refused a mutation. The inner handler and the chain's yield
    /// are untouched.
    pub fn mutate(&mut self, target: &mut http::header::HeaderMap) -> (n: usize)
        ensures
            final(self).inner == old(self).inner,
            applied_prefix(
                old(self).make.headers_spec(*old(target)),
                map_entries(*old(target)),
                n as int,
                map_entries(*final(target)),
            ),
            forall|m: http::header::HeaderMap|
                #[trigger] final(self).make.headers_spec(m) == old(self).make.headers_spec(m),
    {
        run_header_chain(&mut self.make, target)
    }
}

} // verus!
