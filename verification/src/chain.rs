//! Value producers, header rules, and rule chains.
//!
//! A value producer optionally yields a header value for a message; a
//! header rule binds a producer to a header name and an insertion mode and
//! yields one prepared mutation per message; a rule chain is an ordered
//! composition of rules yielding the full mutation list. Chains are built
//! right-leaning at configuration time: composing a rule onto a chain
//! evaluates the chain first and appends the rule's mutation at the end.
//! A rule attached later therefore mutates later: rules take effect in
//! attachment order.

use vstd::prelude::*;

use core::marker::PhantomData;
use crate::headers::{name_chars, opt_value_bytes, value_bytes};
use crate::mutation::{views_of, InsertHeaderMode, PreparedHeader, PreparedModel};

verus! {

/// A capability that, for a message, optionally yields a header value.
///
/// The produced value must be a function of the producer and the message:
/// a producer may keep internal state, but that state may not change what
/// it yields, and evaluation leaves its yield unchanged. This is a
/// deliberate narrowing: a producer whose yield drifts across calls (a
/// counter, say) has no place in this model, and it is what makes
/// re-evaluation of a chain provably stable. Absence means "do not set
/// this header for this message" and is a normal outcome, not an error.
pub trait MakeHeaderValue<T>: Sized {
    /// The value the producer yields for a message, if any.
    spec fn value_spec(&self, message: T) -> Option<Seq<u8>>;

    /// Try to create a header value from the message.
    fn make_header_value(&mut self, message: &T) -> (r: Option<http::header::HeaderValue>)
        ensures
            opt_value_bytes(r) == old(self).value_spec(*message),
            forall|m: T| #[trigger] final(self).value_spec(m) == old(self).value_spec(m),
    ;

    /// A copy of this producer that yields the same values.
    fn clone_producer(&self) -> (r: Self)
        ensures
            forall|m: T| #[trigger] r.value_spec(m) == self.value_spec(m),
    ;
}

/// A constant producer: a fixed header value, yielded for every message.
impl<T> MakeHeaderValue<T> for http::header::HeaderValue {
    open spec fn value_spec(&self, message: T) -> Option<Seq<u8>> {
        Some(value_bytes(*self))
    }

    fn make_header_value(&mut self, message: &T) -> (r: Option<http::header::HeaderValue>) {
        Some(self.clone())
    }

    fn clone_producer(&self) -> (r: Self) {
        self.clone()
    }
}

/// An optional-constant producer: a fixed `Option` chosen at configuration
/// time, yielded as is for every message.
impl<T> MakeHeaderValue<T> for Option<http::header::HeaderValue> {
    open spec fn value_spec(&self, message: T) -> Option<Seq<u8>> {
        opt_value_bytes(*self)
    }

    fn make_header_value(&mut self, message: &T) -> (r: Option<http::header::HeaderValue>) {
        crate::headers::clone_opt_value(self)
    }

    fn clone_producer(&self) -> (r: Self) {
        crate::headers::clone_opt_value(self)
    }
}

/// A capability that yields exactly one prepared mutation per message.
///
/// Like a producer's, its yield must be a function of the rule and the
/// message, and evaluation leaves it unchanged.
pub trait MakeFullHeader<T>: Sized {
    /// The mutation the rule yields for a message.
    spec fn header_spec(&self, message: T) -> PreparedModel;

    /// Create the prepared mutation from the message.
    fn make_full_header(&mut self, message: &T) -> (r: PreparedHeader)
        ensures
            r@ == old(self).header_spec(*message),
            forall|m: T| #[trigger] final(self).header_spec(m) == old(self).header_spec(m),
    ;

    /// A copy of this rule that yields the same mutations.
    fn clone_rule(&self) -> (r: Self)
        ensures
            forall|m: T| #[trigger] r.header_spec(m) == self.header_spec(m),
    ;

    /// Composes this rule onto a chain: the chain's mutations come first,
    /// this rule's mutation last.
    fn and<Other: MakeHeaders<T>>(self, other: Other) -> (r: And<Self, Other>)
        ensures
            r == (And { left: self, right: other }),
    {
        And { left: self, right: other }
    }
}

/// A capability that yields the full ordered mutation list per message.
///
/// Like a rule's, its yield must be a function of the chain and the
/// message, and evaluation leaves it unchanged.
pub trait MakeHeaders<T>: Sized {
    /// The ordered mutations the chain yields for a message.
    spec fn headers_spec(&self, message: T) -> Seq<PreparedModel>;

    /// Create the ordered mutation list from the message.
    fn make_headers(&mut self, message: &T) -> (r: Vec<PreparedHeader>)
        ensures
            views_of(r@) == old(self).headers_spec(*message),
            forall|m: T| #[trigger] final(self).headers_spec(m) == old(self).headers_spec(m),
    ;

    /// A copy of this chain that yields the same mutations.
    fn clone_chain(&self) -> (r: Self)
        ensures
            forall|m: T| #[trigger] r.headers_spec(m) == self.headers_spec(m),
    ;
}

/// The empty chain: yields no mutations; the identity of composition.
#[derive(Copy, Clone)]
pub struct NoopMakeHeaders {}

impl<T> MakeHeaders<T> for NoopMakeHeaders {
    open spec fn headers_spec(&self, message: T) -> Seq<PreparedModel> {
        Seq::empty()
    }

    fn make_headers(&mut self, message: &T) -> (r: Vec<PreparedHeader>) {
        let r: Vec<PreparedHeader> = Vec::new();
        proof {
            assert(views_of(r@) =~= Seq::<PreparedModel>::empty());
        }
        r
    }

    fn clone_chain(&self) -> (r: Self) {
        NoopMakeHeaders {}
    }
}

/// The composition of a rule onto a chain: evaluating it evaluates the
/// chain, then appends the rule's mutation to the end of the list.
pub struct And<Left, Right> {
    pub left: Left,
    pub right: Right,
}

impl<T, Left: MakeFullHeader<T>, Right: MakeHeaders<T>> MakeHeaders<T> for And<Left, Right> {
    open spec fn headers_spec(&self, message: T) -> Seq<PreparedModel> {
        self.right.headers_spec(message).push(self.left.header_spec(message))
    }

    fn make_headers(&mut self, message: &T) -> (r: Vec<PreparedHeader>) {
        let mut all = self.right.make_headers(message);
        let ghost tail = all@;
        let head = self.left.make_full_header(message);
        all.push(head);
        proof {
            assert(views_of(all@) =~= views_of(tail).push(all@.last()@));
        }
        all
    }

    fn clone_chain(&self) -> (r: Self) {
        And { left: self.left.clone_rule(), right: self.right.clone_chain() }
    }
}

/// A header rule from its three parts: a header name, an insertion mode,
/// and a value producer. Yields one mutation carrying the name, the
/// producer's optional value, and the mode.
pub struct ToMakeHeaders<M, T> where M: MakeHeaderValue<T> {
    pub _marker: PhantomData<T>,
    pub header_name: http::header::HeaderName,
    pub mode: InsertHeaderMode,
    pub make: M,
}

impl<M: MakeHeaderValue<T>, T> MakeFullHeader<T> for ToMakeHeaders<M, T> {
    open spec fn header_spec(&self, message: T) -> PreparedModel {
        PreparedModel {
            name: name_chars(self.header_name),
            value: self.make.value_spec(message),
            mode: self.mode,
        }
    }

    fn make_full_header(&mut self, message: &T) -> (r: PreparedHeader) {
        let value = self.make.make_header_value(message);
        PreparedHeader { name: self.header_name.clone(), value, mode: self.mode }
    }

    fn clone_rule(&self) -> (r: Self) {
        ToMakeHeaders {
            _marker: PhantomData,
            header_name: self.header_name.clone(),
            mode: self.mode,
            make: self.make.clone_producer(),
        }
    }
}

/// A prepared mutation is itself a raw rule: it yields a copy of itself
/// for every message.
impl<T> MakeFullHeader<T> for PreparedHeader {
    open spec fn header_spec(&self, message: T) -> PreparedModel {
        self@
    }

    fn make_full_header(&mut self, message: &T) -> (r: PreparedHeader) {
        self.duplicate()
    }

    fn clone_rule(&self) -> (r: Self) {
        self.duplicate()
    }
}

} // verus!
