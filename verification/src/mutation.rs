//! Insertion modes, prepared mutations, and the applier.
//!
//! A prepared mutation is the resolved `(name, optional value, mode)`
//! triple a rule evaluation yields. The applier carries a list of them out
//! against a live header container, in list order; its effect is stated
//! against the model of [`crate::headers`] by a fold of one-step
//! applications.

use vstd::prelude::*;

use crate::headers::{
    append_accepts, clone_opt_value, headers_append, headers_contains, headers_insert,
    insert_accepts, map_entries, name_chars, opt_value_bytes, values_of,
};

verus! {

/// Policy governing how a new header value interacts with the values already
/// present for the same name.
#[derive(Debug, Clone, Copy, PartialEq, Eq)]
pub enum InsertHeaderMode {
    /// Replace any existing values with exactly one new value.
    Override,
    /// Add the value, preserving all existing values.
    Append,
    /// Set the value only when the header currently has zero values.
    IfNotPresent,
}

/// The model of a prepared mutation: the canonical name text, the value
/// bytes if a value is present, and the insertion mode.
pub ghost struct PreparedModel {
    pub name: Seq<char>,
    pub value: Option<Seq<u8>>,
    pub mode: InsertHeaderMode,
}

/// A single header mutation, ready to be applied: a header name, an
/// optional value (absence means "leave this header untouched"), and the
/// insertion mode deciding how the value meets existing ones.
#[derive(Debug)]
pub struct PreparedHeader {
    pub name: http::header::HeaderName,
    pub value: Option<http::header::HeaderValue>,
    pub mode: InsertHeaderMode,
}

impl View for PreparedHeader {
    type V = PreparedModel;

    open spec fn view(&self) -> PreparedModel {
        PreparedModel {
            name: name_chars(self.name),
            value: opt_value_bytes(self.value),
            mode: self.mode,
        }
    }
}

impl PreparedHeader {
    /// A mutation that replaces all existing values of the name.
    pub fn overriding(name: http::header::HeaderName, value: Option<http::header::HeaderValue>) -> (r:
        Self)
        ensures
            r@ == (PreparedModel {
                name: name_chars(name),
                value: opt_value_bytes(value),
                mode: InsertHeaderMode::Override,
            }),
    {
        PreparedHeader { name, value, mode: InsertHeaderMode::Override }
    }

    /// A mutation that adds its value after all existing values of the name.
    pub fn appending(name: http::header::HeaderName, value: Option<http::header::HeaderValue>) -> (r:
        Self)
        ensures
            r@ == (PreparedModel {
                name: name_chars(name),
                value: opt_value_bytes(value),
                mode: InsertHeaderMode::Append,
            }),
    {
        PreparedHeader { name, value, mode: InsertHeaderMode::Append }
    }

    /// A mutation that sets its value only when the name holds no value yet.
    pub fn if_not_present(
        name: http::header::HeaderName,
        value: Option<http::header::HeaderValue>,
    ) -> (r: Self)
        ensures
            r@ == (PreparedModel {
                name: name_chars(name),
                value: opt_value_bytes(value),
                mode: InsertHeaderMode::IfNotPresent,
            }),
    {
        PreparedHeader { name, value, mode: InsertHeaderMode::IfNotPresent }
    }

    /// A copy of this mutation with the same model.
    pub fn duplicate(&self) -> (r: Self)
        ensures
            r@ == self@,
    {
        PreparedHeader {
            name: self.name.clone(),
            value: clone_opt_value(&self.value),
            mode: self.mode,
        }
    }
}

/// What one prepared mutation does to the model of a header container.
/// An absent value leaves the container as it is, whatever the mode.
pub open spec fn apply_mode_spec(
    mode: InsertHeaderMode,
    name: Seq<char>,
    value: Option<Seq<u8>>,
    m: Map<Seq<char>, Seq<Seq<u8>>>,
) -> Map<Seq<char>, Seq<Seq<u8>>> {
    match value {
        None => m,
        Some(v) => match mode {
            InsertHeaderMode::Override => m.insert(name, seq![v]),
            InsertHeaderMode::Append => m.insert(name, values_of(m, name).push(v)),
            InsertHeaderMode::IfNotPresent => if m.dom().contains(name) {
                m
            } else {
                m.insert(name, seq![v])
            },
        },
    }
}

/// What a list of prepared mutations does to the model of a header
/// container: each is applied in list order, against the state the earlier
/// ones left behind.
pub open spec fn apply_seq_spec(
    muts: Seq<PreparedModel>,
    m: Map<Seq<char>, Seq<Seq<u8>>>,
) -> Map<Seq<char>, Seq<Seq<u8>>>
    decreases muts.len(),
{
    if muts.len() == 0 {
        m
    } else {
        apply_seq_spec(
            muts.drop_first(),
            apply_mode_spec(muts[0].mode, muts[0].name, muts[0].value, m),
        )
    }
}

/// Peeling a mutation off the end of the list: the rest is applied first,
/// the last one against the resulting state.
pub proof fn lemma_apply_seq_last(muts: Seq<PreparedModel>, m: Map<Seq<char>, Seq<Seq<u8>>>)
    requires
        muts.len() > 0,
    ensures
        apply_seq_spec(muts, m) == apply_mode_spec(
            muts.last().mode,
            muts.last().name,
            muts.last().value,
            apply_seq_spec(muts.drop_last(), m),
        ),
    decreases muts.len(),
{
    reveal_with_fuel(apply_seq_spec, 2);
    if muts.len() == 1 {
        assert(muts.drop_last() =~= Seq::empty());
        assert(muts.drop_first() =~= Seq::empty());
    } else {
        let m1 = apply_mode_spec(muts[0].mode, muts[0].name, muts[0].value, m);
        lemma_apply_seq_last(muts.drop_first(), m1);
        assert(muts.drop_first().drop_last() =~= muts.drop_last().drop_first());
        assert(muts.drop_first().last() == muts.last());
    }
}

/// The views of a list of prepared mutations.
pub open spec fn views_of(s: Seq<PreparedHeader>) -> Seq<PreparedModel> {
    s.map_values(|p: PreparedHeader| p@)
}

/// Whether the live container accepts one prepared mutation: a mutation
/// without a value, or an `IfNotPresent` on a present name, asks nothing
/// of the container and is always accepted; otherwise acceptance is the
/// container's own insert or append decision.
pub open spec fn mode_accepts(
    mode: InsertHeaderMode,
    name: Seq<char>,
    value: Option<Seq<u8>>,
    m: http::header::HeaderMap,
) -> bool {
    match value {
        None => true,
        Some(v) => match mode {
            InsertHeaderMode::Override => insert_accepts(m, name),
            InsertHeaderMode::Append => append_accepts(m, name),
            InsertHeaderMode::IfNotPresent => map_entries(m).dom().contains(name)
                || insert_accepts(m, name),
        },
    }
}

/// [`mode_accepts`] over a prepared mutation's model.
pub open spec fn model_accepts(pm: PreparedModel, m: http::header::HeaderMap) -> bool {
    mode_accepts(pm.mode, pm.name, pm.value, m)
}

/// What a pass over a mutation list owes: the resulting contents are the
/// model application of the first `n` mutations, and the pass stopped
/// short of the whole list only at a mutation the container itself
/// refused — witnessed by a container value holding the contents reached.
pub open spec fn applied_prefix(
    muts: Seq<PreparedModel>,
    m0: Map<Seq<char>, Seq<Seq<u8>>>,
    n: int,
    result: Map<Seq<char>, Seq<Seq<u8>>>,
) -> bool {
    &&& 0 <= n <= muts.len()
    &&& result == apply_seq_spec(muts.take(n), m0)
    &&& n < muts.len() ==> exists|w: http::header::HeaderMap|
        map_entries(w) == apply_seq_spec(muts.take(n), m0) && !model_accepts(muts[n], w)
}

impl InsertHeaderMode {
    /// Applies one prepared mutation to the live container.
    ///
    /// The result is exactly the container's acceptance of the mutation in
    /// its current state: an absent value, or `IfNotPresent` on a present
    /// name, asks nothing and always succeeds. On success the contents
    /// afterwards are the one-step model application; a refusal (only for
    /// want of room) leaves the contents unchanged.
    pub fn apply(
        self,
        header_name: &http::header::HeaderName,
        target: &mut http::header::HeaderMap,
        header_value: Option<http::header::HeaderValue>,
    ) -> (r: bool)
        ensures
            r == mode_accepts(
                self,
                name_chars(*header_name),
                opt_value_bytes(header_value),
                *old(target),
            ),
            r ==> map_entries(*final(target)) == apply_mode_spec(
                self,
                name_chars(*header_name),
                opt_value_bytes(header_value),
                map_entries(*old(target)),
            ),
            !r ==> map_entries(*final(target)) == map_entries(*old(target)),
    {
        if let Some(value) = header_value {
            match self {
                InsertHeaderMode::Override => headers_insert(target, header_name, value),
                InsertHeaderMode::IfNotPresent => {
                    if !headers_contains(target, header_name) {
                        headers_insert(target, header_name, value)
                    } else {
                        true
                    }
                },
                InsertHeaderMode::Append => headers_append(target, header_name, value),
            }
        } else {
            true
        }
    }
}

/// Applies a list of prepared mutations to the live container, in list
/// order.
///
/// Returns how many were carried out: the contents afterwards are the
/// model application of exactly that prefix. The count falls short of the
/// list's length only when the container itself refused the next mutation
/// in the state reached (for want of room); application then stopped
/// there.
pub fn apply_prepared(
    target: &mut http::header::HeaderMap,
    headers: &Vec<PreparedHeader>,
) -> (n: usize)
    ensures
        applied_prefix(
            views_of(headers@),
            map_entries(*old(target)),
            n as int,
            map_entries(*final(target)),
        ),
{
    let ghost m0 = map_entries(*target);
    let mut i: usize = 0;
    while i < headers.len()
        invariant
            i <= headers@.len(),
            map_entries(*target) == apply_seq_spec(views_of(headers@).take(i as int), m0),
            m0 == map_entries(*old(target)),
        decreases headers@.len() - i,
    {
        let ghost attempt_state = *target;
        let h = &headers[i];
        let ok = h.mode.apply(&h.name, target, clone_opt_value(&h.value));
        proof {
            let pre = views_of(headers@).take(i as int);
            let cur = views_of(headers@).take(i + 1 as int);
            assert(cur.drop_last() =~= pre);
            assert(cur.last() == headers@[i as int]@);
            lemma_apply_seq_last(cur, m0);
        }
        if !ok {
            proof {
                assert(map_entries(attempt_state) == apply_seq_spec(
                    views_of(headers@).take(i as int),
                    m0,
                ) && !model_accepts(views_of(headers@)[i as int], attempt_state));
            }
            return i;
        }
        i = i + 1;
    }
    i
}

} // verus!
