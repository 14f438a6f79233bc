//! The library's laws: what holds of chain composition and of the
//! insertion modes, proved once and for all over the model.

use vstd::prelude::*;

use crate::chain::{And, MakeFullHeader, MakeHeaders, NoopMakeHeaders};
use crate::mutation::{apply_mode_spec, apply_seq_spec, views_of, InsertHeaderMode, PreparedHeader, PreparedModel};
use crate::headers::values_of;

verus! {

/// The empty chain yields no mutations, for any message.
pub proof fn lemma_empty_chain_yields_none<T>(m: T)
    ensures
        (NoopMakeHeaders {  }).headers_spec(m).len() == 0,
{
}

/// Composing one rule onto a chain adds exactly one mutation to its yield,
/// for any message: a chain of N composed rules yields N mutations beyond
/// whatever its base chain yields.
pub proof fn lemma_composed_chain_adds_one<T, L: MakeFullHeader<T>, R: MakeHeaders<T>>(
    c: And<L, R>,
    m: T,
)
    ensures
        c.headers_spec(m).len() == c.right.headers_spec(m).len() + 1,
        c.headers_spec(m).last() == c.left.header_spec(m),
        c.headers_spec(m).drop_last() == c.right.headers_spec(m),
{
    assert(c.headers_spec(m).drop_last() =~= c.right.headers_spec(m));
}

/// Override leaves exactly one value under the name: the override's own,
/// whatever values were there before.
pub proof fn lemma_override_leaves_exactly_one(
    name: Seq<char>,
    v: Seq<u8>,
    m: Map<Seq<char>, Seq<Seq<u8>>>,
)
    ensures
        values_of(apply_mode_spec(InsertHeaderMode::Override, name, Some(v), m), name) == seq![v],
{
}

/// Append to a name with K existing values leaves K + 1 values: the
/// existing ones in their order, the new value last.
pub proof fn lemma_append_adds_last(name: Seq<char>, v: Seq<u8>, m: Map<Seq<char>, Seq<Seq<u8>>>)
    ensures
        values_of(apply_mode_spec(InsertHeaderMode::Append, name, Some(v), m), name) == values_of(
            m,
            name,
        ).push(v),
        values_of(apply_mode_spec(InsertHeaderMode::Append, name, Some(v), m), name).len()
            == values_of(m, name).len() + 1,
        values_of(apply_mode_spec(InsertHeaderMode::Append, name, Some(v), m), name).last() == v,
{
}

/// IfNotPresent inserts its value where the name has no value yet, and
/// leaves the container untouched where it has one or more.
pub proof fn lemma_if_not_present(name: Seq<char>, v: Seq<u8>, m: Map<Seq<char>, Seq<Seq<u8>>>)
    ensures
        !m.dom().contains(name) ==> values_of(
            apply_mode_spec(InsertHeaderMode::IfNotPresent, name, Some(v), m),
            name,
        ) == seq![v],
        m.dom().contains(name) ==> apply_mode_spec(
            InsertHeaderMode::IfNotPresent,
            name,
            Some(v),
            m,
        ) == m,
{
}

/// An IfNotPresent after an Override of the same name, in the same pass,
/// is a no-op: the overridden value alone remains.
pub proof fn lemma_override_then_if_not_present(
    name: Seq<char>,
    v: Seq<u8>,
    w: Seq<u8>,
    m: Map<Seq<char>, Seq<Seq<u8>>>,
)
    ensures
        apply_mode_spec(
            InsertHeaderMode::IfNotPresent,
            name,
            Some(w),
            apply_mode_spec(InsertHeaderMode::Override, name, Some(v), m),
        ) == apply_mode_spec(InsertHeaderMode::Override, name, Some(v), m),
        values_of(
            apply_mode_spec(
                InsertHeaderMode::IfNotPresent,
                name,
                Some(w),
                apply_mode_spec(InsertHeaderMode::Override, name, Some(v), m),
            ),
            name,
        ) == seq![v],
{
}

/// A mutation without a value leaves the container exactly as it was,
/// whatever its insertion mode.
pub proof fn lemma_absent_value_is_skipped(
    mode: InsertHeaderMode,
    name: Seq<char>,
    m: Map<Seq<char>, Seq<Seq<u8>>>,
)
    ensures
        apply_mode_spec(mode, name, None, m) == m,
{
}

/// Re-applying an Override or IfNotPresent mutation right after a first
/// application changes nothing more: the pair leaves exactly the contents
/// of the first application. (Append is deliberately not idempotent: each
/// application adds one value.) At the live container, the applier's
/// contract then gives the same: a repeated identical call either is
/// accepted and re-yields these contents, or is refused and leaves them
/// untouched.
pub proof fn lemma_reapply_idempotent(
    mode: InsertHeaderMode,
    name: Seq<char>,
    v: Seq<u8>,
    m: Map<Seq<char>, Seq<Seq<u8>>>,
)
    requires
        mode != InsertHeaderMode::Append,
    ensures
        apply_mode_spec(mode, name, Some(v), apply_mode_spec(mode, name, Some(v), m))
            == apply_mode_spec(mode, name, Some(v), m),
{
    let once = apply_mode_spec(mode, name, Some(v), m);
    let twice = apply_mode_spec(mode, name, Some(v), once);
    assert(twice =~= once);
}

/// A name no mutation of the pass targets keeps exactly the values it
/// had, and stays present or absent as it was.
pub proof fn lemma_untargeted_name_unchanged(
    muts: Seq<PreparedModel>,
    name: Seq<char>,
    m: Map<Seq<char>, Seq<Seq<u8>>>,
)
    requires
        forall|i: int| 0 <= i < muts.len() ==> (#[trigger] muts[i]).name != name,
    ensures
        values_of(apply_seq_spec(muts, m), name) == values_of(m, name),
        apply_seq_spec(muts, m).dom().contains(name) == m.dom().contains(name),
    decreases muts.len(),
{
    if muts.len() > 0 {
        let m1 = apply_mode_spec(muts[0].mode, muts[0].name, muts[0].value, m);
        lemma_untargeted_name_unchanged(muts.drop_first(), name, m1);
    }
}

/// Idempotence of evaluation: evaluating a chain twice against the same
/// unchanged snapshot yields the same mutation list both times, so
/// re-running it prescribes the same container mutations each time.
pub fn evaluate_twice<M: MakeHeaders<http::header::HeaderMap>>(
    make: &mut M,
    snapshot: &http::header::HeaderMap,
) -> (r: (Vec<PreparedHeader>, Vec<PreparedHeader>))
    ensures
        views_of(r.0@) == views_of(r.1@),
        views_of(r.0@) == old(make).headers_spec(*snapshot),
{
    let first = make.make_headers(snapshot);
    let second = make.make_headers(snapshot);
    (first, second)
}

} // verus!
