//! Laws of the two construction components, stated over the mathematical
//! models and proved once for all inputs.
//!
//! The setter component's per-call behaviour is fully captured by the
//! `ensures` clauses in [`crate::setter`]; the laws here relate several
//! calls, or relate the builder component's recording operations to what
//! [`crate::builder::RootBuilder::build`] finally produces.

use crate::builder::{ItemBuilderV, RootBuilderV};
use crate::model::{ItemV, RootV};
use vstd::prelude::*;

verus! {

/// Defaulting is idempotent: building from a builder with no field
/// recorded yields exactly the default-constructed aggregate, and likewise
/// for items.
pub proof fn lemma_empty_builder_builds_default()
    ensures
        RootBuilderV::empty().overlay() == RootV::defaulted(),
        ItemBuilderV::empty().overlay() == ItemV::defaulted(),
{
}

/// A scalar field recorded in a builder is read back unchanged from the
/// built aggregate, whatever else the builder holds.
pub proof fn lemma_build_applies_recorded_scalars(
    b: RootBuilderV,
    number: u8,
    boolean: bool,
    string: Seq<char>,
)
    ensures
        (RootBuilderV { number: Some(number), ..b }).overlay().number == number,
        (RootBuilderV { boolean: Some(boolean), ..b }).overlay().boolean == boolean,
        (RootBuilderV { string: Some(string), ..b }).overlay().string == string,
        (ItemBuilderV { number: Some(number) }).overlay().number == number,
{
}

/// Sequence append order is preserved: pushing `a` and then `c` appends
/// exactly `[a, c]`, in that order, to the sequence.
pub proof fn lemma_pushes_keep_order(l: Seq<ItemV>, a: ItemV, c: ItemV)
    ensures
        l.push(a).push(c) == l + seq![a, c],
        Seq::<ItemV>::empty().push(a).push(c) == seq![a, c],
{
    assert(l.push(a).push(c) =~= l + seq![a, c]);
    assert(Seq::<ItemV>::empty().push(a).push(c) =~= seq![a, c]);
}

/// The builder's list contributions are applied by build in call order:
/// two successive contributions append their items, in order, after what
/// the builder would otherwise produce.
pub proof fn lemma_list_contributions_keep_order(b: RootBuilderV, a: ItemV, c: ItemV)
    ensures
        b.record_listitem(a).record_listitem(c).overlay().listitems == b.overlay().listitems
            + seq![a, c],
{
    match b.listitems {
        Some(l) => {
            assert(l.push(a).push(c) =~= l + seq![a, c]);
        },
        None => {
            assert(seq![a].push(c) =~= Seq::<ItemV>::empty() + seq![a, c]);
        },
    }
}

/// Map bindings resolve last-write-wins: binding `k` twice keeps only the
/// later value, and binds `k` exactly once.
pub proof fn lemma_map_bindings_last_write_wins(
    m: Map<Seq<char>, ItemV>,
    k: Seq<char>,
    a: ItemV,
    c: ItemV,
)
    ensures
        m.insert(k, a).insert(k, c) == m.insert(k, c),
        m.insert(k, a).insert(k, c)[k] == c,
        m.insert(k, a).insert(k, c).dom() == m.dom().insert(k),
        Map::<Seq<char>, ItemV>::empty().insert(k, a).insert(k, c).dom().len() == 1,
{
    assert(m.insert(k, a).insert(k, c) =~= m.insert(k, c));
    assert(m.insert(k, a).insert(k, c).dom() =~= m.dom().insert(k));
    assert(Map::<Seq<char>, ItemV>::empty().insert(k, a).insert(k, c).dom() =~= Set::empty().insert(
        k,
    ));
}

/// The builder's map contributions are applied by build last-write-wins:
/// contributing to `k` twice leaves the built mapping with only the later
/// binding of `k`.
pub proof fn lemma_map_contributions_last_write_wins(
    b: RootBuilderV,
    k: Seq<char>,
    a: ItemV,
    c: ItemV,
)
    ensures
        b.record_mapitem(k, a).record_mapitem(k, c).overlay().mapitems
            == b.overlay().mapitems.insert(k, c),
{
    match b.mapitems {
        Some(m) => {
            assert(m.insert(k, a).insert(k, c) =~= m.insert(k, c));
        },
        None => {
            assert(Map::<Seq<char>, ItemV>::empty().insert(k, a).insert(k, c)
                =~= Map::<Seq<char>, ItemV>::empty().insert(k, c));
        },
    }
}

} // verus!
