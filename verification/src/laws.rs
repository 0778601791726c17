//! The library's laws: what holds of every generation pass, proved once and
//! for all over the generation relation `gen_ok`.

use vstd::prelude::*;
use crate::block::{opt_body, Bench, Block, Describe, HookBody, It};
use crate::generator::{effective, empty_ctx, gen_ok, EffModel};
use crate::merge::merged;
use crate::output::GeneratedItem;

verus! {

/// Absence idempotence: an example with no hooks declared around it and none
/// inherited generates a unit whose body is exactly its own body, unchanged.
pub proof fn lemma_absent_hooks_identity_it(it: It, r: GeneratedItem)
    requires
        gen_ok(Block::It(it), empty_ctx(), r),
    ensures
        r matches GeneratedItem::Unit(u) && u.body@ == it.block@,
{
}

/// Absence idempotence for benchmarks: with no hooks around it and none
/// inherited, a benchmark's generated unit body is exactly its own body.
pub proof fn lemma_absent_hooks_identity_bench(bench: Bench, r: GeneratedItem)
    requires
        gen_ok(Block::Bench(bench), empty_ctx(), r),
    ensures
        r matches GeneratedItem::Unit(u) && u.body@ == bench.block@,
{
}

/// Holds when every namespace inside `item` — the outermost and all nested
/// ones — has the re-export declaration as its last member.
pub open spec fn reexport_last(item: GeneratedItem) -> bool
    decreases item,
{
    match item {
        GeneratedItem::Group(g) => {
            &&& g.items@.len() >= 1
            &&& g.items@.last() is ReExport
            &&& forall|i: int| 0 <= i < g.items@.len() ==> reexport_last(#[trigger] g.items@[i])
        },
        _ => true,
    }
}

/// Group re-export invariant: whatever block is generated and whatever hooks
/// it inherits, every namespace in the result ends with the re-export
/// declaration — with many children or with none.
pub proof fn lemma_reexport_invariant(b: Block, up: EffModel, r: GeneratedItem)
    requires
        gen_ok(b, up, r),
    ensures
        reexport_last(r),
    decreases b,
{
    match b {
        Block::Describe(d) => {
            if let GeneratedItem::Group(g) = r {
                let eff = effective(opt_body(d.before), opt_body(d.after), up);
                assert forall|i: int|
                    0 <= i < g.items@.len() implies reexport_last(#[trigger] g.items@[i]) by {
                    if i < d.blocks@.len() {
                        lemma_reexport_invariant(d.blocks@[i], eff, g.items@[i]);
                    } else {
                        assert(g.items@[i] == g.items@.last());
                    }
                }
            }
        },
        Block::It(_) => {},
        Block::Bench(_) => {},
    }
}

/// Order stability: a group's namespace holds exactly one member per child,
/// in input order — member `i` is the item generated for child `i` under the
/// group's effective hooks — and after them only the re-export declaration.
pub proof fn lemma_order_stability(d: Describe, up: EffModel, r: GeneratedItem)
    requires
        gen_ok(Block::Describe(d), up, r),
    ensures
        r matches GeneratedItem::Group(g) && {
            &&& g.items@.len() == d.blocks@.len() + 1
            &&& g.items@.last() is ReExport
            &&& forall|i: int|
                0 <= i < d.blocks@.len() ==> gen_ok(
                    d.blocks@[i],
                    effective(opt_body(d.before), opt_body(d.after), up),
                    #[trigger] g.items@[i],
                )
        },
{
}

/// Hook inheritance transitivity: in a three-level nesting whose root group
/// declares before `b1` and after `a1`, whose middle group declares no hooks
/// of its own, and whose innermost group declares before `b3` and after `a3`,
/// an example under the innermost group generates a unit that runs
/// `b1 ++ b3 ++ own body ++ a3 ++ a1`, in that order.
pub proof fn lemma_hook_inheritance_transitive(
    root: Describe,
    mid: Describe,
    inner: Describe,
    leaf: It,
    b1: HookBody,
    a1: HookBody,
    b3: HookBody,
    a3: HookBody,
    i: int,
    j: int,
    k: int,
    r: GeneratedItem,
)
    requires
        gen_ok(Block::Describe(root), empty_ctx(), r),
        root.before == Some(b1),
        root.after == Some(a1),
        mid.before is None,
        mid.after is None,
        inner.before == Some(b3),
        inner.after == Some(a3),
        0 <= i < root.blocks@.len(),
        root.blocks@[i] == Block::Describe(mid),
        0 <= j < mid.blocks@.len(),
        mid.blocks@[j] == Block::Describe(inner),
        0 <= k < inner.blocks@.len(),
        inner.blocks@[k] == Block::It(leaf),
    ensures
        r matches GeneratedItem::Group(g0) && g0.items@[i] matches GeneratedItem::Group(g1)
            && g1.items@[j] matches GeneratedItem::Group(g2)
            && g2.items@[k] matches GeneratedItem::Unit(u)
            && u.body@.stmts =~= b1@.stmts + b3@.stmts + leaf.block@.stmts + a3@.stmts + a1@.stmts,
{
    let eff0 = effective(opt_body(root.before), opt_body(root.after), empty_ctx());
    assert(eff0 =~= EffModel { before: Some(b1@), after: Some(a1@) });
    let g0 = r->Group_0;
    assert(gen_ok(Block::Describe(mid), eff0, g0.items@[i]));
    let eff1 = effective(opt_body(mid.before), opt_body(mid.after), eff0);
    assert(eff1 =~= eff0);
    let g1 = g0.items@[i]->Group_0;
    assert(gen_ok(Block::Describe(inner), eff1, g1.items@[j]));
    let eff2 = effective(opt_body(inner.before), opt_body(inner.after), eff1);
    assert(eff2 =~= EffModel {
        before: Some(merged(b1@, b3@)),
        after: Some(merged(a3@, a1@)),
    });
    let g2 = g1.items@[j]->Group_0;
    assert(gen_ok(Block::It(leaf), eff2, g2.items@[k]));
    let u = g2.items@[k]->Unit_0;
    assert(u.body@.stmts =~= b1@.stmts + b3@.stmts + leaf.block@.stmts + a3@.stmts + a1@.stmts);
}

} // verus!
