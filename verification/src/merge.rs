//! The hook merger: concatenation of two hook bodies' statement sequences,
//! source order preserved, the left side's metadata kept.

use vstd::prelude::*;
use crate::block::{BodyModel, HookBody};

verus! {

/// The statements of `l` followed by the statements of `r`, under `l`'s span.
pub open spec fn merged(l: BodyModel, r: BodyModel) -> BodyModel {
    BodyModel { stmts: l.stmts + r.stmts, span: l.span }
}

/// Merge where either side may be absent: both present merge in order, one
/// present stands alone, both absent stay absent.
pub open spec fn merged_opt(l: Option<BodyModel>, r: Option<BodyModel>) -> Option<BodyModel> {
    match (l, r) {
        (Some(a), Some(b)) => Some(merged(a, b)),
        (Some(a), None) => Some(a),
        (None, b) => b,
    }
}

/// The fully merged runnable content of a generated unit: the enclosing
/// `before` hooks ahead of the node's own body, the enclosing `after` hooks
/// behind it, each side omitted when absent.
pub open spec fn unit_body(
    before: Option<BodyModel>,
    own: BodyModel,
    after: Option<BodyModel>,
) -> BodyModel {
    match (before, after) {
        (Some(b), Some(a)) => merged(merged(b, own), a),
        (Some(b), None) => merged(b, own),
        (None, Some(a)) => merged(own, a),
        (None, None) => own,
    }
}

/// The statement sequence of an optional body; absence contributes nothing.
pub open spec fn opt_stmts(o: Option<BodyModel>) -> Seq<String> {
    match o {
        Some(b) => b.stmts,
        None => Seq::empty(),
    }
}

/// A unit's merged body is, spelled out, `[before?] ++ own ++ [after?]`.
pub proof fn lemma_unit_body_stmts(
    before: Option<BodyModel>,
    own: BodyModel,
    after: Option<BodyModel>,
)
    ensures
        unit_body(before, own, after).stmts =~= opt_stmts(before) + own.stmts + opt_stmts(after),
{
}

/// Concatenates two hook bodies: `left`'s statements followed by `right`'s,
/// no statement reordered, duplicated or dropped; `left`'s span is kept.
pub fn merge_blocks(left: &HookBody, right: &HookBody) -> (r: HookBody)
    ensures
        r@ == merged(left@, right@),
{
    let mut out = left.duplicate();
    let mut i: usize = 0;
    while i < right.stmts.len()
        invariant
            i <= right.stmts.len(),
            out.span == left.span,
            out.stmts@ == left.stmts@ + right.stmts@.subrange(0, i as int),
        decreases right.stmts.len() - i,
    {
        out.stmts.push(right.stmts[i].clone());
        assert(out.stmts@ =~= left.stmts@ + right.stmts@.subrange(0, i as int + 1));
        i = i + 1;
    }
    assert(out.stmts@ =~= left.stmts@ + right.stmts@);
    assert(out@ =~= merged(left@, right@));
    out
}

} // verus!
