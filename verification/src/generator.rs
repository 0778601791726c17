//! Generation: dispatch on the block variant, merge the hooks a node inherits
//! with its own, and build the output tree — units for leaves, namespaces for
//! groups, children in input order, the re-export appended last.

use vstd::prelude::*;
use crate::block::{opt_body, Bench, Block, BodyModel, Describe, HookBody, It};
use crate::merge::{merge_blocks, merged_opt, unit_body};
use crate::output::{GeneratedGroup, GeneratedItem, GeneratedUnit, UnitKind};

verus! {

/// The effective before/after pair a node inherits from its nearest enclosing
/// group: that group's own hooks already merged with everything above it.
/// Transient — rebuilt for each group during a generation pass.
#[derive(Debug)]
pub struct EffectiveHooks {
    pub before: Option<HookBody>,
    pub after: Option<HookBody>,
}

/// The mathematical value of an effective-hooks pair.
#[verifier::ext_equal]
pub struct EffModel {
    pub before: Option<BodyModel>,
    pub after: Option<BodyModel>,
}

impl View for EffectiveHooks {
    type V = EffModel;

    open spec fn view(&self) -> EffModel {
        EffModel { before: opt_body(self.before), after: opt_body(self.after) }
    }
}

/// The empty context: no inherited hooks, as at the root of the tree.
pub open spec fn empty_ctx() -> EffModel {
    EffModel { before: None, after: None }
}

/// The context a node is generated under: the enclosing group's effective
/// hooks, or the empty context at the root of the tree.
pub open spec fn ctx_model(up: Option<&EffectiveHooks>) -> EffModel {
    match up {
        Some(e) => e@,
        None => empty_ctx(),
    }
}

/// A group's effective hooks: inherited `before` hooks run first, ahead of
/// the group's own; inherited `after` hooks run last, behind the group's own.
pub open spec fn effective(
    own_before: Option<BodyModel>,
    own_after: Option<BodyModel>,
    up: EffModel,
) -> EffModel {
    EffModel {
        before: merged_opt(up.before, own_before),
        after: merged_opt(own_after, up.after),
    }
}

/// What generating block `b` under the enclosing effective hooks `up` returns:
/// pins the generated item `r` member by member. An example becomes a
/// test-marked unit and a benchmark a bench-marked unit with its one injected
/// parameter, each with body `before ++ own ++ after`; a group becomes a
/// namespace named after it holding each child generated under the group's
/// effective hooks, in input order, with the re-export declaration last.
pub open spec fn gen_ok(b: Block, up: EffModel, r: GeneratedItem) -> bool
    decreases b,
{
    match b {
        Block::Describe(d) => match r {
            GeneratedItem::Group(g) => {
                let eff = effective(opt_body(d.before), opt_body(d.after), up);
                &&& g.name == d.name
                &&& g.items@.len() == d.blocks@.len() + 1
                &&& g.items@.last() is ReExport
                &&& forall|i: int|
                    0 <= i < d.blocks@.len() ==> gen_ok(
                        d.blocks@[i],
                        eff,
                        #[trigger] g.items@[i],
                    )
            },
            _ => false,
        },
        Block::It(it) => match r {
            GeneratedItem::Unit(u) => {
                &&& u.name == it.name
                &&& u.kind == UnitKind::Test
                &&& u.params@ == Seq::<String>::empty()
                &&& u.body@ == unit_body(up.before, it.block@, up.after)
            },
            _ => false,
        },
        Block::Bench(bench) => match r {
            GeneratedItem::Unit(u) => {
                &&& u.name == bench.name
                &&& u.kind == UnitKind::Bench
                &&& u.params@ == seq![bench.ident]
                &&& u.body@ == unit_body(up.before, bench.block@, up.after)
            },
            _ => false,
        },
    }
}

/// The effective `before` of a group: the enclosing `before` ahead of the
/// group's own; whichever of the two is present; absent when both are.
fn eff_before(up: Option<&EffectiveHooks>, own: Option<HookBody>) -> (r: Option<HookBody>)
    ensures
        opt_body(r) == merged_opt(ctx_model(up).before, opt_body(own)),
{
    match up {
        None => own,
        Some(e) => match &e.before {
            None => own,
            Some(ub) => match own {
                Some(ob) => Some(merge_blocks(ub, &ob)),
                None => Some(ub.duplicate()),
            },
        },
    }
}

/// The effective `after` of a group: the group's own ahead of the enclosing
/// `after`; whichever of the two is present; absent when both are.
fn eff_after(up: Option<&EffectiveHooks>, own: Option<HookBody>) -> (r: Option<HookBody>)
    ensures
        opt_body(r) == merged_opt(opt_body(own), ctx_model(up).after),
{
    match up {
        None => own,
        Some(e) => match &e.after {
            None => own,
            Some(ua) => match own {
                Some(oa) => Some(merge_blocks(&oa, ua)),
                None => Some(ua.duplicate()),
            },
        },
    }
}

/// A unit's runnable body: the enclosing `before` hooks, the node's own body,
/// the enclosing `after` hooks, each hook side omitted when absent.
fn build_unit_body(up: Option<&EffectiveHooks>, own: HookBody) -> (r: HookBody)
    ensures
        r@ == unit_body(ctx_model(up).before, own@, ctx_model(up).after),
{
    match up {
        None => own,
        Some(e) => match (&e.before, &e.after) {
            (Some(before), Some(after)) => merge_blocks(&merge_blocks(before, &own), after),
            (Some(before), None) => merge_blocks(before, &own),
            (None, Some(after)) => merge_blocks(&own, after),
            (None, None) => own,
        },
    }
}

/// Generation, uniformly over the node kinds. Each implementing type stands
/// for one block of the input tree; `generate` turns it into the executable
/// item the back end will emit.
pub trait Generate: Sized {
    /// The input-tree block this node stands for.
    spec fn block_form(self) -> Block;

    /// Generates the executable item for this node. `up` carries the
    /// effective hooks of the nearest enclosing group, already merged with
    /// everything inherited from above it, or nothing at the tree root.
    fn generate(self, up: Option<&EffectiveHooks>) -> (r: GeneratedItem)
        ensures
            gen_ok(self.block_form(), ctx_model(up), r),
    ;
}

impl Generate for Block {
    open spec fn block_form(self) -> Block {
        self
    }

    fn generate(self, up: Option<&EffectiveHooks>) -> (r: GeneratedItem) {
        Block::generate(self, up)
    }
}

impl Generate for Describe {
    open spec fn block_form(self) -> Block {
        Block::Describe(self)
    }

    fn generate(self, up: Option<&EffectiveHooks>) -> (r: GeneratedItem) {
        Describe::generate(self, up)
    }
}

impl Generate for It {
    open spec fn block_form(self) -> Block {
        Block::It(self)
    }

    fn generate(self, up: Option<&EffectiveHooks>) -> (r: GeneratedItem) {
        It::generate(self, up)
    }
}

impl Generate for Bench {
    open spec fn block_form(self) -> Block {
        Block::Bench(self)
    }

    fn generate(self, up: Option<&EffectiveHooks>) -> (r: GeneratedItem) {
        Bench::generate(self, up)
    }
}

impl Block {
    /// Dispatches on the variant to the describe, it or bench generation rule.
    pub fn generate(self, up: Option<&EffectiveHooks>) -> (r: GeneratedItem)
        ensures
            gen_ok(self, ctx_model(up), r),
        decreases self,
    {
        match self {
            Block::Describe(describe) => describe.generate(up),
            Block::It(it) => it.generate(up),
            Block::Bench(bench) => bench.generate(up),
        }
    }
}

impl Describe {
    /// Generates the group's namespace: merges the inherited hooks with the
    /// group's own, generates every child under that effective pair in input
    /// order, and appends the re-export declaration last.
    #[verifier::loop_isolation(false)]
    pub fn generate(self, up: Option<&EffectiveHooks>) -> (r: GeneratedItem)
        ensures
            gen_ok(Block::Describe(self), ctx_model(up), r),
        decreases self,
    {
        let Describe { name, before, after, blocks } = self;
        let eff = EffectiveHooks { before: eff_before(up, before), after: eff_after(up, after) };

        let mut blocks = blocks;
        let ghost all = blocks@;
        let n = blocks.len();
        let mut items: Vec<GeneratedItem> = Vec::new();
        let mut i: usize = 0;
        while i < n
            invariant
                i <= n,
                blocks@ == all.subrange(i as int, n as int),
                items@.len() == i,
                forall|j: int| 0 <= j < i ==> gen_ok(all[j], eff@, #[trigger] items@[j]),
            decreases n - i,
        {
            let child = blocks.remove(0);
            assert(blocks@ =~= all.subrange(i as int + 1, n as int));
            let generated = child.generate(Some(&eff));
            items.push(generated);
            i = i + 1;
        }
        items.push(GeneratedItem::ReExport);
        GeneratedItem::Group(GeneratedGroup { name, items })
    }
}

impl It {
    /// Generates the example's executable unit: a test-marked unit, no
    /// parameters, body wrapped in the enclosing hooks.
    pub fn generate(self, up: Option<&EffectiveHooks>) -> (r: GeneratedItem)
        ensures
            gen_ok(Block::It(self), ctx_model(up), r),
    {
        let It { name, block } = self;
        let body = build_unit_body(up, block);
        GeneratedItem::Unit(
            GeneratedUnit { name, kind: UnitKind::Test, params: Vec::new(), body },
        )
    }
}

impl Bench {
    /// Generates the benchmark's executable unit: a bench-marked unit whose
    /// one parameter is the declared timer-handle identifier, body wrapped in
    /// the enclosing hooks.
    pub fn generate(self, up: Option<&EffectiveHooks>) -> (r: GeneratedItem)
        ensures
            gen_ok(Block::Bench(self), ctx_model(up), r),
    {
        let Bench { name, ident, block } = self;
        let ghost timer = ident;
        let mut params: Vec<String> = Vec::new();
        params.push(ident);
        assert(params@ =~= seq![timer]);
        let body = build_unit_body(up, block);
        GeneratedItem::Unit(
            GeneratedUnit { name, kind: UnitKind::Bench, params, body },
        )
    }
}

} // verus!
