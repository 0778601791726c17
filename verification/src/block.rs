//! The input data model: a tree of `Describe` groups, `It` examples and
//! `Bench` benchmarks, each body an ordered sequence of opaque statements.

use vstd::prelude::*;

verus! {

/// Source-location metadata carried by a hook body. When two bodies are
/// merged, the left side's span stands for the merged body.
#[derive(Clone, Copy, PartialEq, Eq, Structural, Debug)]
pub struct Span {
    pub lo: u64,
    pub hi: u64,
}

/// An ordered sequence of opaque host-language statements, together with its
/// source-location metadata. Immutable once constructed; `duplicate` makes a
/// structural copy.
#[derive(PartialEq, Eq, Debug)]
pub struct HookBody {
    pub stmts: Vec<String>,
    pub span: Span,
}

/// The mathematical value of a hook body: its statement sequence and span.
#[verifier::ext_equal]
pub struct BodyModel {
    pub stmts: Seq<String>,
    pub span: Span,
}

impl View for HookBody {
    type V = BodyModel;

    open spec fn view(&self) -> BodyModel {
        BodyModel { stmts: self.stmts@, span: self.span }
    }
}

impl HookBody {
    /// Structural copy of the body: same statements, same span.
    pub fn duplicate(&self) -> (r: HookBody)
        ensures
            r@ == self@,
    {
        let mut stmts: Vec<String> = Vec::new();
        let mut i: usize = 0;
        while i < self.stmts.len()
            invariant
                i <= self.stmts.len(),
                stmts@ == self.stmts@.subrange(0, i as int),
            decreases self.stmts.len() - i,
        {
            stmts.push(self.stmts[i].clone());
            assert(stmts@ =~= self.stmts@.subrange(0, i as int + 1));
            i = i + 1;
        }
        assert(stmts@ =~= self.stmts@);
        HookBody { stmts, span: self.span }
    }
}

/// The model of an optional hook body: present bodies by value, absence kept.
pub open spec fn opt_body(o: Option<HookBody>) -> Option<BodyModel> {
    match o {
        Some(h) => Some(h@),
        None => None,
    }
}

/// One node of the input tree.
#[derive(Debug)]
pub enum Block {
    Describe(Describe),
    It(It),
    Bench(Bench),
}

/// A named group: optional shared `before`/`after` hooks and an ordered
/// sequence of child blocks. Child order is significant: it fixes the order
/// in which units appear in the generated namespace.
#[derive(Debug)]
pub struct Describe {
    pub name: String,
    pub before: Option<HookBody>,
    pub after: Option<HookBody>,
    pub blocks: Vec<Block>,
}

/// One example: a leaf whose body is the test's own executable content.
#[derive(Debug)]
pub struct It {
    pub name: String,
    pub block: HookBody,
}

/// One benchmark: a leaf whose body runs with a single injected parameter
/// (the benchmark-timer handle) named `ident` in scope.
#[derive(Debug)]
pub struct Bench {
    pub name: String,
    pub ident: String,
    pub block: HookBody,
}

} // verus!
