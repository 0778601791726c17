use suitegen::block::{Bench, Block, Describe, HookBody, It, Span};
use suitegen::generator::{EffectiveHooks, Generate};
use suitegen::merge::merge_blocks;
use suitegen::output::{GeneratedGroup, GeneratedItem, GeneratedUnit, UnitKind};

fn body(stmts: &[&str], lo: u64, hi: u64) -> HookBody {
    HookBody {
        stmts: stmts.iter().map(|s| String::from(*s)).collect(),
        span: Span { lo, hi },
    }
}

fn stmt_strs(b: &HookBody) -> Vec<&str> {
    b.stmts.iter().map(|s| s.as_str()).collect()
}

fn as_unit(item: GeneratedItem) -> GeneratedUnit {
    match item {
        GeneratedItem::Unit(u) => u,
        other => panic!("expected a unit, got {:?}", other),
    }
}

fn as_group(item: GeneratedItem) -> GeneratedGroup {
    match item {
        GeneratedItem::Group(g) => g,
        other => panic!("expected a group, got {:?}", other),
    }
}

#[test]
fn merge_preserves_order() {
    let left = body(&["a", "b"], 1, 2);
    let right = body(&["c"], 3, 4);
    let merged = merge_blocks(&left, &right);
    assert_eq!(stmt_strs(&merged), vec!["a", "b", "c"]);
    assert_eq!(merged.span, Span { lo: 1, hi: 2 });
}

#[test]
fn merge_with_empty_sides() {
    let empty = body(&[], 9, 9);
    let full = body(&["x", "y"], 5, 6);
    assert_eq!(stmt_strs(&merge_blocks(&empty, &full)), vec!["x", "y"]);
    assert_eq!(merge_blocks(&empty, &full).span, Span { lo: 9, hi: 9 });
    assert_eq!(stmt_strs(&merge_blocks(&full, &empty)), vec!["x", "y"]);
    assert_eq!(stmt_strs(&merge_blocks(&empty, &empty)), Vec::<&str>::new());
}

#[test]
fn duplicate_is_structural_copy() {
    let original = body(&["setup", "run"], 7, 11);
    let copy = original.duplicate();
    assert_eq!(copy, original);
}

#[test]
fn it_without_hooks_keeps_body() {
    let example = It { name: String::from("works"), block: body(&["own"], 0, 1) };
    let unit = as_unit(Generate::generate(example, None));
    assert_eq!(unit.name, "works");
    assert_eq!(unit.kind, UnitKind::Test);
    assert_eq!(unit.params, Vec::<String>::new());
    assert_eq!(unit.body, body(&["own"], 0, 1));
}

#[test]
fn bench_without_hooks_keeps_body() {
    let bench = Bench {
        name: String::from("fast"),
        ident: String::from("timer"),
        block: body(&["spin"], 2, 3),
    };
    let unit = as_unit(bench.generate(None));
    assert_eq!(unit.name, "fast");
    assert_eq!(unit.kind, UnitKind::Bench);
    assert_eq!(unit.params, vec![String::from("timer")]);
    assert_eq!(unit.body, body(&["spin"], 2, 3));
}

#[test]
fn it_wrapped_by_effective_hooks() {
    let ctx = EffectiveHooks {
        before: Some(body(&["open"], 1, 1)),
        after: Some(body(&["close"], 2, 2)),
    };
    let example = It { name: String::from("mid"), block: body(&["act"], 3, 3) };
    let unit = as_unit(example.generate(Some(&ctx)));
    assert_eq!(stmt_strs(&unit.body), vec!["open", "act", "close"]);
    // the merged body borrows the left-most segment's metadata
    assert_eq!(unit.body.span, Span { lo: 1, hi: 1 });
}

#[test]
fn empty_group_holds_only_reexport() {
    let group = Describe {
        name: String::from("empty"),
        before: None,
        after: None,
        blocks: vec![],
    };
    let generated = as_group(group.generate(None));
    assert_eq!(generated.name, "empty");
    assert_eq!(generated.items, vec![GeneratedItem::ReExport]);
}

#[test]
fn children_keep_input_order_and_reexport_is_last() {
    let group = Describe {
        name: String::from("ordered"),
        before: None,
        after: None,
        blocks: vec![
            Block::It(It { name: String::from("first"), block: body(&["1"], 0, 0) }),
            Block::Bench(Bench {
                name: String::from("second"),
                ident: String::from("t"),
                block: body(&["2"], 0, 0),
            }),
            Block::It(It { name: String::from("third"), block: body(&["3"], 0, 0) }),
        ],
    };
    let generated = as_group(group.generate(None));
    assert_eq!(generated.items.len(), 4);
    let mut names = Vec::new();
    for item in &generated.items {
        match item {
            GeneratedItem::Unit(u) => names.push(u.name.as_str()),
            GeneratedItem::Group(g) => names.push(g.name.as_str()),
            GeneratedItem::ReExport => names.push("<reexport>"),
        }
    }
    assert_eq!(names, vec!["first", "second", "third", "<reexport>"]);
}

#[test]
fn nested_groups_end_with_reexport() {
    let tree = Describe {
        name: String::from("outer"),
        before: None,
        after: None,
        blocks: vec![Block::Describe(Describe {
            name: String::from("inner"),
            before: None,
            after: None,
            blocks: vec![],
        })],
    };
    let outer = as_group(tree.generate(None));
    assert_eq!(outer.items.len(), 2);
    assert_eq!(outer.items[1], GeneratedItem::ReExport);
    let inner = match &outer.items[0] {
        GeneratedItem::Group(g) => g,
        other => panic!("expected the inner group, got {:?}", other),
    };
    assert_eq!(inner.name, "inner");
    assert_eq!(inner.items, vec![GeneratedItem::ReExport]);
}

#[test]
fn suite_group_works_scenario() {
    // root "suite" with before = [a], child "group" with before = [b],
    // after = [c], holding It "works" with body [d]
    let tree = Describe {
        name: String::from("suite"),
        before: Some(body(&["a"], 1, 1)),
        after: None,
        blocks: vec![Block::Describe(Describe {
            name: String::from("group"),
            before: Some(body(&["b"], 2, 2)),
            after: Some(body(&["c"], 3, 3)),
            blocks: vec![Block::It(It {
                name: String::from("works"),
                block: body(&["d"], 4, 4),
            })],
        })],
    };
    let suite = as_group(tree.generate(None));
    assert_eq!(suite.name, "suite");
    let group = match &suite.items[0] {
        GeneratedItem::Group(g) => g,
        other => panic!("expected the child group, got {:?}", other),
    };
    assert_eq!(group.name, "group");
    let unit = match &group.items[0] {
        GeneratedItem::Unit(u) => u,
        other => panic!("expected the unit, got {:?}", other),
    };
    assert_eq!(unit.name, "works");
    assert_eq!(unit.kind, UnitKind::Test);
    assert_eq!(stmt_strs(&unit.body), vec!["a", "b", "d", "c"]);
}

#[test]
fn bench_inherits_after_hook() {
    // a Bench with parameter `bencher` and body [timed_call] nested under a
    // Describe with after = [cleanup]
    let tree = Describe {
        name: String::from("perf"),
        before: None,
        after: Some(body(&["cleanup"], 8, 8)),
        blocks: vec![Block::Bench(Bench {
            name: String::from("measure"),
            ident: String::from("bencher"),
            block: body(&["timed_call"], 9, 9),
        })],
    };
    let group = as_group(tree.generate(None));
    let unit = match &group.items[0] {
        GeneratedItem::Unit(u) => u,
        other => panic!("expected the benchmark unit, got {:?}", other),
    };
    assert_eq!(unit.kind, UnitKind::Bench);
    assert_eq!(unit.params, vec![String::from("bencher")]);
    assert_eq!(stmt_strs(&unit.body), vec!["timed_call", "cleanup"]);
}

#[test]
fn hooks_accumulate_over_three_levels() {
    // before hooks at the root and the innermost group only: the unit runs
    // root-before, inner-before, its own body, inner-after, root-after
    let tree = Describe {
        name: String::from("level1"),
        before: Some(body(&["B1"], 1, 1)),
        after: Some(body(&["A1"], 1, 1)),
        blocks: vec![Block::Describe(Describe {
            name: String::from("level2"),
            before: None,
            after: None,
            blocks: vec![Block::Describe(Describe {
                name: String::from("level3"),
                before: Some(body(&["B3"], 3, 3)),
                after: Some(body(&["A3"], 3, 3)),
                blocks: vec![Block::It(It {
                    name: String::from("example"),
                    block: body(&["E"], 5, 5),
                })],
            })],
        })],
    };
    let level1 = as_group(tree.generate(None));
    let level2 = match &level1.items[0] {
        GeneratedItem::Group(g) => g,
        other => panic!("expected level2, got {:?}", other),
    };
    let level3 = match &level2.items[0] {
        GeneratedItem::Group(g) => g,
        other => panic!("expected level3, got {:?}", other),
    };
    let unit = match &level3.items[0] {
        GeneratedItem::Unit(u) => u,
        other => panic!("expected the example unit, got {:?}", other),
    };
    assert_eq!(stmt_strs(&unit.body), vec!["B1", "B3", "E", "A3", "A1"]);
}

#[test]
fn block_dispatch_matches_variant() {
    let leaf = Block::It(It { name: String::from("leaf"), block: body(&["x"], 0, 0) });
    match leaf.generate(None) {
        GeneratedItem::Unit(u) => assert_eq!(u.kind, UnitKind::Test),
        other => panic!("expected a unit, got {:?}", other),
    }
    let group = Block::Describe(Describe {
        name: String::from("g"),
        before: None,
        after: None,
        blocks: vec![],
    });
    match group.generate(None) {
        GeneratedItem::Group(g) => assert_eq!(g.name, "g"),
        other => panic!("expected a group, got {:?}", other),
    }
}
