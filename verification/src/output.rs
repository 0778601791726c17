//! The output data model: standalone executable-unit definitions and the
//! namespaces that group them, ready for a back end to emit.

use vstd::prelude::*;
use crate::block::HookBody;

verus! {

/// The marker a generated unit carries for the host test harness.
#[derive(Clone, Copy, PartialEq, Eq, Structural, Debug)]
pub enum UnitKind {
    /// The unit is a test example.
    Test,
    /// The unit is a benchmark.
    Bench,
}

/// One executable-unit definition: a name, the harness marker, the injected
/// parameters (none for a test, the timer handle for a benchmark) and the
/// fully merged runnable body.
#[derive(PartialEq, Eq, Debug)]
pub struct GeneratedUnit {
    pub name: String,
    pub kind: UnitKind,
    pub params: Vec<String>,
    pub body: HookBody,
}

/// A generated namespace: its members in order, the last one always the
/// re-export of the enclosing scope.
#[derive(PartialEq, Eq, Debug)]
pub struct GeneratedGroup {
    pub name: String,
    pub items: Vec<GeneratedItem>,
}

/// One member of a generated namespace.
#[derive(PartialEq, Eq, Debug)]
pub enum GeneratedItem {
    Unit(GeneratedUnit),
    Group(GeneratedGroup),
    /// The declaration that re-exports everything visible in the enclosing
    /// scope, so names above a group stay visible to its units.
    ReExport,
}

} // verus!
