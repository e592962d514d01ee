//! What a report names of a `.feature` file.

use crate::text::path_bytes;
use vstd::prelude::*;

verus! {

/// A position in a file.
#[derive(Clone, Copy, Debug, PartialEq, Eq, Structural)]
pub struct LineCol {
    pub line: usize,
    pub col: usize,
}

/// A feature.
#[derive(Debug)]
pub struct Feature {
    pub name: String,
    /// Bytes of the path of the file that the feature was read from, if it was
    /// read from a file. They need not be text.
    pub path: Option<Vec<u8>>,
}

/// A rule of a feature.
#[derive(Debug)]
pub struct Rule {
    pub name: String,
}

/// A scenario of a feature or of a rule.
#[derive(Debug)]
pub struct Scenario {
    pub name: String,
    pub position: LineCol,
}

/// Whether two values stand for the same feature.
pub open spec fn same_feature(one: Feature, other: Feature) -> bool {
    one.name@ == other.name@ && path_bytes(one.path) == path_bytes(other.path)
}

/// Whether two values stand for the same rule, or both for none.
pub open spec fn same_rule(one: Option<Rule>, other: Option<Rule>) -> bool {
    match (one, other) {
        (Some(one), Some(other)) => one.name@ == other.name@,
        (None, None) => true,
        _ => false,
    }
}

/// Whether two values stand for the same scenario of a feature.
pub open spec fn same_scenario(one: Scenario, other: Scenario) -> bool {
    one.name@ == other.name@ && one.position == other.position
}

} // verus!
