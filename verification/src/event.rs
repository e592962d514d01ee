//! Events that happen while features run.
//!
//! `W` is what an event tells of the world of a scenario, and `S` is what it
//! tells of a step. Nothing here looks into either.

use crate::syntax;
use vstd::prelude::*;

verus! {

/// A value with the moment at which it came about.
#[derive(Debug)]
pub struct Event<T> {
    /// Nanoseconds since the Unix epoch.
    pub at: i128,
    pub value: T,
}

impl<T> Event<T> {
    /// Takes the value out, and leaves the moment.
    pub fn split(self) -> (parts: (T, Event<()>))
        ensures
            parts.0 == self.value,
            parts.1.at == self.at,
    {
        (self.value, Event { at: self.at, value: () })
    }
}

/// An event of a whole run.
#[derive(Debug)]
pub enum Cucumber<W, S> {
    /// The run started.
    Started,
    /// Something happened to a feature.
    Feature(syntax::Feature, Feature<W, S>),
    /// The run finished.
    Finished,
}

/// An event of a feature.
#[derive(Debug)]
pub enum Feature<W, S> {
    /// The feature started.
    Started,
    /// Something happened to a rule of the feature.
    Rule(syntax::Rule, Rule<W, S>),
    /// Something happened to a scenario of the feature.
    Scenario(syntax::Scenario, Scenario<W, S>),
    /// The feature finished.
    Finished,
}

/// An event of a rule.
#[derive(Debug)]
pub enum Rule<W, S> {
    /// The rule started.
    Started,
    /// Something happened to a scenario of the rule.
    Scenario(syntax::Scenario, Scenario<W, S>),
    /// The rule finished.
    Finished,
}

/// An event of a scenario.
#[derive(Debug)]
pub enum Scenario<W, S> {
    /// The scenario started.
    Started,
    /// Something happened to a hook.
    Hook(HookType, Hook<W>),
    /// Something happened to a step of the background.
    Background(S, Step<W>),
    /// Something happened to a step.
    Step(S, Step<W>),
    /// The scenario finished.
    Finished,
}

/// When a hook runs.
#[derive(Clone, Copy, Debug, PartialEq, Eq, Structural)]
pub enum HookType {
    /// Before the first step of the scenario.
    Before,
    /// After the last step of the scenario.
    After,
}

/// An event of a hook.
#[derive(Debug)]
pub enum Hook<W> {
    /// The hook started.
    Started,
    /// The hook passed.
    Passed,
    /// The hook panicked, with this world and this message.
    Failed(Option<W>, String),
}

/// An event of a step.
#[derive(Debug)]
pub enum Step<W> {
    /// The step started.
    Started,
    /// The step was skipped.
    Skipped,
    /// The step passed.
    Passed,
    /// The step failed, with this world and this message.
    Failed(Option<W>, String),
}

/// An event of a whole run, with the moment at which it happened.
pub type CucumberEvent<W, S> = Event<Cucumber<W, S>>;

} // verus!
