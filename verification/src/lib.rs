//! A writer of JUnit XML reports on runs of Cucumber features.
//!
//! [`junit::JUnit`] takes the events of a run one by one and forms a report: a
//! test suite for each feature, with a test case for each of its scenarios, and
//! a test suite for each error of the parser. [`model`] says what each event
//! does to the report, [`laws`] what a report therefore tells of any events, and
//! [`runs`] what the report on a run holds whose events come in order.

use vstd::prelude::*;

pub mod event;
pub mod junit;
pub mod laws;
pub mod misuse;
pub mod model;
pub mod parser;
pub mod report;
pub mod runs;
pub mod syntax;
pub mod text;

verus! {

/// State that the steps of a scenario share.
pub trait World: Sized + 'static {
    /// A world to come.
    type Coming: core::future::Future<Output = Self>;

    /// Creates a world.
    fn new() -> Self::Coming;
}

/// A handler of the events of a run.
pub trait EventHandler<W, S>: 'static {
    /// Handles an event.
    fn handle_event(&mut self, event: event::CucumberEvent<W, S>);
}

} // verus!
