//! What each event does to a report.

use crate::event;
use crate::event::{Cucumber, Event, Hook, HookType, Step};
use crate::parser;
use crate::report::{
    empty_suite, plain_case, report_fault, utc, with_case, CaseView, DateView, ResultView,
    SuiteView, Unwritable, MAX_DATE, MAX_DURATION, MIN_DATE,
};
use crate::syntax::{Feature, LineCol, Rule, Scenario};
use crate::text::{concatenation, decimal, path_bytes, path_part};
use vstd::prelude::*;

verus! {

/// How much is printed for a test case.
#[derive(Clone, Copy, Debug, PartialEq, Eq, Structural)]
pub enum Verbosity {
    /// The default.
    Default,
    /// The world of a failed step, too.
    ShowWorld,
}

/// Command line options of the writer.
#[derive(Clone, Copy, Debug, PartialEq, Eq)]
pub struct Cli {
    /// Verbosity of the report.
    ///
    /// `0` is the default verbosity, `1` additionally outputs the world on failed
    /// steps.
    pub verbose: Option<u8>,
}

/// Why an event cannot be handled.
#[derive(Clone, Copy, Debug, PartialEq, Eq, Structural)]
pub enum Misuse {
    /// A feature finished that had not started.
    NoSuiteForFeature,
    /// A scenario finished while no feature was running.
    NoSuiteForScenario,
    /// A scenario finished of which nothing is known that decides how it ended.
    NoEvents,
    /// A scenario finished that had finished already.
    DuplicatedFinished,
    /// A scenario finished that had not started.
    NoStarted,
    /// A scenario finished before it started.
    TimeWentBack { started: i128, ended: i128 },
    /// A scenario took longer than a report can tell.
    DurationOutOfRange,
    /// A feature started at a time that is no date of a report.
    DateOutOfRange { at: i128 },
    /// A scenario finished of which not each event was printed once.
    NotPrinted,
    /// The report cannot be written.
    NotWritable(Unwritable),
}

impl Misuse {
    /// Whether the event comes at a wrong place among the others, rather than at a
    /// wrong time.
    pub open spec fn is_of_order(self) -> bool {
        match self {
            Misuse::NoSuiteForFeature => true,
            Misuse::NoSuiteForScenario => true,
            Misuse::NoEvents => true,
            Misuse::DuplicatedFinished => true,
            Misuse::NoStarted => true,
            _ => false,
        }
    }
}

/// What a writer knows.
#[verifier::ext_equal]
pub struct State<W, S> {
    /// The finished test suites.
    pub report: Seq<SuiteView>,
    /// The test suite of the running feature.
    pub suit: Option<SuiteView>,
    /// When the running scenario started.
    pub scenario_started_at: Option<i128>,
    /// What has happened to the running scenario.
    pub events: Seq<event::Scenario<W, S>>,
    pub verbosity: Verbosity,
}

/// What a writer knows before the first event.
pub open spec fn initial<W, S>(verbosity: Verbosity) -> State<W, S> {
    State {
        report: Seq::empty(),
        suit: None,
        scenario_started_at: None,
        events: Seq::empty(),
        verbosity,
    }
}

/// The verbosity that the options ask for: that of before if they say nothing,
/// the default one for `0`, and the world for all else.
pub open spec fn chosen_verbosity(before: Verbosity, cli: Cli) -> Verbosity {
    match cli.verbose {
        None => before,
        Some(level) => if level == 0 {
            Verbosity::Default
        } else {
            Verbosity::ShowWorld
        },
    }
}

// ---------------------------------------------------------------------------
// Names
// ---------------------------------------------------------------------------

/// `line:col`.
pub open spec fn position_text(position: LineCol) -> Seq<char> {
    decimal(position.line as nat) + ":"@ + decimal(position.col as nat)
}

/// The name of the test suite of a feature.
pub open spec fn suite_name(feature: Feature) -> Seq<char> {
    "Feature: "@ + feature.name@ + path_part(": "@, path_bytes(feature.path), ""@)
}

/// The rule that is referred to, if there is one.
pub open spec fn rule_value(rule: Option<&Rule>) -> Option<Rule> {
    match rule {
        Some(r) => Some(*r),
        None => None,
    }
}

/// What the name of a test case says of the rule.
pub open spec fn rule_part(rule: Option<Rule>) -> Seq<char> {
    match rule {
        Some(r) => "Rule: "@ + r.name@ + ": "@,
        None => Seq::empty(),
    }
}

/// The name of the test case of a scenario.
pub open spec fn case_name(feature: Feature, rule: Option<Rule>, scenario: Scenario) -> Seq<char> {
    rule_part(rule) + "Scenario: "@ + scenario.name@ + ": "@ + path_part(
        ""@,
        path_bytes(feature.path),
        ":"@,
    ) + position_text(scenario.position)
}

// ---------------------------------------------------------------------------
// Errors of the parser
// ---------------------------------------------------------------------------

/// The name of the test case of an error.
pub open spec fn error_name(error: parser::Error) -> Seq<char> {
    match error {
        parser::Error::Parsing(e) => "Feature"@ + path_part(": "@, Some(e.path@), ""@),
        parser::Error::ExampleExpansion(e) => "Feature: "@ + path_part(
            ""@,
            path_bytes(e.path),
            ":"@,
        ) + position_text(e.pos),
    }
}

/// The type of the failure that an error is reported as.
pub open spec fn error_type(error: parser::Error) -> Seq<char> {
    match error {
        parser::Error::Parsing(_) => "Parser Error"@,
        parser::Error::ExampleExpansion(_) => "Example Expansion Error"@,
    }
}

/// What an error says.
pub open spec fn error_message(error: parser::Error) -> Seq<char> {
    match error {
        parser::Error::Parsing(e) => e.message@,
        parser::Error::ExampleExpansion(e) => e.message@,
    }
}

/// The test suite of an error that was reported at the time `now`.
pub open spec fn error_suite(error: parser::Error, now: DateView) -> SuiteView {
    with_case(
        empty_suite("Errors"@, now),
        plain_case(
            error_name(error),
            0,
            ResultView::Failure { type_: error_type(error), message: error_message(error) },
        ),
    )
}

// ---------------------------------------------------------------------------
// Test cases
// ---------------------------------------------------------------------------

/// Whether the event says only that a hook after the scenario started or passed.
pub open spec fn is_passing_after_hook<W, S>(ev: event::Scenario<W, S>) -> bool {
    match ev {
        event::Scenario::Hook(HookType::After, Hook::Started) => true,
        event::Scenario::Hook(HookType::After, Hook::Passed) => true,
        _ => false,
    }
}

/// The event that decides how a scenario ended: the last one that says more than
/// that a hook after the scenario started or passed.
pub open spec fn deciding_event<W, S>(events: Seq<event::Scenario<W, S>>) -> Option<
    event::Scenario<W, S>,
>
    decreases events.len(),
{
    if events.len() == 0 {
        None
    } else if is_passing_after_hook(events.last()) {
        deciding_event(events.drop_last())
    } else {
        Some(events.last())
    }
}

/// How a scenario ended for which `ev` decides.
pub open spec fn result_of<W, S>(ev: event::Scenario<W, S>) -> ResultView {
    match ev {
        event::Scenario::Started => ResultView::Success,
        event::Scenario::Hook(_, hook) => match hook {
            Hook::Failed(_, message) => ResultView::Failure {
                type_: "Hook Panicked"@,
                message: message@,
            },
            _ => ResultView::Success,
        },
        event::Scenario::Background(_, step) => step_result(step),
        event::Scenario::Step(_, step) => step_result(step),
        event::Scenario::Finished => ResultView::Success,
    }
}

/// How a scenario ended for which an event of a step decides.
pub open spec fn step_result<W>(step: Step<W>) -> ResultView {
    match step {
        Step::Skipped => ResultView::Skipped,
        Step::Failed(_, message) => ResultView::Failure {
            type_: "Step Panicked"@,
            message: message@,
        },
        _ => ResultView::Success,
    }
}

/// The test case of a scenario to which `events` happened in `nanos`
/// nanoseconds. A skipped one takes no time.
pub open spec fn scenario_case<W, S>(
    feature: Feature,
    rule: Option<Rule>,
    scenario: Scenario,
    events: Seq<event::Scenario<W, S>>,
    printed: Seq<Seq<char>>,
    nanos: int,
) -> CaseView {
    let result = result_of(deciding_event(events)->0);
    let time = if result is Skipped {
        0
    } else {
        nanos
    };
    CaseView {
        system_out: Some(concatenation(printed)),
        ..plain_case(case_name(feature, rule, scenario), time, result)
    }
}

// ---------------------------------------------------------------------------
// Events
// ---------------------------------------------------------------------------

impl<W, S> State<W, S> {
    /// Why an event of a scenario cannot be handled, if it cannot.
    pub open spec fn scenario_misuse(self, ev: event::Scenario<W, S>, at: i128) -> Option<Misuse> {
        if ev is Finished {
            match self.duration_misuse(at) {
                Some(misuse) => Some(misuse),
                None => match case_misuse(self.events) {
                    Some(misuse) => Some(misuse),
                    None => if self.suit is None {
                        Some(Misuse::NoSuiteForScenario)
                    } else {
                        None
                    },
                },
            }
        } else {
            None
        }
    }

    /// Why it cannot be told how long a scenario took that ends at `ended`, if it
    /// cannot.
    pub open spec fn duration_misuse(self, ended: i128) -> Option<Misuse> {
        match self.scenario_started_at {
            None => Some(Misuse::NoStarted),
            Some(started) => if ended < started {
                Some(Misuse::TimeWentBack { started, ended })
            } else if ended - started > MAX_DURATION {
                Some(Misuse::DurationOutOfRange)
            } else {
                None
            },
        }
    }

    /// Why an event cannot be handled, if it cannot.
    pub open spec fn misuse(self, ev: parser::Result<Event<Cucumber<W, S>>>) -> Option<Misuse> {
        match ev {
            Err(_) => None,
            Ok(ev) => match ev.value {
                Cucumber::Started => None,
                Cucumber::Feature(_, feature_ev) => match feature_ev {
                    event::Feature::Started => if MIN_DATE <= ev.at <= MAX_DATE {
                        None
                    } else {
                        Some(Misuse::DateOutOfRange { at: ev.at })
                    },
                    event::Feature::Rule(_, event::Rule::Scenario(_, scenario_ev)) => {
                        self.scenario_misuse(scenario_ev, ev.at)
                    },
                    event::Feature::Rule(_, _) => None,
                    event::Feature::Scenario(_, scenario_ev) => self.scenario_misuse(
                        scenario_ev,
                        ev.at,
                    ),
                    event::Feature::Finished => if self.suit is None {
                        Some(Misuse::NoSuiteForFeature)
                    } else {
                        None
                    },
                },
                Cucumber::Finished => match report_fault(self.report) {
                    Some(fault) => Some(Misuse::NotWritable(fault)),
                    None => None,
                },
            },
        }
    }

    /// Why an event cannot be handled along with `printed` texts, if it cannot:
    /// one text is due for each event of a scenario that finishes.
    pub open spec fn refusal(
        self,
        ev: parser::Result<Event<Cucumber<W, S>>>,
        printed: nat,
    ) -> Option<Misuse> {
        match self.misuse(ev) {
            Some(misuse) => Some(misuse),
            None => if finishes_scenario(ev) && printed != self.events.len() {
                Some(Misuse::NotPrinted)
            } else {
                None
            },
        }
    }

    /// The state with the verbosity that the options ask for.
    pub open spec fn after_cli(self, cli: Cli) -> State<W, S> {
        State { verbosity: chosen_verbosity(self.verbosity, cli), ..self }
    }

    /// The state after an error that was reported at the time `now`.
    pub open spec fn after_error(self, error: parser::Error, now: DateView) -> State<W, S> {
        State { report: self.report.push(error_suite(error, now)), ..self }
    }

    /// The state after an event of a scenario. `printed` is what was printed for
    /// each event of a scenario that finishes.
    pub open spec fn after_scenario(
        self,
        feature: Feature,
        rule: Option<Rule>,
        scenario: Scenario,
        ev: event::Scenario<W, S>,
        at: i128,
        printed: Seq<Seq<char>>,
    ) -> State<W, S> {
        match ev {
            event::Scenario::Started => State {
                scenario_started_at: Some(at),
                events: self.events.push(ev),
                ..self
            },
            event::Scenario::Finished => State {
                suit: Some(
                    with_case(
                        self.suit->0,
                        scenario_case(
                            feature,
                            rule,
                            scenario,
                            self.events,
                            printed,
                            at - self.scenario_started_at->0,
                        ),
                    ),
                ),
                scenario_started_at: None,
                events: Seq::empty(),
                ..self
            },
            _ => State { events: self.events.push(ev), ..self },
        }
    }

    /// The state after an event of a feature.
    pub open spec fn after_feature(
        self,
        feature: Feature,
        ev: event::Feature<W, S>,
        at: i128,
        printed: Seq<Seq<char>>,
    ) -> State<W, S> {
        match ev {
            event::Feature::Started => State {
                suit: Some(empty_suite(suite_name(feature), utc(at as int))),
                ..self
            },
            event::Feature::Rule(rule, event::Rule::Scenario(scenario, scenario_ev)) => {
                self.after_scenario(feature, Some(rule), scenario, scenario_ev, at, printed)
            },
            event::Feature::Rule(_, _) => self,
            event::Feature::Scenario(scenario, scenario_ev) => self.after_scenario(
                feature,
                None,
                scenario,
                scenario_ev,
                at,
                printed,
            ),
            event::Feature::Finished => State {
                report: self.report.push(self.suit->0),
                suit: None,
                ..self
            },
        }
    }

    /// The state after an event that came with the options `cli`. `printed` is
    /// what was printed for each event of a scenario that finishes, and `now` is
    /// the time if the event is an error.
    pub open spec fn after(
        self,
        ev: parser::Result<Event<Cucumber<W, S>>>,
        cli: Cli,
        printed: Seq<Seq<char>>,
        now: DateView,
    ) -> State<W, S> {
        let state = self.after_cli(cli);
        match ev {
            Err(error) => state.after_error(error, now),
            Ok(ev) => match ev.value {
                Cucumber::Started => state,
                Cucumber::Feature(feature, feature_ev) => state.after_feature(
                    feature,
                    feature_ev,
                    ev.at,
                    printed,
                ),
                Cucumber::Finished => state,
            },
        }
    }
}

/// Whether the event says that the run finished.
pub open spec fn finishes<W, S>(ev: parser::Result<Event<Cucumber<W, S>>>) -> bool {
    match ev {
        Ok(ev) => ev.value is Finished,
        Err(_) => false,
    }
}

/// Whether the event says that a scenario finished.
pub open spec fn finishes_scenario<W, S>(ev: parser::Result<Event<Cucumber<W, S>>>) -> bool {
    match ev {
        Ok(ev) => match ev.value {
            Cucumber::Feature(_, event::Feature::Rule(_, event::Rule::Scenario(_, inner))) => {
                inner is Finished
            },
            Cucumber::Feature(_, event::Feature::Scenario(_, inner)) => inner is Finished,
            _ => false,
        },
        Err(_) => false,
    }
}

/// Why no test case can be formed of what happened to a scenario, if none can.
pub open spec fn case_misuse<W, S>(events: Seq<event::Scenario<W, S>>) -> Option<Misuse> {
    match deciding_event(events) {
        None => Some(Misuse::NoEvents),
        Some(ev) => if ev is Finished {
            Some(Misuse::DuplicatedFinished)
        } else {
            None
        },
    }
}

} // verus!
