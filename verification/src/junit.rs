//! The writer.

use crate::event;
use crate::event::{Cucumber, Event, Hook, HookType, Step};
use crate::model::{
    case_misuse, case_name, deciding_event, error_name, error_suite, finishes, finishes_scenario,
    initial, is_passing_after_hook, position_text, rule_part, rule_value, scenario_case,
    step_result, suite_name, Cli, Misuse, State, Verbosity,
};
use crate::laws::{
    ends_with_position, is_last_word, law_case_tells_of_its_scenario, law_last_word_is_found,
    law_unfilled_examples_are_named, tells,
};
use crate::parser;
use crate::report::{
    all_utc, case_view, date_from_unix_nanos, duration_from_unsigned, duration_nanos,
    find_report_fault, new_report, new_suite, plain_case, report_fault, report_suites, report_xml,
    suite_view, utc, with_case, write_xml, zero_duration, CaseView, DateView, SuiteView,
    Unwritable, XmlError, MAX_DATE, MAX_DURATION, MIN_DATE, SECOND,
};
use crate::syntax::{Feature, LineCol, Rule, Scenario};
use crate::text::{concatenate, holds_all, texts, to_decimal, to_path_part};
use junit_report::{Duration, Report, TestCase, TestSuite};
use vstd::prelude::*;

verus! {

/// A report that is being formed. All its timestamps are shown in UTC.
#[derive(Debug)]
struct Draft {
    /// The finished test suites.
    report: Report,
    /// The test suite of the running feature.
    suit: Option<TestSuite>,
}

impl Draft {
    #[verifier::type_invariant]
    spec fn in_utc(&self) -> bool {
        &&& all_utc(self.suites())
        &&& self.suite() matches Some(suite) ==> suite.timestamp.offset == 0
    }

    spec fn suites(&self) -> Seq<SuiteView> {
        report_suites(self.report)
    }

    spec fn suite(&self) -> Option<SuiteView> {
        match self.suit {
            Some(suite) => Some(suite_view(suite)),
            None => None,
        }
    }

    fn new() -> (draft: Self)
        ensures
            draft.suites() == Seq::<SuiteView>::empty(),
            draft.suite() is None,
    {
        Draft { report: new_report(), suit: None }
    }

    fn has_suite(&self) -> (has: bool)
        ensures
            has == (self.suite() is Some),
    {
        self.suit.is_some()
    }

    /// Adds a finished test suite.
    fn add_suite(&mut self, suite: TestSuite)
        requires
            suite_view(suite).timestamp.offset == 0,
        ensures
            final(self).suites() == old(self).suites().push(suite_view(suite)),
            final(self).suite() == old(self).suite(),
    {
        proof {
            use_type_invariant(&*self);
        }
        let mut report = new_report();
        std::mem::swap(&mut report, &mut self.report);
        report.add_testsuite(suite);
        self.report = report;
    }

    /// Starts the test suite of a feature.
    fn start(&mut self, suite: TestSuite)
        requires
            suite_view(suite).timestamp.offset == 0,
        ensures
            final(self).suites() == old(self).suites(),
            final(self).suite() == Some(suite_view(suite)),
    {
        proof {
            use_type_invariant(&*self);
        }
        self.suit = Some(suite);
    }

    /// Takes the test suite of the running feature.
    fn take_suite(&mut self) -> (suite: TestSuite)
        requires
            old(self).suite() is Some,
        ensures
            suite_view(suite) == old(self).suite()->0,
            suite_view(suite).timestamp.offset == 0,
            final(self).suites() == old(self).suites(),
            final(self).suite() is None,
    {
        proof {
            use_type_invariant(&*self);
        }
        let mut suit: Option<TestSuite> = None;
        std::mem::swap(&mut suit, &mut self.suit);
        suit.unwrap()
    }

    /// Adds a test case to the test suite of the running feature.
    fn add_case(&mut self, case: TestCase)
        requires
            old(self).suite() is Some,
        ensures
            final(self).suites() == old(self).suites(),
            final(self).suite() == Some(with_case(old(self).suite()->0, case_view(case))),
    {
        let mut suite = self.take_suite();
        suite.add_testcase(case);
        self.start(suite);
    }

    /// Finishes the test suite of the running feature.
    fn finish(&mut self)
        requires
            old(self).suite() is Some,
        ensures
            final(self).suites() == old(self).suites().push(old(self).suite()->0),
            final(self).suite() is None,
    {
        let suite = self.take_suite();
        self.add_suite(suite);
    }

    /// Finds out why the report cannot be written, if it cannot.
    fn find_fault(&self) -> (fault: Option<Unwritable>)
        ensures
            fault == report_fault(self.suites()),
    {
        proof {
            use_type_invariant(self);
        }
        find_report_fault(&self.report)
    }

    /// Writes the report as an XML document.
    fn to_xml(&self) -> (xml: Result<Vec<u8>, XmlError>)
        requires
            report_fault(self.suites()) is None,
        ensures
            xml is Ok,
            xml->Ok_0@ == report_xml(self.suites()),
    {
        write_xml(&self.report)
    }
}

/// A writer that forms a JUnit report of the events of a run.
///
/// # Ordering
///
/// It takes the events of one scenario after those of another, and those of one
/// feature after those of another, and does not put them into that order itself.
/// [`JUnit::misuse`] tells whether an event can be handled.
#[derive(Debug)]
pub struct JUnit<W, S, Out> {
    /// Where the report goes.
    output: Out,
    /// The report, as far as it is formed.
    draft: Draft,
    /// When the running scenario started, in nanoseconds since the Unix epoch.
    scenario_started_at: Option<i128>,
    /// What has happened to the running scenario.
    events: Vec<event::Scenario<W, S>>,
    /// How much the output of a test case tells.
    verbosity: Verbosity,
}

impl<W, S, Out> View for JUnit<W, S, Out> {
    type V = State<W, S>;

    closed spec fn view(&self) -> State<W, S> {
        State {
            report: self.draft.suites(),
            suit: self.draft.suite(),
            scenario_started_at: self.scenario_started_at,
            events: self.events@,
            verbosity: self.verbosity,
        }
    }
}

fn to_position_text(position: LineCol) -> (text: String)
    ensures
        text@ == position_text(position),
{
    let mut text = to_decimal(position.line as u128);
    text.append(":");
    text.append(to_decimal(position.col as u128).as_str());
    text
}

fn to_suite_name(feature: &Feature) -> (text: String)
    ensures
        text@ == suite_name(*feature),
{
    let mut text = "Feature: ".to_owned();
    text.append(feature.name.as_str());
    text.append(to_path_part(": ", feature.path.as_ref(), "").as_str());
    text
}

fn to_rule_part(rule: Option<&Rule>) -> (text: String)
    ensures
        text@ == rule_part(rule_value(rule)),
{
    match rule {
        Some(r) => {
            let mut text = "Rule: ".to_owned();
            text.append(r.name.as_str());
            text.append(": ");
            text
        },
        None => String::new(),
    }
}

fn to_case_name(feature: &Feature, rule: Option<&Rule>, scenario: &Scenario) -> (text: String)
    ensures
        text@ == case_name(*feature, rule_value(rule), *scenario),
{
    let mut text = to_rule_part(rule);
    text.append("Scenario: ");
    text.append(scenario.name.as_str());
    text.append(": ");
    text.append(to_path_part("", feature.path.as_ref(), ":").as_str());
    text.append(to_position_text(scenario.position).as_str());
    text
}

fn to_error_name(error: &parser::Error) -> (text: String)
    ensures
        text@ == error_name(*error),
{
    match error {
        parser::Error::Parsing(e) => {
            let mut text = "Feature".to_owned();
            text.append(to_path_part(": ", Some(&e.path), "").as_str());
            text
        },
        parser::Error::ExampleExpansion(e) => {
            let mut text = "Feature: ".to_owned();
            text.append(to_path_part("", e.path.as_ref(), ":").as_str());
            text.append(to_position_text(e.pos).as_str());
            text
        },
    }
}

fn ends_scenario<W, S>(ev: &parser::Result<Event<Cucumber<W, S>>>) -> (ends: bool)
    ensures
        ends == finishes_scenario(*ev),
{
    match ev {
        Ok(ev) => match &ev.value {
            Cucumber::Feature(
                _,
                event::Feature::Rule(_, event::Rule::Scenario(_, event::Scenario::Finished)),
            ) => true,
            Cucumber::Feature(_, event::Feature::Scenario(_, event::Scenario::Finished)) => true,
            _ => false,
        },
        Err(_) => false,
    }
}

fn passes_after_hook<W, S>(ev: &event::Scenario<W, S>) -> (passes: bool)
    ensures
        passes == is_passing_after_hook(*ev),
{
    match ev {
        event::Scenario::Hook(HookType::After, Hook::Started) => true,
        event::Scenario::Hook(HookType::After, Hook::Passed) => true,
        _ => false,
    }
}

/// Finds the event that decides how a scenario ended.
pub fn find_deciding_event<W, S>(events: &Vec<event::Scenario<W, S>>) -> (found: Option<
    &event::Scenario<W, S>,
>)
    ensures
        match found {
            Some(ev) => deciding_event(events@) == Some(*ev),
            None => deciding_event(events@) is None,
        },
        found is Some <==> exists|i: int| #[trigger] is_last_word(events@, i),
        forall|i: int| #[trigger] is_last_word(events@, i) ==> found == Some(&events@[i]),
{
    let mut i: usize = events.len();
    assert(events@.take(i as int) =~= events@);
    while i > 0
        invariant
            i <= events.len(),
            deciding_event(events@) == deciding_event(events@.take(i as int)),
        decreases i,
    {
        i = i - 1;
        proof {
            let front = events@.take(i + 1);
            assert(front.drop_last() =~= events@.take(i as int));
            assert(front.last() == events@[i as int]);
            law_last_word_is_found(events@);
        }
        if !passes_after_hook(&events[i]) {
            return Some(&events[i]);
        }
    }
    proof {
        law_last_word_is_found(events@);
    }
    None
}

/// Finds out why no test case can be formed of what happened to a scenario, if
/// none can.
pub fn find_case_misuse<W, S>(events: &Vec<event::Scenario<W, S>>) -> (misuse: Option<Misuse>)
    ensures
        misuse == case_misuse(events@),
{
    match find_deciding_event(events) {
        None => Some(Misuse::NoEvents),
        Some(ev) => match ev {
            event::Scenario::Finished => Some(Misuse::DuplicatedFinished),
            _ => None,
        },
    }
}

/// The test case of a scenario for which an event of a step decides.
spec fn step_case_view<W>(name: Seq<char>, nanos: int, step: Step<W>) -> CaseView {
    let result = step_result(step);
    plain_case(
        name,
        if result is Skipped {
            0
        } else {
            nanos
        },
        result,
    )
}

fn step_case<W>(name: &str, duration: Duration, step: &Step<W>) -> (case: TestCase)
    ensures
        case_view(case) == step_case_view(name@, duration_nanos(duration), *step),
{
    match step {
        Step::Started | Step::Passed => TestCase::success(name, duration),
        Step::Skipped => TestCase::skipped(name),
        Step::Failed(_, message) => TestCase::failure(
            name,
            duration,
            "Step Panicked",
            message.as_str(),
        ),
    }
}

/// Whether `written` is the XML document of the test suites if the run finishes
/// with `ev`, and nothing if it does not. Writing it does not fail.
pub open spec fn written_as<W, S>(
    written: Option<Result<Vec<u8>, XmlError>>,
    ev: parser::Result<Event<Cucumber<W, S>>>,
    suites: Seq<SuiteView>,
) -> bool {
    match written {
        Some(Ok(bytes)) => finishes(ev) && bytes@ == report_xml(suites),
        Some(Err(_)) => false,
        None => !finishes(ev),
    }
}

impl<W, S, Out> JUnit<W, S, Out> {
    /// Where the report goes.
    pub closed spec fn sink(&self) -> Out {
        self.output
    }

    /// Creates a writer and hands it to `normalized`, which is to wrap it into one
    /// that puts the events into order.
    #[must_use]
    pub fn new<N, F: FnOnce(Self) -> N>(
        output: Out,
        verbosity: Verbosity,
        normalized: F,
    ) -> (writer: N)
        requires
            forall|raw: Self|
                raw@ == initial::<W, S>(verbosity) && raw.sink() == output
                    ==> #[trigger] normalized.requires((raw,)),
        ensures
            exists|raw: Self|
                raw@ == initial::<W, S>(verbosity) && raw.sink() == output
                    && #[trigger] normalized.ensures((raw,), writer),
    {
        let raw = Self::raw(output, verbosity);
        normalized(raw)
    }

    /// Creates a writer to be fed along with another one: it is handed to
    /// `discard_failure_writes`, and what comes of that to
    /// `discard_arbitrary_writes`.
    #[must_use]
    pub fn for_tee<F, A, G: FnOnce(Self) -> F, H: FnOnce(F) -> A>(
        output: Out,
        verbosity: Verbosity,
        discard_failure_writes: G,
        discard_arbitrary_writes: H,
    ) -> (writer: A)
        requires
            forall|raw: Self|
                raw@ == initial::<W, S>(verbosity) && raw.sink() == output
                    ==> #[trigger] discard_failure_writes.requires((raw,)),
            forall|raw: Self, inner: F|
                raw@ == initial::<W, S>(verbosity) && raw.sink() == output
                    && #[trigger] discard_failure_writes.ensures((raw,), inner)
                    ==> discard_arbitrary_writes.requires((inner,)),
        ensures
            exists|raw: Self, inner: F|
                raw@ == initial::<W, S>(verbosity) && raw.sink() == output
                    && #[trigger] discard_failure_writes.ensures((raw,), inner)
                    && #[trigger] discard_arbitrary_writes.ensures((inner,), writer),
    {
        let raw = Self::raw(output, verbosity);
        let inner = discard_failure_writes(raw);
        discard_arbitrary_writes(inner)
    }

    /// Creates a writer that takes the events as they come.
    ///
    /// Use it only for events that come in order.
    #[must_use]
    pub fn raw(output: Out, verbosity: Verbosity) -> (writer: Self)
        ensures
            writer@ == initial::<W, S>(verbosity),
            writer.sink() == output,
    {
        JUnit {
            output,
            draft: Draft::new(),
            scenario_started_at: None,
            events: Vec::new(),
            verbosity,
        }
    }

    /// Applies the command line options.
    pub fn apply_cli(&mut self, cli: Cli)
        ensures
            final(self)@ == old(self)@.after_cli(cli),
            cli.verbose matches Some(level) ==> (final(self)@.verbosity is Default <==> level == 0),
            cli.verbose is None ==> final(self)@.verbosity == old(self)@.verbosity,
            final(self).sink() == old(self).sink(),
    {
        match cli.verbose {
            None => {},
            Some(0) => self.verbosity = Verbosity::Default,
            _ => self.verbosity = Verbosity::ShowWorld,
        }
    }

    /// Where the report goes.
    pub fn output(&mut self) -> (output: &mut Out)
        ensures
            *output == old(self).sink(),
            final(self).sink() == *final(output),
            final(self)@ == old(self)@,
    {
        &mut self.output
    }

    /// What has happened to the running scenario.
    pub fn events(&self) -> (events: &Vec<event::Scenario<W, S>>)
        ensures
            events@ == self@.events,
    {
        &self.events
    }

    /// How much the output of a test case tells.
    pub fn verbosity(&self) -> (verbosity: Verbosity)
        ensures
            verbosity == self@.verbosity,
    {
        self.verbosity
    }

    /// Adds a test suite for an error of the parser. Its timestamp is the time of
    /// the call.
    pub fn handle_error(&mut self, error: &parser::Error)
        ensures
            exists|now: DateView|
                now.offset == 0 && final(self)@ == #[trigger] old(self)@.after_error(*error, now),
            final(self)@.report.len() == old(self)@.report.len() + 1,
            final(self)@.report.last().testcases.len() == 1,
            *error matches parser::Error::ExampleExpansion(e) ==> ends_with_position(
                final(self)@.report.last().testcases[0].name,
                e.pos,
            ),
            final(self).sink() == old(self).sink(),
    {
        let name = to_error_name(error);
        let (ty, message) = match error {
            parser::Error::Parsing(e) => ("Parser Error", &e.message),
            parser::Error::ExampleExpansion(e) => ("Example Expansion Error", &e.message),
        };
        let mut suite = new_suite("Errors");
        let ghost now = suite_view(suite).timestamp;
        suite.add_testcase(
            TestCase::failure(name.as_str(), zero_duration(), ty, message.as_str()),
        );
        assert(suite_view(suite) == error_suite(*error, now));
        self.draft.add_suite(suite);
        assert(self@ =~= old(self)@.after_error(*error, now));
        proof {
            if *error is ExampleExpansion {
                law_unfilled_examples_are_named(error->ExampleExpansion_0);
            }
        }
    }

    /// Forms the test case of a scenario to which `events` happened. `printed` is
    /// what was printed for each of them.
    pub fn test_case(
        &self,
        feature: &Feature,
        rule: Option<&Rule>,
        scenario: &Scenario,
        events: &Vec<event::Scenario<W, S>>,
        printed: &Vec<String>,
        duration: Duration,
    ) -> (case: TestCase)
        requires
            case_misuse(events@) is None,
            printed@.len() == events@.len(),
        ensures
            case_view(case) == scenario_case(
                *feature,
                rule_value(rule),
                *scenario,
                events@,
                texts(printed@),
                duration_nanos(duration),
            ),
            forall|i: int| #[trigger]
                is_last_word(events@, i) ==> tells(
                    case_view(case),
                    events@[i],
                    duration_nanos(duration),
                ),
            case_view(case).system_out is Some,
            holds_all(case_view(case).system_out->0, texts(printed@)),
    {
        proof {
            law_last_word_is_found(events@);
            law_case_tells_of_its_scenario(
                *feature,
                rule_value(rule),
                *scenario,
                events@,
                texts(printed@),
                duration_nanos(duration),
            );
        }
        let name = to_case_name(feature, rule, scenario);
        let mut case = match find_deciding_event(events).unwrap() {
            event::Scenario::Started
            | event::Scenario::Hook(_, Hook::Started)
            | event::Scenario::Hook(_, Hook::Passed) => TestCase::success(name.as_str(), duration),
            event::Scenario::Hook(_, Hook::Failed(_, message)) => TestCase::failure(
                name.as_str(),
                duration,
                "Hook Panicked",
                message.as_str(),
            ),
            event::Scenario::Background(_, step) => step_case(name.as_str(), duration, step),
            event::Scenario::Step(_, step) => step_case(name.as_str(), duration, step),
            event::Scenario::Finished => vstd::pervasive::unreached(),
        };
        let text = concatenate(printed);
        case.set_system_out(text.as_str());
        case
    }

    /// How long the running scenario took, which ended at `ended`. Forgets when it
    /// started.
    pub fn scenario_duration(&mut self, ended: i128) -> (duration: Duration)
        requires
            old(self)@.duration_misuse(ended) is None,
        ensures
            duration_nanos(duration) == ended - old(self)@.scenario_started_at->0,
            final(self)@ == (State { scenario_started_at: None, ..old(self)@ }),
            final(self).sink() == old(self).sink(),
    {
        let started: i128 = self.scenario_started_at.take().unwrap();
        let nanos: i128 = ended - started;
        let secs: u64 = (nanos / SECOND) as u64;
        let rest: u32 = (nanos % SECOND) as u32;
        duration_from_unsigned(secs, rest).unwrap()
    }

    /// Finds out why an event of a scenario cannot be handled, if it cannot.
    fn scenario_misuse(&self, ev: &event::Scenario<W, S>, at: i128) -> (misuse: Option<Misuse>)
        ensures
            misuse == self@.scenario_misuse(*ev, at),
    {
        match ev {
            event::Scenario::Finished => {},
            _ => {
                return None;
            },
        }
        let started: i128 = match self.scenario_started_at {
            Some(started) => started,
            None => {
                return Some(Misuse::NoStarted);
            },
        };
        if at < started {
            return Some(Misuse::TimeWentBack { started, ended: at });
        }
        match at.checked_sub(started) {
            Some(nanos) => {
                if nanos > MAX_DURATION {
                    return Some(Misuse::DurationOutOfRange);
                }
            },
            None => {
                return Some(Misuse::DurationOutOfRange);
            },
        }
        let misuse = find_case_misuse(&self.events);
        if misuse.is_some() {
            return misuse;
        }
        if !self.draft.has_suite() {
            return Some(Misuse::NoSuiteForScenario);
        }
        None
    }

    /// Finds out why an event cannot be handled, if it cannot.
    pub fn misuse(&self, ev: &parser::Result<Event<Cucumber<W, S>>>) -> (misuse: Option<Misuse>)
        ensures
            misuse == self@.misuse(*ev),
    {
        match ev {
            Err(_) => None,
            Ok(ev) => match &ev.value {
                Cucumber::Started => None,
                Cucumber::Feature(_, feature_ev) => match feature_ev {
                    event::Feature::Started => {
                        if MIN_DATE <= ev.at && ev.at <= MAX_DATE {
                            None
                        } else {
                            Some(Misuse::DateOutOfRange { at: ev.at })
                        }
                    },
                    event::Feature::Rule(_, rule_ev) => match rule_ev {
                        event::Rule::Started | event::Rule::Finished => None,
                        event::Rule::Scenario(_, scenario_ev) => self.scenario_misuse(
                            scenario_ev,
                            ev.at,
                        ),
                    },
                    event::Feature::Scenario(_, scenario_ev) => self.scenario_misuse(
                        scenario_ev,
                        ev.at,
                    ),
                    event::Feature::Finished => if !self.draft.has_suite() {
                        Some(Misuse::NoSuiteForFeature)
                    } else {
                        None
                    },
                },
                Cucumber::Finished => match self.draft.find_fault() {
                    Some(fault) => Some(Misuse::NotWritable(fault)),
                    None => None,
                },
            },
        }
    }

    /// Handles an event of a scenario. `printed` is what was printed for each event
    /// of a scenario that finishes.
    pub fn handle_scenario_event(
        &mut self,
        feature: &Feature,
        rule: Option<&Rule>,
        scenario: &Scenario,
        ev: event::Scenario<W, S>,
        at: i128,
        printed: &Vec<String>,
    )
        requires
            old(self)@.scenario_misuse(ev, at) is None,
            ev is Finished ==> printed@.len() == old(self)@.events.len(),
        ensures
            final(self)@ == old(self)@.after_scenario(
                *feature,
                rule_value(rule),
                *scenario,
                ev,
                at,
                texts(printed@),
            ),
            ev is Finished ==> final(self)@.suit is Some && forall|i: int| #[trigger]
                is_last_word(old(self)@.events, i) ==> tells(
                    final(self)@.suit->0.testcases.last(),
                    old(self)@.events[i],
                    at - old(self)@.scenario_started_at->0,
                ),
            final(self).sink() == old(self).sink(),
    {
        match ev {
            event::Scenario::Started => {
                self.scenario_started_at = Some(at);
                self.events.push(event::Scenario::Started);
            },
            event::Scenario::Hook(_, _)
            | event::Scenario::Background(_, _)
            | event::Scenario::Step(_, _) => {
                self.events.push(ev);
            },
            event::Scenario::Finished => {
                let duration = self.scenario_duration(at);
                let mut events: Vec<event::Scenario<W, S>> = Vec::new();
                std::mem::swap(&mut events, &mut self.events);
                let case = self.test_case(feature, rule, scenario, &events, printed, duration);
                self.draft.add_case(case);
            },
        }
    }

    /// Handles an event that came with the options `opts` if it can be handled, and
    /// else tells why it cannot and leaves everything as it is. `printed` is what
    /// was printed for each event of a scenario that finishes. When the run
    /// finishes, gives the report as an XML document.
    pub fn try_handle_event(
        &mut self,
        ev: parser::Result<Event<Cucumber<W, S>>>,
        opts: &Cli,
        printed: &Vec<String>,
    ) -> (written: Result<Option<Result<Vec<u8>, XmlError>>, Misuse>)
        ensures
            final(self).sink() == old(self).sink(),
            match written {
                Err(misuse) => {
                    &&& old(self)@.refusal(ev, printed@.len()) == Some(misuse)
                    &&& final(self)@ == old(self)@
                },
                Ok(document) => {
                    &&& old(self)@.refusal(ev, printed@.len()) is None
                    &&& exists|now: DateView|
                        now.offset == 0 && final(self)@ == #[trigger] old(self)@.after(
                            ev,
                            *opts,
                            texts(printed@),
                            now,
                        )
                    &&& finishes(ev) ==> document is Some && document->0 is Ok
                    &&& written_as(document, ev, old(self)@.report)
                },
            },
    {
        let misuse = self.misuse(&ev);
        if let Some(misuse) = misuse {
            return Err(misuse);
        }
        if ends_scenario(&ev) && printed.len() != self.events.len() {
            return Err(Misuse::NotPrinted);
        }
        Ok(self.handle_event(ev, opts, printed))
    }

    /// Handles an event that came with the options `opts`, and that can be handled
    /// along with `printed`: what was printed for each event of a scenario that
    /// finishes. When the run finishes, gives the report as an XML document.
    pub fn handle_event(
        &mut self,
        ev: parser::Result<Event<Cucumber<W, S>>>,
        opts: &Cli,
        printed: &Vec<String>,
    ) -> (written: Option<Result<Vec<u8>, XmlError>>)
        requires
            old(self)@.refusal(ev, printed@.len()) is None,
        ensures
            exists|now: DateView|
                now.offset == 0 && final(self)@ == #[trigger] old(self)@.after(
                    ev,
                    *opts,
                    texts(printed@),
                    now,
                ),
            opts.verbose matches Some(level) ==> (final(self)@.verbosity is Default <==> level
                == 0),
            final(self).sink() == old(self).sink(),
            finishes(ev) ==> written is Some && written->0 is Ok,
            written_as(written, ev, old(self)@.report),
    {
        self.apply_cli(*opts);
        let ghost start = self@;
        match ev {
            Err(error) => {
                self.handle_error(&error);
                proof {
                    let now = choose|now: DateView|
                        now.offset == 0 && self@ == #[trigger] start.after_error(error, now);
                    assert(self@ == old(self)@.after(ev, *opts, texts(printed@), now));
                }
                None
            },
            Ok(ev) => {
                let ghost now = utc(0);
                let (value, meta) = ev.split();
                let written = match value {
                    Cucumber::Started => None,
                    Cucumber::Feature(feature, feature_ev) => {
                        match feature_ev {
                            event::Feature::Started => {
                                let mut suite = new_suite(to_suite_name(&feature).as_str());
                                suite.set_timestamp(date_from_unix_nanos(meta.at).unwrap());
                                self.draft.start(suite);
                            },
                            event::Feature::Rule(rule, rule_ev) => match rule_ev {
                                event::Rule::Started | event::Rule::Finished => {},
                                event::Rule::Scenario(scenario, scenario_ev) => {
                                    self.handle_scenario_event(
                                        &feature,
                                        Some(&rule),
                                        &scenario,
                                        scenario_ev,
                                        meta.at,
                                        printed,
                                    );
                                },
                            },
                            event::Feature::Scenario(scenario, scenario_ev) => {
                                self.handle_scenario_event(
                                    &feature,
                                    None,
                                    &scenario,
                                    scenario_ev,
                                    meta.at,
                                    printed,
                                );
                            },
                            event::Feature::Finished => {
                                self.draft.finish();
                            },
                        }
                        None
                    },
                    Cucumber::Finished => Some(self.draft.to_xml()),
                };
                assert(self@ =~= old(self)@.after(Ok(ev), *opts, texts(printed@), now));
                written
            },
        }
    }
}

} // verus!
