//! What the report on a run holds whose events come in order.

use crate::event;
use crate::event::{Cucumber, Event};
use crate::junit::written_as;
use crate::laws::{
    after_all, all_handled, is_last_word, is_skip, law_end_of_a_scenario, law_last_word_is_found,
    lemma_started_scenario, Input,
};
use crate::model::{
    case_name, error_suite, finishes, initial, scenario_case, suite_name, State, Verbosity,
};
use crate::parser;
use crate::report::{
    empty_suite, has_rfc3339, has_total_time, report_fault, report_xml, suite_fault, total_time,
    utc, with_case, CaseView, SuiteView, XmlError, MAX_DATE, MAX_DURATION, MIN_DATE,
    MIN_RFC3339_DATE,
};
use crate::syntax::{same_feature, same_rule, same_scenario, Feature, Rule, Scenario};
use vstd::prelude::*;

verus! {

// ---------------------------------------------------------------------------
// The order
// ---------------------------------------------------------------------------

/// Where a run is.
pub enum Phase {
    /// Between features.
    Idle,
    /// In a feature, between scenarios.
    InFeature { feature: Feature },
    /// In a scenario.
    InScenario { feature: Feature, rule: Option<Rule>, scenario: Scenario },
}

/// Whether a run is in the feature, between scenarios.
pub open spec fn is_between(phase: Phase, feature: Feature) -> bool {
    phase matches Phase::InFeature { feature: running } && same_feature(running, feature)
}

/// Whether a run is in the scenario of the feature, and of the rule if there is one.
pub open spec fn is_within(
    phase: Phase,
    feature: Feature,
    rule: Option<Rule>,
    scenario: Scenario,
) -> bool {
    match phase {
        Phase::InScenario { feature: running, rule: of_rule, scenario: started } => {
            &&& same_feature(running, feature)
            &&& same_rule(of_rule, rule)
            &&& same_scenario(started, scenario)
        },
        _ => false,
    }
}

/// Where a run is after an event of a scenario, if the event comes in order.
pub open spec fn after_scenario_phase<W, S>(
    phase: Phase,
    feature: Feature,
    rule: Option<Rule>,
    scenario: Scenario,
    ev: event::Scenario<W, S>,
) -> Option<Phase> {
    let between = Phase::InFeature { feature };
    let within = Phase::InScenario { feature, rule, scenario };
    match ev {
        event::Scenario::Started => if is_between(phase, feature) {
            Some(within)
        } else {
            None
        },
        event::Scenario::Finished => if is_within(phase, feature, rule, scenario) {
            Some(between)
        } else {
            None
        },
        _ => if is_within(phase, feature, rule, scenario) {
            Some(within)
        } else {
            None
        },
    }
}

/// Where a run is after an event, if the event comes in order: features one after
/// the other, and in a feature scenarios one after the other. Which feature, rule
/// and scenario an event belongs to goes by what the event tells of them, not by
/// the values that it holds.
pub open spec fn after_phase<W, S>(phase: Phase, ev: Cucumber<W, S>) -> Option<Phase> {
    match ev {
        Cucumber::Started => if phase is Idle {
            Some(phase)
        } else {
            None
        },
        Cucumber::Finished => if phase is Idle {
            Some(phase)
        } else {
            None
        },
        Cucumber::Feature(feature, feature_ev) => {
            let between = Phase::InFeature { feature };
            match feature_ev {
                event::Feature::Started => if phase is Idle {
                    Some(between)
                } else {
                    None
                },
                event::Feature::Rule(rule, event::Rule::Scenario(scenario, scenario_ev)) => {
                    after_scenario_phase(phase, feature, Some(rule), scenario, scenario_ev)
                },
                event::Feature::Rule(_, _) => if is_between(phase, feature) {
                    Some(phase)
                } else {
                    None
                },
                event::Feature::Scenario(scenario, scenario_ev) => after_scenario_phase(
                    phase,
                    feature,
                    None,
                    scenario,
                    scenario_ev,
                ),
                event::Feature::Finished => if is_between(phase, feature) {
                    Some(Phase::Idle)
                } else {
                    None
                },
            }
        },
    }
}

/// Where a run that was at `phase` is after all `inputs`, if they come in order.
/// Errors may come at any time.
pub open spec fn phase_after_all<W, S>(phase: Phase, inputs: Seq<Input<W, S>>) -> Option<Phase>
    decreases inputs.len(),
{
    if inputs.len() == 0 {
        Some(phase)
    } else {
        match phase_after_all(phase, inputs.drop_last()) {
            None => None,
            Some(phase) => match inputs.last().ev {
                Err(_) => Some(phase),
                Ok(ev) => after_phase(phase, ev.value),
            },
        }
    }
}

/// What a writer knows where a run is, if all its events came in order.
spec fn in_phase<W, S>(state: State<W, S>, phase: Phase) -> bool {
    match phase {
        Phase::Idle => {
            &&& state.suit is None
            &&& state.scenario_started_at is None
            &&& state.events.len() == 0
        },
        Phase::InFeature { .. } => {
            &&& state.suit is Some
            &&& state.scenario_started_at is None
            &&& state.events.len() == 0
        },
        Phase::InScenario { .. } => {
            &&& state.suit is Some
            &&& state.scenario_started_at is Some
            &&& state.events.len() > 0
            &&& state.events[0] is Started
            &&& forall|i: int|
                0 <= i < state.events.len() ==> !((#[trigger] state.events[i]) is Finished)
        },
    }
}

proof fn lemma_in_phase<W, S>(verbosity: Verbosity, inputs: Seq<Input<W, S>>)
    requires
        phase_after_all(Phase::Idle, inputs) is Some,
    ensures
        in_phase(
            after_all(initial::<W, S>(verbosity), inputs),
            phase_after_all(Phase::Idle, inputs)->0,
        ),
    decreases inputs.len(),
{
    if inputs.len() > 0 {
        lemma_in_phase(verbosity, inputs.drop_last());
    }
}

/// Events that come in order meet no misuse of the order: whatever their times
/// are, no start is missing and no end comes twice.
pub proof fn law_events_in_order_meet_no_misuse_of_order<W, S>(
    verbosity: Verbosity,
    inputs: Seq<Input<W, S>>,
    next: Input<W, S>,
)
    requires
        phase_after_all(Phase::Idle, inputs.push(next)) is Some,
    ensures
        match after_all(initial::<W, S>(verbosity), inputs).refusal(
            next.ev,
            next.printed.len(),
        ) {
            Some(misuse) => !misuse.is_of_order(),
            None => true,
        },
{
    assert(inputs.push(next).drop_last() =~= inputs);
    lemma_in_phase(verbosity, inputs);
    let state = after_all(initial::<W, S>(verbosity), inputs);
    if phase_after_all(Phase::Idle, inputs)->0 is InScenario {
        lemma_started_scenario(state.events, 0);
    }
}

// ---------------------------------------------------------------------------
// The report
// ---------------------------------------------------------------------------

/// Something that happens to a scenario.
pub struct Occurrence<W, S> {
    pub feature: Feature,
    pub rule: Option<Rule>,
    pub scenario: Scenario,
    pub ev: event::Scenario<W, S>,
    pub at: i128,
}

/// What happens to a scenario, if the event is one of a scenario.
pub open spec fn occurrence<W, S>(ev: parser::Result<Event<Cucumber<W, S>>>) -> Option<
    Occurrence<W, S>,
> {
    match ev {
        Ok(e) => match e.value {
            Cucumber::Feature(
                feature,
                event::Feature::Rule(rule, event::Rule::Scenario(scenario, inner)),
            ) => Some(Occurrence { feature, rule: Some(rule), scenario, ev: inner, at: e.at }),
            Cucumber::Feature(feature, event::Feature::Scenario(scenario, inner)) => Some(
                Occurrence { feature, rule: None, scenario, ev: inner, at: e.at },
            ),
            _ => None,
        },
        Err(_) => None,
    }
}

/// The feature that starts and when it does, if the event is the start of one.
pub open spec fn feature_start<W, S>(ev: parser::Result<Event<Cucumber<W, S>>>) -> Option<
    (Feature, i128),
> {
    match ev {
        Ok(e) => match e.value {
            Cucumber::Feature(feature, event::Feature::Started) => Some((feature, e.at)),
            _ => None,
        },
        Err(_) => None,
    }
}

/// The feature that finishes, if the event is the end of one.
pub open spec fn feature_end<W, S>(ev: parser::Result<Event<Cucumber<W, S>>>) -> Option<Feature> {
    match ev {
        Ok(e) => match e.value {
            Cucumber::Feature(feature, event::Feature::Finished) => Some(feature),
            _ => None,
        },
        Err(_) => None,
    }
}

/// When the scenario started that started last.
pub open spec fn scenario_start<W, S>(inputs: Seq<Input<W, S>>) -> i128
    decreases inputs.len(),
{
    if inputs.len() == 0 {
        0
    } else {
        match occurrence(inputs.last().ev) {
            Some(o) => if o.ev is Started {
                o.at
            } else {
                scenario_start(inputs.drop_last())
            },
            None => scenario_start(inputs.drop_last()),
        }
    }
}

/// What has happened to the scenario that started last, with its start.
pub open spec fn scenario_events<W, S>(inputs: Seq<Input<W, S>>) -> Seq<event::Scenario<W, S>>
    decreases inputs.len(),
{
    if inputs.len() == 0 {
        Seq::empty()
    } else {
        match occurrence(inputs.last().ev) {
            Some(o) => if o.ev is Started {
                seq![o.ev]
            } else {
                scenario_events(inputs.drop_last()).push(o.ev)
            },
            None => scenario_events(inputs.drop_last()),
        }
    }
}

/// The test case of a scenario that started and to which all happened in
/// `inputs`, and that finishes with `end`.
pub open spec fn finished_case<W, S>(
    inputs: Seq<Input<W, S>>,
    end: Occurrence<W, S>,
    printed: Seq<Seq<char>>,
) -> CaseView {
    scenario_case(
        end.feature,
        end.rule,
        end.scenario,
        scenario_events(inputs),
        printed,
        end.at - scenario_start(inputs),
    )
}

/// The test suite of the feature that started last, with the test case of each
/// scenario that has finished since.
pub open spec fn feature_suite<W, S>(inputs: Seq<Input<W, S>>) -> SuiteView
    decreases inputs.len(),
{
    if inputs.len() == 0 {
        empty_suite(Seq::empty(), utc(0))
    } else {
        let before = inputs.drop_last();
        let last = inputs.last();
        match feature_start(last.ev) {
            Some((feature, at)) => empty_suite(suite_name(feature), utc(at as int)),
            None => match occurrence(last.ev) {
                Some(o) => if o.ev is Finished {
                    with_case(feature_suite(before), finished_case(before, o, last.printed))
                } else {
                    feature_suite(before)
                },
                None => feature_suite(before),
            },
        }
    }
}

/// The test suites of a run: one for each error, and one for each feature that
/// has finished, in the order in which these came.
pub open spec fn suites_of<W, S>(inputs: Seq<Input<W, S>>) -> Seq<SuiteView>
    decreases inputs.len(),
{
    if inputs.len() == 0 {
        Seq::empty()
    } else {
        let before = inputs.drop_last();
        let last = inputs.last();
        match last.ev {
            Err(error) => suites_of(before).push(error_suite(error, last.now)),
            Ok(_) => if feature_end(last.ev) is Some {
                suites_of(before).push(feature_suite(before))
            } else {
                suites_of(before)
            },
        }
    }
}

/// What a writer has kept of a run, where the run is, if all its events came in
/// order.
spec fn keeps<W, S>(state: State<W, S>, inputs: Seq<Input<W, S>>, phase: Phase) -> bool {
    &&& state.report == suites_of(inputs)
    &&& phase is Idle || state.suit == Some(feature_suite(inputs))
    &&& phase is InScenario ==> {
        &&& state.events == scenario_events(inputs)
        &&& state.scenario_started_at == Some(scenario_start(inputs))
    }
}

proof fn lemma_keeps<W, S>(verbosity: Verbosity, inputs: Seq<Input<W, S>>)
    requires
        phase_after_all(Phase::Idle, inputs) is Some,
    ensures
        keeps(
            after_all(initial::<W, S>(verbosity), inputs),
            inputs,
            phase_after_all(Phase::Idle, inputs)->0,
        ),
    decreases inputs.len(),
{
    if inputs.len() > 0 {
        let before = inputs.drop_last();
        lemma_keeps(verbosity, before);
        lemma_in_phase(verbosity, before);
        let state = after_all(initial::<W, S>(verbosity), before);
        let next = after_all(initial::<W, S>(verbosity), inputs);
        let o = occurrence(inputs.last().ev);
        if o is Some && o->0.ev is Started {
            assert(next.events =~= seq![o->0.ev]);
        }
    }
}

/// The report on a run whose events come in order holds one test suite for each
/// error of the parser, whenever it came, and one for each feature that has
/// finished, in the order in which these came. The test suite of a feature holds
/// one test case for each scenario that finished since the feature started, in
/// order. The times of the events and the options that they come with are free.
pub proof fn law_report_of_inputs<W, S>(verbosity: Verbosity, inputs: Seq<Input<W, S>>)
    requires
        phase_after_all(Phase::Idle, inputs) is Some,
    ensures
        after_all(initial::<W, S>(verbosity), inputs).report == suites_of(inputs),
{
    lemma_keeps(verbosity, inputs);
}

/// The names of the test suites of a run.
pub open spec fn suite_names<W, S>(inputs: Seq<Input<W, S>>) -> Seq<Seq<char>>
    decreases inputs.len(),
{
    if inputs.len() == 0 {
        Seq::empty()
    } else {
        let before = suite_names(inputs.drop_last());
        match inputs.last().ev {
            Err(_) => before.push("Errors"@),
            Ok(_) => match feature_end(inputs.last().ev) {
                Some(feature) => before.push(suite_name(feature)),
                None => before,
            },
        }
    }
}

/// The names of the test cases of the feature that started last.
pub open spec fn case_names<W, S>(inputs: Seq<Input<W, S>>) -> Seq<Seq<char>>
    decreases inputs.len(),
{
    if inputs.len() == 0 || feature_start(inputs.last().ev) is Some {
        Seq::empty()
    } else {
        let before = case_names(inputs.drop_last());
        match occurrence(inputs.last().ev) {
            Some(o) => if o.ev is Finished {
                before.push(case_name(o.feature, o.rule, o.scenario))
            } else {
                before
            },
            None => before,
        }
    }
}

proof fn lemma_feature_suite_name<W, S>(inputs: Seq<Input<W, S>>)
    requires
        phase_after_all(Phase::Idle, inputs) is Some,
    ensures
        match phase_after_all(Phase::Idle, inputs)->0 {
            Phase::Idle => true,
            Phase::InFeature { feature } => feature_suite(inputs).name == suite_name(feature),
            Phase::InScenario { feature, rule, scenario } => feature_suite(inputs).name
                == suite_name(feature),
        },
    decreases inputs.len(),
{
    if inputs.len() > 0 {
        lemma_feature_suite_name(inputs.drop_last());
    }
}

/// The test suites of a run whose events come in order are named after the errors
/// and the features that finished, in the order in which these came.
pub proof fn law_suite_names<W, S>(inputs: Seq<Input<W, S>>)
    requires
        phase_after_all(Phase::Idle, inputs) is Some,
    ensures
        suites_of(inputs).map_values(|suite: SuiteView| suite.name) == suite_names(inputs),
    decreases inputs.len(),
{
    let names = suites_of(inputs).map_values(|suite: SuiteView| suite.name);
    if inputs.len() > 0 {
        let before = inputs.drop_last();
        law_suite_names(before);
        lemma_feature_suite_name(before);
        let earlier = suites_of(before).map_values(|suite: SuiteView| suite.name);
        if suites_of(inputs).len() > suites_of(before).len() {
            assert(names =~= earlier.push(suites_of(inputs).last().name));
        }
    } else {
        assert(names =~= suite_names(inputs));
    }
}

/// The test cases of a feature are named after its scenarios that finished, in
/// the order in which they did.
pub proof fn law_case_names<W, S>(inputs: Seq<Input<W, S>>)
    ensures
        feature_suite(inputs).testcases.map_values(|case: CaseView| case.name) == case_names(
            inputs,
        ),
    decreases inputs.len(),
{
    let cases = feature_suite(inputs).testcases;
    let names = cases.map_values(|case: CaseView| case.name);
    if inputs.len() == 0 || feature_start(inputs.last().ev) is Some {
        assert(names =~= Seq::empty());
    } else {
        let before = inputs.drop_last();
        law_case_names(before);
        let earlier = feature_suite(before).testcases.map_values(|case: CaseView| case.name);
        if cases.len() > feature_suite(before).testcases.len() {
            assert(names =~= earlier.push(cases.last().name));
        }
    }
}

// ---------------------------------------------------------------------------
// The times
// ---------------------------------------------------------------------------

/// Whether the time of an input, and what was printed for it, fit what came
/// before: a feature starts at a date, a scenario ends no earlier than it started
/// and after no more time than a duration can represent, each of its events was
/// printed once, and the run finishes with a report that can be written.
pub open spec fn fits<W, S>(before: Seq<Input<W, S>>, last: Input<W, S>) -> bool {
    &&& feature_start(last.ev) matches Some((_, at)) ==> MIN_DATE <= at <= MAX_DATE
    &&& occurrence(last.ev) matches Some(o) ==> o.ev is Finished ==> {
        &&& 0 <= o.at - scenario_start(before) <= MAX_DURATION
        &&& last.printed.len() == scenario_events(before).len()
    }
    &&& finishes(last.ev) ==> report_fault(suites_of(before)) is None
}

/// Whether each of the `inputs` fits those before it.
pub open spec fn all_fit<W, S>(inputs: Seq<Input<W, S>>) -> bool
    decreases inputs.len(),
{
    inputs.len() == 0 || (all_fit(inputs.drop_last()) && fits(inputs.drop_last(), inputs.last()))
}

/// Events that come in order are all handled exactly if their times fit, scenario
/// by scenario: a writer that is fed by one that puts the events into order meets
/// no other misuse. Errors may come at any time, and the clock may go back between
/// one scenario and the next.
pub proof fn law_events_in_order_are_handled<W, S>(
    verbosity: Verbosity,
    inputs: Seq<Input<W, S>>,
)
    requires
        phase_after_all(Phase::Idle, inputs) is Some,
    ensures
        all_handled(initial::<W, S>(verbosity), inputs) <==> all_fit(inputs),
    decreases inputs.len(),
{
    if inputs.len() > 0 {
        let before = inputs.drop_last();
        law_events_in_order_are_handled(verbosity, before);
        lemma_in_phase(verbosity, before);
        lemma_keeps(verbosity, before);
        let state = after_all(initial::<W, S>(verbosity), before);
        if phase_after_all(Phase::Idle, before)->0 is InScenario {
            lemma_started_scenario(state.events, 0);
        }
    }
}

/// When a run finishes whose events came in order and whose times fit, all its
/// events have been handled, and the XML document of the test suites of the run is
/// given.
pub proof fn law_finished_inputs<W, S>(
    verbosity: Verbosity,
    inputs: Seq<Input<W, S>>,
    finish: Input<W, S>,
)
    requires
        phase_after_all(Phase::Idle, inputs) == Some(Phase::Idle),
        finishes(finish.ev),
        all_fit(inputs),
        report_fault(suites_of(inputs)) is None,
    ensures
        all_handled(initial::<W, S>(verbosity), inputs.push(finish)),
        after_all(initial::<W, S>(verbosity), inputs).report == suites_of(inputs),
        forall|written: Option<Result<Vec<u8>, XmlError>>|
            #[trigger] written_as(
                written,
                finish.ev,
                after_all(initial::<W, S>(verbosity), inputs).report,
            ) ==> {
                &&& written is Some
                &&& written->0 matches Ok(bytes) && bytes@ == report_xml(suites_of(inputs))
            },
{
    assert(inputs.push(finish).drop_last() =~= inputs);
    law_events_in_order_are_handled(verbosity, inputs.push(finish));
    law_report_of_inputs(verbosity, inputs);
}

/// The time of the last event, or the start of the year 0 if there is none.
pub open spec fn latest<W, S>(inputs: Seq<Input<W, S>>) -> int
    decreases inputs.len(),
{
    if inputs.len() == 0 {
        MIN_RFC3339_DATE as int
    } else {
        match inputs.last().ev {
            Err(_) => latest(inputs.drop_last()),
            Ok(ev) => ev.at as int,
        }
    }
}

/// Whether no event has a time before that of an earlier one, and all times, those
/// at which errors are handled too, lie in the years 0 to 9999.
pub open spec fn steady<W, S>(inputs: Seq<Input<W, S>>) -> bool
    decreases inputs.len(),
{
    inputs.len() == 0 || (steady(inputs.drop_last()) && match inputs.last().ev {
        Err(_) => has_rfc3339(inputs.last().now),
        Ok(ev) => latest(inputs.drop_last()) <= ev.at <= MAX_DATE,
    })
}

/// Whether for each scenario that finishes each of its events was printed once.
pub open spec fn all_printed<W, S>(inputs: Seq<Input<W, S>>) -> bool
    decreases inputs.len(),
{
    inputs.len() == 0 || (all_printed(inputs.drop_last()) && (occurrence(
        inputs.last().ev,
    ) matches Some(o) ==> o.ev is Finished ==> inputs.last().printed.len() == scenario_events(
        inputs.drop_last(),
    ).len()))
}

/// Whether the test suite can be written, with test cases that together took no
/// longer than from its start to `until`.
spec fn suite_until(suite: SuiteView, until: int) -> bool {
    &&& has_rfc3339(suite.timestamp)
    &&& has_total_time(suite.testcases)
    &&& 0 <= total_time(suite.testcases) <= until - suite.timestamp.nanos
}

/// What holds of the times of a run by a steady clock.
spec fn in_time<W, S>(inputs: Seq<Input<W, S>>, phase: Phase) -> bool {
    &&& report_fault(suites_of(inputs)) is None
    &&& MIN_RFC3339_DATE <= latest(inputs) <= MAX_DATE
    &&& phase is InFeature ==> suite_until(feature_suite(inputs), latest(inputs))
    &&& phase is InScenario ==> {
        &&& suite_until(feature_suite(inputs), scenario_start(inputs) as int)
        &&& scenario_start(inputs) <= latest(inputs)
    }
}

proof fn lemma_in_time<W, S>(inputs: Seq<Input<W, S>>)
    requires
        phase_after_all(Phase::Idle, inputs) is Some,
        steady(inputs),
        all_printed(inputs),
    ensures
        all_fit(inputs),
        in_time(inputs, phase_after_all(Phase::Idle, inputs)->0),
    decreases inputs.len(),
{
    if inputs.len() > 0 {
        let before = inputs.drop_last();
        lemma_in_time(before);
        let last = inputs.last();
        let suites = suites_of(inputs);
        if suites.len() > suites_of(before).len() {
            assert(suites.drop_last() =~= suites_of(before));
        }
        match last.ev {
            Err(error) => {
                let suite = error_suite(error, last.now);
                assert(suite.testcases.drop_last() =~= Seq::empty());
                reveal_with_fuel(has_total_time, 2);
                reveal_with_fuel(total_time, 2);
                assert(suite_fault(suite) is None);
            },
            Ok(_) => {
                let cases = feature_suite(inputs).testcases;
                if cases.len() > feature_suite(before).testcases.len() {
                    assert(cases.drop_last() =~= feature_suite(before).testcases);
                }
            },
        }
    }
}

/// Times of a clock that shows the years 0 to 9999 and never goes back fit: if
/// events come in order by such a clock, and each of those of a finished scenario
/// was printed once, the report on them can always be written.
pub proof fn law_steady_clock_fits<W, S>(inputs: Seq<Input<W, S>>)
    requires
        phase_after_all(Phase::Idle, inputs) is Some,
        steady(inputs),
        all_printed(inputs),
    ensures
        all_fit(inputs),
        report_fault(suites_of(inputs)) is None,
{
    lemma_in_time(inputs);
}

// ---------------------------------------------------------------------------
// One scenario
// ---------------------------------------------------------------------------

/// Whatever a writer knew before, and whatever comes between the start of a scenario
/// and the next end of one, as long as it is no other start: the test case took the
/// time from that start to that end, unless its last word is that a step was skipped.
pub proof fn law_time_from_start_to_end<W, S>(
    state: State<W, S>,
    start: Input<W, S>,
    between: Seq<Input<W, S>>,
    end: Input<W, S>,
)
    requires
        occurrence(start.ev) matches Some(o) && o.ev is Started,
        occurrence(end.ev) matches Some(o) && o.ev is Finished,
        forall|i: int|
            0 <= i < between.len() ==> (occurrence((#[trigger] between[i]).ev) matches Some(o)
                ==> !(o.ev is Started) && !(o.ev is Finished)),
        after_all(state.after(start.ev, start.cli, start.printed, start.now), between).refusal(
            end.ev,
            end.printed.len(),
        ) is None,
    ensures
        ({
            let before = after_all(
                state.after(start.ev, start.cli, start.printed, start.now),
                between,
            );
            let after = before.after(end.ev, end.cli, end.printed, end.now);
            let case = after.suit->0.testcases.last();
            &&& case.time == if case.result is Skipped {
                0
            } else {
                occurrence(end.ev)->0.at - occurrence(start.ev)->0.at
            }
            &&& case.result is Skipped <==> exists|i: int| #[trigger]
                is_last_word(before.events, i) && is_skip(before.events[i])
        }),
{
    let first = state.after(start.ev, start.cli, start.printed, start.now);
    let before = after_all(first, between);
    lemma_start_stays_known(first, between);
    let o = occurrence(end.ev)->0;
    law_last_word_is_found(before.events);
    law_end_of_a_scenario(
        before.after_cli(end.cli),
        o.feature,
        o.rule,
        o.scenario,
        before.scenario_started_at->0,
        o.at,
        end.printed,
    );
    let i = choose|i: int| #[trigger] is_last_word(before.events, i);
    assert(is_last_word(before.events, i));
}

/// When a scenario started stays known until a scenario starts or finishes.
proof fn lemma_start_stays_known<W, S>(state: State<W, S>, inputs: Seq<Input<W, S>>)
    requires
        forall|i: int|
            0 <= i < inputs.len() ==> (occurrence((#[trigger] inputs[i]).ev) matches Some(o)
                ==> !(o.ev is Started) && !(o.ev is Finished)),
    ensures
        after_all(state, inputs).scenario_started_at == state.scenario_started_at,
    decreases inputs.len(),
{
    if inputs.len() > 0 {
        let front = inputs.drop_last();
        assert forall|i: int| 0 <= i < front.len() implies (occurrence(
            (#[trigger] front[i]).ev,
        ) matches Some(o) ==> !(o.ev is Started) && !(o.ev is Finished)) by {
            assert(front[i] == inputs[i]);
        }
        lemma_start_stays_known(state, front);
        assert(inputs[inputs.len() - 1] == inputs.last());
    }
}

} // verus!
