//! What holds of any events: what a report tells of them, what they change, and when
//! they are refused.

use crate::event;
use crate::event::{Cucumber, Event, Hook, HookType, Step};
use crate::junit::written_as;
use crate::model::{
    case_misuse, case_name, deciding_event, error_name, error_suite,
    finishes_scenario, initial, is_passing_after_hook, position_text, result_of, rule_value,
    scenario_case, suite_name, Cli, Misuse, State, Verbosity,
};
use crate::parser;
use crate::report::{
    report_fault, report_xml, with_case, CaseView, DateView, ResultView, SuiteView, XmlError,
};
use crate::syntax::{Feature, LineCol, Rule, Scenario};
use crate::text::{
    concatenation, decimal, holds_all, is_digit, is_numeral, law_concatenation_holds_all,
    law_decimal_is_read_back, number,
};
use vstd::prelude::*;
use vstd::utf8::{decode_utf8, valid_utf8};

verus! {

/// An event, the options and the printed texts that it comes with, and the time
/// at which it is handled.
pub struct Input<W, S> {
    pub ev: parser::Result<Event<Cucumber<W, S>>>,
    pub cli: Cli,
    pub printed: Seq<Seq<char>>,
    pub now: DateView,
}

/// The state after all `inputs`.
pub open spec fn after_all<W, S>(state: State<W, S>, inputs: Seq<Input<W, S>>) -> State<W, S>
    decreases inputs.len(),
{
    if inputs.len() == 0 {
        state
    } else {
        let last = inputs.last();
        after_all(state, inputs.drop_last()).after(last.ev, last.cli, last.printed, last.now)
    }
}

/// Whether each of the `inputs` can be handled after those before it.
pub open spec fn all_handled<W, S>(state: State<W, S>, inputs: Seq<Input<W, S>>) -> bool
    decreases inputs.len(),
{
    inputs.len() == 0 || (all_handled(state, inputs.drop_last()) && after_all(
        state,
        inputs.drop_last(),
    ).refusal(inputs.last().ev, inputs.last().printed.len()) is None)
}

// ---------------------------------------------------------------------------
// How a scenario ended
// ---------------------------------------------------------------------------

/// The last event that says more than that a hook after the scenario started or
/// passed decides how the scenario ended.
pub proof fn law_deciding_event<W, S>(events: Seq<event::Scenario<W, S>>, i: int)
    requires
        0 <= i < events.len(),
        !is_passing_after_hook(events[i]),
        forall|j: int| i < j < events.len() ==> is_passing_after_hook(#[trigger] events[j]),
    ensures
        deciding_event(events) == Some(events[i]),
    decreases events.len(),
{
    if i < events.len() - 1 {
        assert(is_passing_after_hook(events.last()));
        law_deciding_event(events.drop_last(), i);
    }
}

/// No event decides how a scenario ended exactly if all of them say only that a
/// hook after the scenario started or passed.
pub proof fn law_no_deciding_event<W, S>(events: Seq<event::Scenario<W, S>>)
    ensures
        deciding_event(events) is None <==> forall|i: int|
            0 <= i < events.len() ==> is_passing_after_hook(#[trigger] events[i]),
    decreases events.len(),
{
    if events.len() > 0 {
        let front = events.drop_last();
        law_no_deciding_event(front);
        assert(forall|i: int| 0 <= i < front.len() ==> front[i] == events[i]);
        if deciding_event(events) is None {
            assert forall|i: int| 0 <= i < events.len() implies is_passing_after_hook(
                #[trigger] events[i],
            ) by {
                if i < front.len() {
                    assert(is_passing_after_hook(front[i]));
                }
            }
        } else if forall|i: int|
            0 <= i < events.len() ==> is_passing_after_hook(#[trigger] events[i]) {
            assert forall|i: int| 0 <= i < front.len() implies is_passing_after_hook(
                #[trigger] front[i],
            ) by {
                assert(is_passing_after_hook(events[i]));
            }
            assert(is_passing_after_hook(events.last()));
        }
    }
}

/// Hooks that run after a scenario and pass do not change how it ended.
pub proof fn law_passing_after_hooks_decide_nothing<W, S>(
    events: Seq<event::Scenario<W, S>>,
    hooks: Seq<event::Scenario<W, S>>,
)
    requires
        forall|i: int| 0 <= i < hooks.len() ==> is_passing_after_hook(#[trigger] hooks[i]),
    ensures
        deciding_event(events + hooks) == deciding_event(events),
    decreases hooks.len(),
{
    if hooks.len() == 0 {
        assert(events + hooks =~= events);
    } else {
        assert(is_passing_after_hook(hooks.last()));
        assert((events + hooks).drop_last() =~= events + hooks.drop_last());
        law_passing_after_hooks_decide_nothing(events, hooks.drop_last());
    }
}

/// Whether the event `i` is the last word on how a scenario ended: all that came
/// after it is that hooks after the scenario started or passed, and it says more.
pub open spec fn is_last_word<W, S>(events: Seq<event::Scenario<W, S>>, i: int) -> bool {
    &&& 0 <= i < events.len()
    &&& !(events[i] matches event::Scenario::Hook(HookType::After, Hook::Started))
    &&& !(events[i] matches event::Scenario::Hook(HookType::After, Hook::Passed))
    &&& forall|j: int|
        i < j < events.len() ==> {
            ||| (#[trigger] events[j]) matches event::Scenario::Hook(HookType::After, Hook::Started)
            ||| events[j] matches event::Scenario::Hook(HookType::After, Hook::Passed)
        }
}

/// The message of a step that failed, of the background or not, if the event says
/// that one did.
pub open spec fn step_failure<W, S>(ev: event::Scenario<W, S>) -> Option<Seq<char>> {
    match ev {
        event::Scenario::Background(_, Step::Failed(_, message)) => Some(message@),
        event::Scenario::Step(_, Step::Failed(_, message)) => Some(message@),
        _ => None,
    }
}

/// The message of a hook that failed, before or after the scenario, if the event
/// says that one did.
pub open spec fn hook_failure<W, S>(ev: event::Scenario<W, S>) -> Option<Seq<char>> {
    match ev {
        event::Scenario::Hook(_, Hook::Failed(_, message)) => Some(message@),
        _ => None,
    }
}

/// Whether the event says that a step was skipped, of the background or not.
pub open spec fn is_skip<W, S>(ev: event::Scenario<W, S>) -> bool {
    match ev {
        event::Scenario::Background(_, Step::Skipped) => true,
        event::Scenario::Step(_, Step::Skipped) => true,
        _ => false,
    }
}

/// Whether a test case tells of a scenario on which `ev` is the last word, and
/// which took `nanos` nanoseconds: it failed exactly if a step or a hook failed,
/// with the message of that, it was skipped exactly if a step was, and it took all
/// of the time unless it was skipped.
pub open spec fn tells<W, S>(case: CaseView, ev: event::Scenario<W, S>, nanos: int) -> bool {
    &&& step_failure(ev) matches Some(said) ==> case.result == (ResultView::Failure {
        type_: "Step Panicked"@,
        message: said,
    })
    &&& hook_failure(ev) matches Some(said) ==> case.result == (ResultView::Failure {
        type_: "Hook Panicked"@,
        message: said,
    })
    &&& case.result is Failure <==> step_failure(ev) is Some || hook_failure(ev) is Some
    &&& case.result is Skipped <==> is_skip(ev)
    &&& case.result is Success <==> step_failure(ev) is None && hook_failure(ev) is None
        && !is_skip(ev)
    &&& case.time == if is_skip(ev) {
        0
    } else {
        nanos
    }
}

/// The last word on a scenario is what decides, and there is one unless hooks after
/// the scenario are all that is known.
pub proof fn law_last_word_is_found<W, S>(events: Seq<event::Scenario<W, S>>)
    ensures
        forall|i: int| #[trigger]
            is_last_word(events, i) ==> deciding_event(events) == Some(events[i]),
        deciding_event(events) is Some <==> exists|i: int| #[trigger] is_last_word(events, i),
        deciding_event(events) is None <==> forall|i: int|
            0 <= i < events.len() ==> {
                ||| (#[trigger] events[i]) matches event::Scenario::Hook(
                    HookType::After,
                    Hook::Started,
                )
                ||| events[i] matches event::Scenario::Hook(HookType::After, Hook::Passed)
            },
    decreases events.len(),
{
    assert forall|i: int| #[trigger] is_last_word(events, i) implies deciding_event(events) == Some(
        events[i],
    ) by {
        law_deciding_event(events, i);
    }
    if events.len() > 0 {
        let front = events.drop_last();
        let last = events.len() - 1;
        law_last_word_is_found(front);
        if is_passing_after_hook(events.last()) {
            if deciding_event(front) is Some {
                let i = choose|i: int| #[trigger] is_last_word(front, i);
                assert(front[i] == events[i]);
                assert forall|j: int| i < j < events.len() implies {
                    ||| (#[trigger] events[j]) matches event::Scenario::Hook(
                        HookType::After,
                        Hook::Started,
                    )
                    ||| events[j] matches event::Scenario::Hook(HookType::After, Hook::Passed)
                } by {
                    if j < last {
                        assert(front[j] == events[j]);
                    }
                }
                assert(is_last_word(events, i));
            } else {
                assert(forall|i: int| 0 <= i < front.len() ==> front[i] == events[i]);
                assert forall|i: int| 0 <= i < events.len() implies {
                    ||| (#[trigger] events[i]) matches event::Scenario::Hook(
                        HookType::After,
                        Hook::Started,
                    )
                    ||| events[i] matches event::Scenario::Hook(HookType::After, Hook::Passed)
                } by {
                    if i < last {
                        assert(front[i] == events[i]);
                    }
                }
            }
        } else {
            assert(is_last_word(events, last));
        }
        if deciding_event(events) is Some {
            let i = choose|i: int| #[trigger] is_last_word(events, i);
            assert(0 <= i < events.len());
        }
    }
}

/// A test case tells of the last word on its scenario, whatever came before that,
/// and holds all that was printed and nothing else.
pub proof fn law_case_tells_of_its_scenario<W, S>(
    feature: Feature,
    rule: Option<Rule>,
    scenario: Scenario,
    events: Seq<event::Scenario<W, S>>,
    printed: Seq<Seq<char>>,
    nanos: int,
)
    ensures
        ({
            let case = scenario_case(feature, rule, scenario, events, printed, nanos);
            &&& forall|i: int| #[trigger]
                is_last_word(events, i) && !(events[i] is Finished) ==> tells(
                    case,
                    events[i],
                    nanos,
                )
            &&& case.name == case_name(feature, rule, scenario)
            &&& case.system_out is Some
            &&& holds_all(case.system_out->0, printed)
            &&& case.system_err is None
            &&& case.classname is None
            &&& case.filepath is None
        }),
{
    law_last_word_is_found(events);
    law_concatenation_holds_all(printed);
}

/// How a scenario ended, and in what time, does not depend on which step or which
/// world its last word tells of, on whether that is a step of the background, on
/// what came before, or on what the scenario is called and printed.
pub proof fn law_last_word_is_all_that_counts<W, S>(
    events: Seq<event::Scenario<W, S>>,
    i: int,
    others: Seq<event::Scenario<W, S>>,
    j: int,
    nanos: int,
    feature: Feature,
    rule: Option<Rule>,
    scenario: Scenario,
    printed: Seq<Seq<char>>,
    other_feature: Feature,
    other_rule: Option<Rule>,
    other_scenario: Scenario,
    other_printed: Seq<Seq<char>>,
)
    requires
        is_last_word(events, i),
        is_last_word(others, j),
        step_failure(events[i]) == step_failure(others[j]),
        hook_failure(events[i]) == hook_failure(others[j]),
        is_skip(events[i]) == is_skip(others[j]),
    ensures
        ({
            let one = scenario_case(feature, rule, scenario, events, printed, nanos);
            let other = scenario_case(
                other_feature,
                other_rule,
                other_scenario,
                others,
                other_printed,
                nanos,
            );
            one.result == other.result && one.time == other.time
        }),
{
    law_last_word_is_found(events);
    law_last_word_is_found(others);
}

/// A test case that was not skipped takes as much longer as its scenario does.
pub proof fn law_time_goes_with_the_scenario<W, S>(
    feature: Feature,
    rule: Option<Rule>,
    scenario: Scenario,
    events: Seq<event::Scenario<W, S>>,
    printed: Seq<Seq<char>>,
    nanos: int,
    other_nanos: int,
)
    ensures
        ({
            let one = scenario_case(feature, rule, scenario, events, printed, nanos);
            let other = scenario_case(feature, rule, scenario, events, printed, other_nanos);
            &&& one == (CaseView { time: one.time, ..other })
            &&& if one.result is Skipped {
                one.time == 0 && other.time == 0
            } else {
                one.time - other.time == nanos - other_nanos
            }
        }),
{
}

/// A scenario succeeds, fails or is skipped: none is reported as erroneous.
pub proof fn law_no_scenario_is_erroneous<W, S>(ev: event::Scenario<W, S>)
    ensures
        !(result_of(ev) is Error),
{
}

/// What was printed for a scenario is what was printed for its first events, and
/// then what was printed for the others.
pub proof fn law_output_in_order(first: Seq<Seq<char>>, rest: Seq<Seq<char>>)
    ensures
        concatenation(first + rest) == concatenation(first) + concatenation(rest),
    decreases rest.len(),
{
    if rest.len() == 0 {
        assert(first + rest =~= first);
        assert(concatenation(first) + concatenation(rest) =~= concatenation(first));
    } else {
        assert((first + rest).drop_last() =~= first + rest.drop_last());
        law_output_in_order(first, rest.drop_last());
        assert(concatenation(first) + concatenation(rest) =~= concatenation(first)
            + concatenation(rest.drop_last()) + rest.last());
    }
}

/// Events that hold a start and no end decide how a scenario ended.
pub(crate) proof fn lemma_started_scenario<W, S>(events: Seq<event::Scenario<W, S>>, start: int)
    requires
        0 <= start < events.len(),
        events[start] is Started,
        forall|i: int| 0 <= i < events.len() ==> !((#[trigger] events[i]) is Finished),
    ensures
        case_misuse(events) is None,
    decreases events.len(),
{
    if is_passing_after_hook(events.last()) {
        lemma_started_scenario(events.drop_last(), start);
    } else {
        assert(!(events[events.len() - 1] is Finished));
    }
}

/// What a writer always knows of the running scenario: its end is not among its
/// events, and its start is if the time of the start is known.
spec fn knows_scenario<W, S>(state: State<W, S>) -> bool {
    &&& forall|i: int| 0 <= i < state.events.len() ==> !((#[trigger] state.events[i]) is Finished)
    &&& state.scenario_started_at is Some <==> exists|i: int|
        0 <= i < state.events.len() && (#[trigger] state.events[i]) is Started
}

proof fn lemma_knows_scenario<W, S>(verbosity: Verbosity, inputs: Seq<Input<W, S>>)
    ensures
        knows_scenario(after_all(initial::<W, S>(verbosity), inputs)),
    decreases inputs.len(),
{
    if inputs.len() > 0 {
        lemma_knows_scenario::<W, S>(verbosity, inputs.drop_last());
        let state = after_all(initial::<W, S>(verbosity), inputs.drop_last());
        let next = after_all(initial::<W, S>(verbosity), inputs);
        if next.events.len() == state.events.len() + 1 {
            let kept = state.events.len() as int;
            assert(forall|i: int| 0 <= i < kept ==> next.events[i] == state.events[i]);
            assert(!(next.events[kept] is Finished));
            if state.scenario_started_at is None && next.scenario_started_at is Some {
                assert(next.events[kept] is Started);
            }
            if state.scenario_started_at is Some {
                let i = choose|i: int|
                    0 <= i < state.events.len() && (#[trigger] state.events[i]) is Started;
                assert(next.events[i] is Started);
            }
        }
    }
}

/// Whatever events came before, and in whatever order, it is known when the
/// running scenario started exactly if its start is among its events, and its end
/// never is.
pub proof fn law_start_is_known<W, S>(verbosity: Verbosity, inputs: Seq<Input<W, S>>)
    ensures
        ({
            let state = after_all(initial::<W, S>(verbosity), inputs);
            &&& state.scenario_started_at is Some <==> exists|i: int|
                0 <= i < state.events.len() && (#[trigger] state.events[i]) is Started
            &&& forall|i: int|
                0 <= i < state.events.len() ==> !((#[trigger] state.events[i]) is Finished)
        }),
{
    lemma_knows_scenario::<W, S>(verbosity, inputs);
}

/// Whatever events came before, and in whatever order, a scenario that has
/// started and finishes has an event that decides how it ended, and that event is
/// not its end.
pub proof fn law_started_scenario_has_a_result<W, S>(
    verbosity: Verbosity,
    inputs: Seq<Input<W, S>>,
)
    requires
        after_all(initial::<W, S>(verbosity), inputs).scenario_started_at is Some,
    ensures
        case_misuse(after_all(initial::<W, S>(verbosity), inputs).events) is None,
{
    lemma_knows_scenario::<W, S>(verbosity, inputs);
    let events = after_all(initial::<W, S>(verbosity), inputs).events;
    let i = choose|i: int| 0 <= i < events.len() && (#[trigger] events[i]) is Started;
    lemma_started_scenario(events, i);
}

/// Only the end of a scenario, the start and the end of a feature and the end of
/// the run can come at a wrong time.
pub proof fn law_other_events_are_handled<W, S>(state: State<W, S>, ev: Event<Cucumber<W, S>>)
    requires
        match ev.value {
            Cucumber::Started => true,
            Cucumber::Feature(_, event::Feature::Rule(_, event::Rule::Scenario(_, inner))) => !(
            inner is Finished),
            Cucumber::Feature(_, event::Feature::Rule(_, _)) => true,
            Cucumber::Feature(_, event::Feature::Scenario(_, inner)) => !(inner is Finished),
            _ => false,
        },
    ensures
        forall|printed: nat| state.refusal(Ok(ev), printed) is None,
{
}

// ---------------------------------------------------------------------------
// What an event leaves alone
// ---------------------------------------------------------------------------

/// A report only grows: the test suites that are in it stay as they are.
pub proof fn law_report_grows<W, S>(state: State<W, S>, inputs: Seq<Input<W, S>>)
    ensures
        state.report.is_prefix_of(after_all(state, inputs).report),
    decreases inputs.len(),
{
    if inputs.len() > 0 {
        law_report_grows(state, inputs.drop_last());
    }
}

/// An error of the parser adds one test suite with one test case, and disturbs
/// no feature and no scenario that is running.
pub proof fn law_error_adds_a_suite<W, S>(
    state: State<W, S>,
    error: parser::Error,
    cli: Cli,
    printed: Seq<Seq<char>>,
    now: DateView,
)
    ensures
        ({
            let next = state.after(Err(error), cli, printed, now);
            &&& next.report == state.report.push(error_suite(error, now))
            &&& next.report.last().testcases.len() == 1
            &&& next.suit == state.suit
            &&& next.scenario_started_at == state.scenario_started_at
            &&& next.events == state.events
        }),
{
}

/// That the run or a rule starts or finishes changes nothing but what the options
/// ask for.
pub proof fn law_bystanders<W, S>(
    state: State<W, S>,
    ev: Event<Cucumber<W, S>>,
    cli: Cli,
    printed: Seq<Seq<char>>,
    now: DateView,
)
    requires
        match ev.value {
            Cucumber::Started => true,
            Cucumber::Finished => true,
            Cucumber::Feature(_, event::Feature::Rule(_, event::Rule::Started)) => true,
            Cucumber::Feature(_, event::Feature::Rule(_, event::Rule::Finished)) => true,
            _ => false,
        },
    ensures
        state.after(Ok(ev), cli, printed, now) == state.after_cli(cli),
{
}

/// The end of a scenario adds one test case to the test suite of the running
/// feature, and nothing of the scenario stays behind for the next one.
pub proof fn law_scenario_leaves_nothing_behind<W, S>(state: State<W, S>, input: Input<W, S>)
    requires
        finishes_scenario(input.ev),
        state.refusal(input.ev, input.printed.len()) is None,
    ensures
        ({
            let next = state.after(input.ev, input.cli, input.printed, input.now);
            &&& next.scenario_started_at is None
            &&& next.events.len() == 0
            &&& next.report == state.report
            &&& next.suit is Some
            &&& next.suit->0.testcases.len() == state.suit->0.testcases.len() + 1
            &&& next.suit->0 == (SuiteView {
                testcases: state.suit->0.testcases.push(next.suit->0.testcases.last()),
                ..state.suit->0
            })
        }),
{
}

/// That a scenario belongs to a rule shows in the name of its test case, which
/// starts with that of the rule, and nowhere else.
pub proof fn law_rule_shows_in_the_name_only<W, S>(
    state: State<W, S>,
    feature: Feature,
    rule: Rule,
    scenario: Scenario,
    ev: event::Scenario<W, S>,
    at: i128,
    cli: Cli,
    printed: Seq<Seq<char>>,
    now: DateView,
)
    ensures
        ({
            let within: parser::Result<Event<Cucumber<W, S>>> = Ok(
                Event {
                    at,
                    value: Cucumber::Feature(
                        feature,
                        event::Feature::Rule(rule, event::Rule::Scenario(scenario, ev)),
                    ),
                },
            );
            let without: parser::Result<Event<Cucumber<W, S>>> = Ok(
                Event {
                    at,
                    value: Cucumber::Feature(feature, event::Feature::Scenario(scenario, ev)),
                },
            );
            let one = state.after(within, cli, printed, now);
            let other = state.after(without, cli, printed, now);
            &&& state.refusal(within, printed.len()) == state.refusal(without, printed.len())
            &&& !(ev is Finished) ==> one == other
            &&& ev is Finished ==> {
                let case = other.suit->0.testcases.last();
                let named = CaseView {
                    name: "Rule: "@ + rule.name@ + ": "@ + case.name,
                    ..case
                };
                one == (State {
                    suit: Some(with_case(state.suit->0, named)),
                    ..other
                })
            }
        }),
{
    if ev is Finished {
        assert(case_name(feature, Some(rule), scenario) =~= "Rule: "@ + rule.name@ + ": "@
            + case_name(feature, None, scenario));
    }
}

/// The options change how much is printed, and nothing else of the report.
pub proof fn law_options_only_set_verbosity<W, S>(
    state: State<W, S>,
    inputs: Seq<Input<W, S>>,
    others: Seq<Input<W, S>>,
)
    requires
        inputs.len() == others.len(),
        forall|i: int|
            #![trigger inputs[i]]
            #![trigger others[i]]
            0 <= i < inputs.len() ==> inputs[i] == (Input { cli: inputs[i].cli, ..others[i] }),
    ensures
        after_all(state, inputs) == (State {
            verbosity: after_all(state, inputs).verbosity,
            ..after_all(state, others)
        }),
        all_handled(state, inputs) == all_handled(state, others),
    decreases inputs.len(),
{
    if inputs.len() > 0 {
        let front = inputs.drop_last();
        let other_front = others.drop_last();
        assert forall|i: int| 0 <= i < front.len() implies #[trigger] front[i] == (Input {
            cli: front[i].cli,
            ..other_front[i]
        }) by {
            assert(front[i] == inputs[i]);
        }
        law_options_only_set_verbosity(state, front, other_front);
        assert(inputs.last() == (Input { cli: inputs.last().cli, ..others.last() }));
    }
}

// ---------------------------------------------------------------------------
// What the names tell
// ---------------------------------------------------------------------------

/// The text of a path, if there is a path and its bytes are text.
pub open spec fn shown_path(path: Option<Vec<u8>>) -> Option<Seq<char>> {
    match path {
        Some(bytes) => if valid_utf8(bytes@) {
            Some(decode_utf8(bytes@))
        } else {
            None
        },
        None => None,
    }
}

/// Whether the text ends with the notation of a line, a colon and the notation of a
/// column, behind a character that belongs to neither number.
pub open spec fn ends_with_position(text: Seq<char>, position: LineCol) -> bool {
    exists|start: int, colon: int|
        {
            &&& 0 < start < colon < text.len()
            &&& !is_digit(text[start - 1])
            &&& #[trigger] is_numeral(text.subrange(start, colon))
            &&& number(text.subrange(start, colon)) == position.line
            &&& text[colon] == ':'
            &&& #[trigger] is_numeral(text.skip(colon + 1))
            &&& number(text.skip(colon + 1)) == position.col
        }
}

/// What stands at the end of a text behind a character that is no digit can be read
/// from there.
proof fn lemma_ends_with_position(before: Seq<char>, position: LineCol)
    requires
        before.len() > 0,
        !is_digit(before.last()),
    ensures
        ends_with_position(before + position_text(position), position),
{
    let line = decimal(position.line as nat);
    let col = decimal(position.col as nat);
    let text = before + position_text(position);
    law_decimal_is_read_back(position.line as nat);
    law_decimal_is_read_back(position.col as nat);
    reveal_strlit(":");
    let start = before.len() as int;
    let colon = start + line.len();
    assert(text.subrange(start, colon) =~= line);
    assert(text.skip(colon + 1) =~= col);
    assert(text[start - 1] == before.last());
    assert(text[colon] == ':');
    assert(is_numeral(text.subrange(start, colon)) && is_numeral(text.skip(colon + 1)));
}

/// One text tells of one position: it ends with no other.
pub proof fn law_one_position_is_told(text: Seq<char>, one: LineCol, other: LineCol)
    requires
        ends_with_position(text, one),
        ends_with_position(text, other),
    ensures
        one == other,
{
    let (start, colon) = choose|start: int, colon: int|
        {
            &&& 0 < start < colon < text.len()
            &&& !is_digit(text[start - 1])
            &&& #[trigger] is_numeral(text.subrange(start, colon))
            &&& number(text.subrange(start, colon)) == one.line
            &&& text[colon] == ':'
            &&& #[trigger] is_numeral(text.skip(colon + 1))
            &&& number(text.skip(colon + 1)) == one.col
        };
    let (from, mark) = choose|start: int, colon: int|
        {
            &&& 0 < start < colon < text.len()
            &&& !is_digit(text[start - 1])
            &&& #[trigger] is_numeral(text.subrange(start, colon))
            &&& number(text.subrange(start, colon)) == other.line
            &&& text[colon] == ':'
            &&& #[trigger] is_numeral(text.skip(colon + 1))
            &&& number(text.skip(colon + 1)) == other.col
        };
    if colon < mark {
        assert(is_digit(text.skip(colon + 1)[mark - colon - 1]));
    }
    if mark < colon {
        assert(is_digit(text.skip(mark + 1)[colon - mark - 1]));
    }
    if start < from {
        assert(is_digit(text.subrange(start, colon)[from - 1 - start]));
    }
    if from < start {
        assert(is_digit(text.subrange(from, mark)[start - 1 - from]));
    }
}

/// The test suite of a feature is named after the feature, and after its file
/// exactly if the path of that is text.
pub proof fn law_suite_is_named_after_its_feature(feature: Feature)
    ensures
        match shown_path(feature.path) {
            Some(path) => suite_name(feature) == "Feature: "@ + feature.name@ + ": "@ + path,
            None => suite_name(feature) == "Feature: "@ + feature.name@,
        },
{
    reveal_strlit("");
    match shown_path(feature.path) {
        Some(path) => {
            assert(suite_name(feature) =~= "Feature: "@ + feature.name@ + ": "@ + path);
        },
        None => {
            assert(suite_name(feature) =~= "Feature: "@ + feature.name@);
        },
    }
}

/// The test case of a scenario is named after the rule if there is one, after the
/// scenario, after the file if its path is text, and ends with the position.
pub proof fn law_case_is_named_after_its_scenario(
    feature: Feature,
    rule: Option<Rule>,
    scenario: Scenario,
)
    ensures
        ({
            let name = case_name(feature, rule, scenario);
            let of_rule = match rule {
                Some(rule) => "Rule: "@ + rule.name@ + ": Scenario: "@,
                None => "Scenario: "@,
            };
            let of_file = match shown_path(feature.path) {
                Some(path) => ": "@ + path + ":"@,
                None => ": "@,
            };
            let before = of_rule + scenario.name@ + of_file;
            &&& before.is_prefix_of(name)
            &&& ends_with_position(name, scenario.position)
            &&& name == before + decimal(scenario.position.line as nat) + ":"@ + decimal(
                scenario.position.col as nat,
            )
        }),
{
    let name = case_name(feature, rule, scenario);
    let of_rule = match rule {
        Some(rule) => "Rule: "@ + rule.name@ + ": Scenario: "@,
        None => "Scenario: "@,
    };
    let of_file = match shown_path(feature.path) {
        Some(path) => ": "@ + path + ":"@,
        None => ": "@,
    };
    let before = of_rule + scenario.name@ + of_file;
    reveal_strlit("");
    reveal_strlit(":");
    reveal_strlit(": ");
    reveal_strlit("Scenario: ");
    reveal_strlit(": Scenario: ");
    assert(name =~= before + position_text(scenario.position));
    assert(before.last() == of_file.last());
    lemma_ends_with_position(before, scenario.position);
}

/// Two scenarios of one file, and of one rule or of none, have test cases of one
/// name only if they have one name and one position.
pub proof fn law_cases_are_told_apart(
    feature: Feature,
    rule: Option<Rule>,
    one: Scenario,
    other: Scenario,
)
    requires
        case_name(feature, rule, one) == case_name(feature, rule, other),
    ensures
        one.name@ == other.name@,
        one.position == other.position,
{
    law_case_is_named_after_its_scenario(feature, rule, one);
    law_case_is_named_after_its_scenario(feature, rule, other);
    let name = case_name(feature, rule, one);
    law_one_position_is_told(name, one.position, other.position);
    let of_rule = match rule {
        Some(rule) => "Rule: "@ + rule.name@ + ": Scenario: "@,
        None => "Scenario: "@,
    };
    let start = of_rule.len() as int;
    assert(one.name@.len() == other.name@.len());
    assert(name.subrange(start, start + one.name@.len()) =~= one.name@);
    assert(name.subrange(start, start + one.name@.len()) =~= other.name@);
}

/// The test case of a file that could not be parsed is named after the file,
/// exactly if the path of that is text.
pub proof fn law_unparsed_file_is_named(error: parser::ParseFileError)
    ensures
        ({
            let name = error_name(parser::Error::Parsing(error));
            &&& valid_utf8(error.path@) ==> name == "Feature: "@ + decode_utf8(error.path@)
            &&& !valid_utf8(error.path@) ==> name == "Feature"@
        }),
{
    reveal_strlit("");
    reveal_strlit(": ");
    reveal_strlit("Feature");
    reveal_strlit("Feature: ");
    let name = error_name(parser::Error::Parsing(error));
    if valid_utf8(error.path@) {
        assert(name =~= "Feature: "@ + decode_utf8(error.path@));
    } else {
        assert(name =~= "Feature"@);
    }
}

/// The test case of examples that could not be filled in is named after the file if
/// its path is text, and ends with the line, a colon and the column.
pub proof fn law_unfilled_examples_are_named(error: parser::ExpandExamplesError)
    ensures
        ({
            let name = error_name(parser::Error::ExampleExpansion(error));
            let before = match shown_path(error.path) {
                Some(path) => "Feature: "@ + path + ":"@,
                None => "Feature: "@,
            };
            &&& before.is_prefix_of(name)
            &&& ends_with_position(name, error.pos)
            &&& name == before + decimal(error.pos.line as nat) + ":"@ + decimal(
                error.pos.col as nat,
            )
        }),
{
    reveal_strlit("");
    reveal_strlit(":");
    reveal_strlit("Feature: ");
    let before = match shown_path(error.path) {
        Some(path) => "Feature: "@ + path + ":"@,
        None => "Feature: "@,
    };
    let name = error_name(parser::Error::ExampleExpansion(error));
    assert(name =~= before + position_text(error.pos));
    lemma_ends_with_position(before, error.pos);
}

/// Examples that could not be filled in at different positions, or in files whose
/// paths differ as text, have test cases of different names.
pub proof fn law_unfilled_examples_are_told_apart(
    one: parser::ExpandExamplesError,
    other: parser::ExpandExamplesError,
)
    requires
        error_name(parser::Error::ExampleExpansion(one)) == error_name(
            parser::Error::ExampleExpansion(other),
        ),
    ensures
        one.pos == other.pos,
        shown_path(one.path) == shown_path(other.path),
{
    law_unfilled_examples_are_named(one);
    law_unfilled_examples_are_named(other);
    let name = error_name(parser::Error::ExampleExpansion(one));
    law_one_position_is_told(name, one.pos, other.pos);
    reveal_strlit(":");
    let start = "Feature: "@.len() as int;
    match (shown_path(one.path), shown_path(other.path)) {
        (Some(path), Some(other_path)) => {
            assert(name.subrange(start, start + path.len()) =~= path);
            assert(name.subrange(start, start + path.len()) =~= other_path);
        },
        _ => {},
    }
}

/// An error is reported as one failed test case that took no time, in a test suite
/// of its own with the name "Errors". The test case is named after the error, says
/// what the error says, and tells which kind of error it was.
pub proof fn law_error_is_one_failed_case(error: parser::Error, now: DateView)
    ensures
        ({
            let suite = error_suite(error, now);
            let case = suite.testcases[0];
            &&& suite.name == "Errors"@
            &&& suite.package == "testsuite/"@ + "Errors"@
            &&& suite.hostname == "localhost"@
            &&& suite.timestamp == now
            &&& suite.system_out is None
            &&& suite.system_err is None
            &&& suite.testcases.len() == 1
            &&& case.name == error_name(error)
            &&& case.time == 0
            &&& case.classname is None
            &&& case.filepath is None
            &&& case.system_out is None
            &&& case.system_err is None
            &&& case.result == match error {
                parser::Error::Parsing(e) => (ResultView::Failure {
                    type_: "Parser Error"@,
                    message: e.message@,
                }),
                parser::Error::ExampleExpansion(e) => (ResultView::Failure {
                    type_: "Example Expansion Error"@,
                    message: e.message@,
                }),
            }
        }),
{
}

// ---------------------------------------------------------------------------
// What the options do
// ---------------------------------------------------------------------------

/// Options that give a level decide the verbosity alone, whatever it was before: it
/// is the default one exactly if the level is 0. Options that give none leave it as
/// it is. To apply options twice is to apply them once.
pub proof fn law_level_decides_verbosity<W, S>(
    state: State<W, S>,
    other: State<W, S>,
    cli: Cli,
    level: u8,
)
    ensures
        cli.verbose == Some(level) ==> {
            &&& state.after_cli(cli).verbosity is Default <==> level == 0
            &&& state.after_cli(cli).verbosity is ShowWorld <==> level != 0
            &&& state.after_cli(cli).verbosity == other.after_cli(cli).verbosity
        },
        cli.verbose is None ==> state.after_cli(cli) == state,
        state.after_cli(cli).after_cli(cli) == state.after_cli(cli),
        state.after_cli(cli) == (State {
            verbosity: state.after_cli(cli).verbosity,
            ..state
        }),
{
}

/// After any events, the verbosity is the default one exactly if the last level that
/// the options gave was 0, and that of before if they gave none.
pub proof fn law_last_level_counts<W, S>(state: State<W, S>, inputs: Seq<Input<W, S>>, i: int)
    requires
        -1 <= i < inputs.len(),
        i >= 0 ==> inputs[i].cli.verbose is Some,
        forall|j: int| i < j < inputs.len() ==> (#[trigger] inputs[j]).cli.verbose is None,
    ensures
        i < 0 ==> after_all(state, inputs).verbosity == state.verbosity,
        i >= 0 ==> (after_all(state, inputs).verbosity is Default <==> inputs[i].cli.verbose
            == Some(0u8)),
    decreases inputs.len(),
{
    if inputs.len() > 0 && i < inputs.len() - 1 {
        let front = inputs.drop_last();
        assert(inputs[inputs.len() - 1].cli.verbose is None);
        assert forall|j: int| i < j < front.len() implies (
        #[trigger] front[j]).cli.verbose is None by {
            assert(inputs[j].cli.verbose is None);
        }
        law_last_level_counts(state, front, i);
    }
}

// ---------------------------------------------------------------------------
// What an event changes
// ---------------------------------------------------------------------------

/// Before the first event there is nothing to report, and the verbosity is the one
/// that was asked for.
pub proof fn law_nothing_is_known_at_first<W, S>(verbosity: Verbosity)
    ensures
        ({
            let state = initial::<W, S>(verbosity);
            &&& state.report.len() == 0
            &&& state.suit is None
            &&& state.scenario_started_at is None
            &&& state.events.len() == 0
            &&& state.verbosity == verbosity
        }),
{
}

/// The start of a feature starts a test suite without test cases, whose timestamp
/// is that moment in UTC, and changes nothing else.
pub proof fn law_start_of_a_feature<W, S>(
    state: State<W, S>,
    feature: Feature,
    at: i128,
    cli: Cli,
    printed: Seq<Seq<char>>,
    now: DateView,
)
    ensures
        ({
            let ev: parser::Result<Event<Cucumber<W, S>>> = Ok(
                Event { at, value: Cucumber::Feature(feature, event::Feature::Started) },
            );
            let next = state.after(ev, cli, printed, now);
            let suite = next.suit->0;
            &&& next == (State { suit: next.suit, ..state.after_cli(cli) })
            &&& next.suit is Some
            &&& suite.name == suite_name(feature)
            &&& suite.package == "testsuite/"@ + suite.name
            &&& suite.hostname == "localhost"@
            &&& suite.timestamp.nanos == at
            &&& suite.timestamp.offset == 0
            &&& suite.testcases.len() == 0
            &&& suite.system_out is None
            &&& suite.system_err is None
        }),
{
}

/// The end of a feature puts its test suite into the report as it is, behind the
/// others, and changes nothing else.
pub proof fn law_end_of_a_feature<W, S>(
    state: State<W, S>,
    feature: Feature,
    at: i128,
    cli: Cli,
    printed: Seq<Seq<char>>,
    now: DateView,
)
    requires
        state.suit is Some,
    ensures
        ({
            let ev: parser::Result<Event<Cucumber<W, S>>> = Ok(
                Event { at, value: Cucumber::Feature(feature, event::Feature::Finished) },
            );
            let next = state.after(ev, cli, printed, now);
            &&& next == (State { report: next.report, suit: None, ..state.after_cli(cli) })
            &&& next.report == state.report.push(state.suit->0)
        }),
{
}

/// An event of a scenario that is not its end is kept behind those before it, with
/// its time if it is the start, and changes nothing else.
pub proof fn law_event_of_a_scenario_is_kept<W, S>(
    state: State<W, S>,
    feature: Feature,
    rule: Option<Rule>,
    scenario: Scenario,
    ev: event::Scenario<W, S>,
    at: i128,
    printed: Seq<Seq<char>>,
)
    requires
        !(ev is Finished),
    ensures
        ({
            let next = state.after_scenario(feature, rule, scenario, ev, at, printed);
            &&& next == (State {
                events: next.events,
                scenario_started_at: next.scenario_started_at,
                ..state
            })
            &&& next.events == state.events.push(ev)
            &&& ev is Started ==> next.scenario_started_at == Some(at)
            &&& !(ev is Started) ==> next.scenario_started_at == state.scenario_started_at
        }),
{
}

/// The end of a scenario adds a test case that tells of its last word and of the
/// time since its start, is named after it, and holds all that was printed.
pub proof fn law_end_of_a_scenario<W, S>(
    state: State<W, S>,
    feature: Feature,
    rule: Option<Rule>,
    scenario: Scenario,
    started: i128,
    ended: i128,
    printed: Seq<Seq<char>>,
)
    requires
        state.suit is Some,
        state.scenario_started_at == Some(started),
    ensures
        ({
            let next = state.after_scenario(
                feature,
                rule,
                scenario,
                event::Scenario::Finished,
                ended,
                printed,
            );
            let case = next.suit->0.testcases.last();
            &&& next == (State {
                suit: Some(
                    (SuiteView {
                        testcases: state.suit->0.testcases.push(case),
                        ..state.suit->0
                    }),
                ),
                scenario_started_at: None,
                events: Seq::empty(),
                ..state
            })
            &&& forall|i: int| #[trigger]
                is_last_word(state.events, i) && !(state.events[i] is Finished) ==> tells(
                    case,
                    state.events[i],
                    ended - started,
                )
            &&& case.name == case_name(feature, rule, scenario)
            &&& case.system_out is Some
            &&& holds_all(case.system_out->0, printed)
            &&& case.system_err is None
            &&& case.classname is None
            &&& case.filepath is None
        }),
{
    law_case_tells_of_its_scenario(
        feature,
        rule,
        scenario,
        state.events,
        printed,
        ended - started,
    );
}

/// What an event of a scenario does and why it is refused is the same for one that
/// comes as an event of the whole run, in a rule or not, along with any options.
pub proof fn law_events_of_scenarios_are_passed_on<W, S>(
    state: State<W, S>,
    feature: Feature,
    rule: Rule,
    scenario: Scenario,
    ev: event::Scenario<W, S>,
    at: i128,
    cli: Cli,
    printed: Seq<Seq<char>>,
    now: DateView,
)
    ensures
        ({
            let within: parser::Result<Event<Cucumber<W, S>>> = Ok(
                Event {
                    at,
                    value: Cucumber::Feature(
                        feature,
                        event::Feature::Rule(rule, event::Rule::Scenario(scenario, ev)),
                    ),
                },
            );
            let without: parser::Result<Event<Cucumber<W, S>>> = Ok(
                Event {
                    at,
                    value: Cucumber::Feature(feature, event::Feature::Scenario(scenario, ev)),
                },
            );
            &&& state.after(within, cli, printed, now) == state.after_cli(cli).after_scenario(
                feature,
                Some(rule),
                scenario,
                ev,
                at,
                printed,
            )
            &&& state.after(without, cli, printed, now) == state.after_cli(cli).after_scenario(
                feature,
                None,
                scenario,
                ev,
                at,
                printed,
            )
            &&& state.misuse(within) == state.scenario_misuse(ev, at)
            &&& state.misuse(without) == state.scenario_misuse(ev, at)
        }),
{
}

/// A rule that is referred to is the rule itself.
pub proof fn law_rule_is_the_one_referred_to(rule: &Rule)
    ensures
        rule_value(Some(rule)) == Some(*rule),
        rule_value(None) is None,
{
}

// ---------------------------------------------------------------------------
// What is refused
// ---------------------------------------------------------------------------

/// When the end of a scenario is refused, and why: first that its start is not
/// known, then its times, then what is known of it, then that no feature is running,
/// and at last that not each of its events was printed once.
pub proof fn law_refused_ends_of_scenarios<W, S>(
    state: State<W, S>,
    ev: parser::Result<Event<Cucumber<W, S>>>,
    printed: nat,
)
    requires
        ev is Ok,
        match ev->Ok_0.value {
            Cucumber::Feature(
                _,
                event::Feature::Rule(_, event::Rule::Scenario(_, event::Scenario::Finished)),
            ) => true,
            Cucumber::Feature(_, event::Feature::Scenario(_, event::Scenario::Finished)) => true,
            _ => false,
        },
    ensures
        ({
            let refusal = state.refusal(ev, printed);
            let span = ev->Ok_0.at - state.scenario_started_at->0;
            let timely = state.scenario_started_at is Some && 0 <= span
                <= 9_223_372_036_854_775_807_999_999_999;
            let decided = exists|i: int| #[trigger]
                is_last_word(state.events, i) && !(state.events[i] is Finished);
            let ended = exists|i: int| #[trigger]
                is_last_word(state.events, i) && state.events[i] is Finished;
            &&& refusal == Some(Misuse::NoStarted) <==> state.scenario_started_at is None
            &&& state.scenario_started_at is Some && span < 0 <==> refusal == Some(
                (Misuse::TimeWentBack {
                    started: state.scenario_started_at->0,
                    ended: ev->Ok_0.at,
                }),
            )
            &&& refusal == Some(Misuse::DurationOutOfRange) <==> state.scenario_started_at is Some
                && span > 9_223_372_036_854_775_807_999_999_999
            &&& refusal == Some(Misuse::NoEvents) <==> timely && !decided && !ended
            &&& refusal == Some(Misuse::DuplicatedFinished) <==> timely && ended
            &&& refusal == Some(Misuse::NoSuiteForScenario) <==> timely && decided
                && state.suit is None
            &&& refusal == Some(Misuse::NotPrinted) <==> timely && decided && state.suit is Some
                && printed != state.events.len()
            &&& refusal is None <==> timely && decided && state.suit is Some && printed
                == state.events.len()
        }),
{
    law_last_word_is_found(state.events);
}

/// A feature may start at every date from the year -9999 to the year 9999 and at no
/// other time, and may finish exactly if one is running. A run may finish exactly if
/// its report can be written. Errors may come at any time. What was printed does not
/// count for any of these.
pub proof fn law_refused_events_of_features_and_runs<W, S>(
    state: State<W, S>,
    feature: Feature,
    error: parser::Error,
    at: i128,
    printed: nat,
)
    ensures
        state.refusal(
            Ok(Event { at, value: Cucumber::Feature(feature, event::Feature::Started) }),
            printed,
        ) == if -377_705_116_800_000_000_000 <= at <= 253_402_300_799_999_999_999 {
            None
        } else {
            Some((Misuse::DateOutOfRange { at }))
        },
        state.refusal(
            Ok(Event { at, value: Cucumber::Feature(feature, event::Feature::Finished) }),
            printed,
        ) == if state.suit is Some {
            None
        } else {
            Some(Misuse::NoSuiteForFeature)
        },
        state.refusal(Ok(Event { at, value: Cucumber::Finished }), printed) == match report_fault(
            state.report,
        ) {
            Some(fault) => Some(Misuse::NotWritable(fault)),
            None => None,
        },
        state.refusal(Err(error), printed) is None,
{
}

/// What is given for an event is the XML document of the test suites exactly if the
/// event is the end of the run.
pub proof fn law_document_is_given_at_the_end<W, S>(
    written: Option<Result<Vec<u8>, XmlError>>,
    ev: parser::Result<Event<Cucumber<W, S>>>,
    suites: Seq<SuiteView>,
)
    requires
        written_as(written, ev, suites),
    ensures
        written is Some <==> ev is Ok && ev->Ok_0.value is Finished,
        written is Some ==> written->0 is Ok && written->0->Ok_0@ == report_xml(suites),
{
}

} // verus!
