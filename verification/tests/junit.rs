use cucumber_junit::event::{self, Cucumber, CucumberEvent, Event, Hook, HookType, Step};
use cucumber_junit::junit::{find_case_misuse, find_deciding_event, JUnit};
use cucumber_junit::model::{Cli, Misuse, Verbosity};
use cucumber_junit::parser;
use cucumber_junit::report::{
    Unwritable, XmlError, DAY, MAX_DATE, MAX_DURATION, MIN_DATE, MIN_RFC3339_DATE, SECOND,
};
use cucumber_junit::syntax::{Feature, LineCol, Rule, Scenario};
use cucumber_junit::{EventHandler, World};
use junit_report::{Duration, OffsetDateTime, TestCase};

type Happening = event::Scenario<u8, &'static str>;
type Writer = JUnit<u8, &'static str, Vec<u8>>;
type Result = parser::Result<Event<Cucumber<u8, &'static str>>>;

const OPTS: Cli = Cli { verbose: None };

fn writer() -> Writer {
    JUnit::raw(Vec::new(), Verbosity::Default)
}

fn feature() -> Feature {
    Feature { name: "Eating".to_owned(), path: Some(b"eat.feature".to_vec()) }
}

fn pathless() -> Feature {
    Feature { name: "Eating".to_owned(), path: None }
}

fn scenario(name: &str) -> Scenario {
    Scenario { name: name.to_owned(), position: LineCol { line: 12, col: 3 } }
}

fn cucumber(at: i128, value: Cucumber<u8, &'static str>) -> Result {
    Ok(Event { at, value })
}

fn of_feature(at: i128, ev: event::Feature<u8, &'static str>) -> Result {
    cucumber(at, Cucumber::Feature(feature(), ev))
}

fn of_scenario(at: i128, name: &str, ev: Happening) -> Result {
    of_feature(at, event::Feature::Scenario(scenario(name), ev))
}

fn in_rule(at: i128, name: &str, ev: Happening) -> Result {
    let rule = Rule { name: "Hunger".to_owned() };
    let ev = event::Rule::Scenario(scenario(name), ev);
    of_feature(at, event::Feature::Rule(rule, ev))
}

fn step(ev: Step<u8>) -> Happening {
    event::Scenario::Step("Given a plate", ev)
}

fn background(ev: Step<u8>) -> Happening {
    event::Scenario::Background("Given a table", ev)
}

fn after(ev: Hook<u8>) -> Happening {
    event::Scenario::Hook(HookType::After, ev)
}

fn before(ev: Hook<u8>) -> Happening {
    event::Scenario::Hook(HookType::Before, ev)
}

/// Feeds an event that must be handled. Of the events of a scenario that finishes
/// the first ones printed `output`, and the others nothing.
fn feed(
    writer: &mut Writer,
    ev: Result,
    output: &[&str],
) -> Option<std::result::Result<Vec<u8>, XmlError>> {
    assert_eq!(writer.misuse(&ev), None);
    let mut output: Vec<String> = output.iter().map(|s| s.to_string()).collect();
    while output.len() < writer.events().len() {
        output.push(String::new());
    }
    writer.handle_event(ev, &OPTS, &output)
}

fn finish(writer: &mut Writer) -> String {
    let xml = feed(writer, cucumber(0, Cucumber::Finished), &[]);
    String::from_utf8(xml.unwrap().unwrap()).unwrap()
}

/// Feeds a whole scenario that takes a second and a half.
fn feed_scenario(writer: &mut Writer, name: &str, happened: Vec<Happening>, output: &[&str]) {
    feed(writer, of_scenario(SECOND, name, event::Scenario::Started), &[]);
    for ev in happened {
        feed(writer, of_scenario(SECOND, name, ev), &[]);
    }
    let end = SECOND * 5 / 2;
    feed(writer, of_scenario(end, name, event::Scenario::Finished), output);
}

/// The report on one feature of one scenario.
fn report_on(happened: Vec<Happening>, output: &[&str]) -> String {
    let mut writer = writer();
    feed(&mut writer, of_feature(0, event::Feature::Started), &[]);
    feed_scenario(&mut writer, "Full", happened, output);
    feed(&mut writer, of_feature(3 * SECOND, event::Feature::Finished), &[]);
    finish(&mut writer)
}

fn case_of(happened: Vec<Happening>) -> TestCase {
    let mut events = vec![event::Scenario::Started];
    events.extend(happened);
    let output: Vec<String> = (1..=events.len()).map(|i| format!("{}\n", i)).collect();
    writer().test_case(&feature(), None, &scenario("Full"), &events, &output, Duration::seconds(7))
}

const HEAD: &str = "<?xml version=\"1.0\" encoding=\"UTF-8\"?>\n";

// --- Creation and options ---------------------------------------------------

#[test]
fn raw_writer_knows_nothing() {
    let mut writer = JUnit::<u8, &'static str, Vec<u8>>::raw(vec![1, 2], Verbosity::ShowWorld);
    assert_eq!(writer.verbosity(), Verbosity::ShowWorld);
    assert!(writer.events().is_empty());
    assert_eq!(*writer.output(), vec![1, 2]);
    writer.output().push(3);
    assert_eq!(*writer.output(), vec![1, 2, 3]);
    assert_eq!(finish(&mut writer), format!("{}<testsuites />", HEAD));
}

#[test]
fn new_wraps_a_raw_writer() {
    let (writer, tag): (Writer, u8) = JUnit::new(vec![9], Verbosity::ShowWorld, |raw| (raw, 5));
    assert_eq!(tag, 5);
    assert_eq!(writer.verbosity(), Verbosity::ShowWorld);
    assert!(writer.events().is_empty());
}

#[test]
fn for_tee_wraps_a_raw_writer_twice() {
    let wrapped: ((Writer, &str), &str) = JUnit::for_tee(
        Vec::new(),
        Verbosity::Default,
        |raw| (raw, "failure"),
        |inner| (inner, "arbitrary"),
    );
    assert_eq!(wrapped.1, "arbitrary");
    assert_eq!((wrapped.0).1, "failure");
    assert_eq!((wrapped.0).0.verbosity(), Verbosity::Default);
}

#[test]
fn options_set_the_verbosity() {
    let mut writer = writer();
    writer.apply_cli(Cli { verbose: Some(1) });
    assert_eq!(writer.verbosity(), Verbosity::ShowWorld);
    writer.apply_cli(Cli { verbose: None });
    assert_eq!(writer.verbosity(), Verbosity::ShowWorld);
    writer.apply_cli(Cli { verbose: Some(0) });
    assert_eq!(writer.verbosity(), Verbosity::Default);
    writer.apply_cli(Cli { verbose: Some(255) });
    assert_eq!(writer.verbosity(), Verbosity::ShowWorld);
}

#[test]
fn each_event_applies_its_options() {
    let mut writer = writer();
    let opts = Cli { verbose: Some(2) };
    assert!(writer.handle_event(cucumber(0, Cucumber::Started), &opts, &Vec::new()).is_none());
    assert_eq!(writer.verbosity(), Verbosity::ShowWorld);
}

#[test]
fn event_is_split() {
    let (value, meta) = Event { at: 4, value: "x" }.split();
    assert_eq!(value, "x");
    assert_eq!(meta.at, 4);
}

// --- Reports ----------------------------------------------------------------

#[test]
fn successful_scenario() {
    let xml = report_on(
        vec![before(Hook::Passed), step(Step::Started), step(Step::Passed)],
        &["a\n", "b\n", "c\n", "d\n"],
    );
    let expected = format!(
        "{}<testsuites>
  <testsuite id=\"0\" name=\"Feature: Eating: eat.feature\" \
package=\"testsuite/Feature: Eating: eat.feature\" tests=\"1\" errors=\"0\" failures=\"0\" \
hostname=\"localhost\" timestamp=\"1970-01-01T00:00:00Z\" time=\"1.5\">
    <testcase name=\"Scenario: Full: eat.feature:12:3\" time=\"1.5\">
      <system-out><![CDATA[a
b
c
d
]]></system-out>
    </testcase>
  </testsuite>
</testsuites>",
        HEAD
    );
    assert_eq!(xml, expected);
}

#[test]
fn failed_scenario() {
    let xml = report_on(vec![step(Step::Failed(Some(1), "too \"hot\"".to_owned()))], &["out"]);
    assert!(xml.contains("tests=\"1\" errors=\"0\" failures=\"1\""));
    assert!(xml.contains("<testcase name=\"Scenario: Full: eat.feature:12:3\" time=\"1.5\">"));
    assert!(xml.contains(
        "<failure type=\"Step Panicked\" message=\"too &quot;hot&quot;\"><![CDATA[out]]></failure>"
    ));
}

#[test]
fn skipped_scenario_takes_no_time() {
    let xml = report_on(vec![step(Step::Skipped)], &["out"]);
    assert!(xml.contains("<testcase name=\"Scenario: Full: eat.feature:12:3\" time=\"0\">"));
    assert!(xml.contains("<skipped />"));
    assert!(!xml.contains("out]]>"));
}

#[test]
fn rule_is_part_of_the_name() {
    let mut writer = writer();
    let rule = || Rule { name: "Hunger".to_owned() };
    feed(&mut writer, cucumber(0, Cucumber::Started), &[]);
    feed(&mut writer, of_feature(0, event::Feature::Started), &[]);
    let started = event::Feature::Rule(rule(), event::Rule::Started);
    feed(&mut writer, of_feature(0, started), &[]);
    feed(&mut writer, in_rule(1, "Full", event::Scenario::Started), &[]);
    feed(&mut writer, in_rule(2, "Full", event::Scenario::Finished), &["x"]);
    let finished = event::Feature::Rule(rule(), event::Rule::Finished);
    feed(&mut writer, of_feature(3, finished), &[]);
    feed(&mut writer, of_feature(3, event::Feature::Finished), &[]);
    let xml = finish(&mut writer);
    assert!(xml.contains("name=\"Rule: Hunger: Scenario: Full: eat.feature:12:3\""));
    assert!(xml.contains("time=\"0.000000001\""));
}

#[test]
fn rule_shows_in_the_name_only() {
    let run = |of: fn(i128, &str, Happening) -> Result| {
        let mut writer = writer();
        feed(&mut writer, of_feature(0, event::Feature::Started), &[]);
        feed(&mut writer, of(1, "Full", event::Scenario::Started), &[]);
        feed(&mut writer, of(2, "Full", step(Step::Failed(None, "hot".to_owned()))), &[]);
        feed(&mut writer, of(3, "Full", event::Scenario::Finished), &["x", "y"]);
        feed(&mut writer, of_feature(4, event::Feature::Finished), &[]);
        finish(&mut writer)
    };
    assert_eq!(run(in_rule).replace("Rule: Hunger: ", ""), run(of_scenario));
    assert_ne!(run(in_rule), run(of_scenario));
}

#[test]
fn feature_without_a_path() {
    let mut writer = writer();
    let at = |at: i128, ev: event::Feature<u8, &'static str>| {
        cucumber(at, Cucumber::Feature(pathless(), ev))
    };
    feed(&mut writer, at(SECOND, event::Feature::Started), &[]);
    let started = event::Feature::Scenario(scenario("Full"), event::Scenario::Started);
    feed(&mut writer, at(SECOND, started), &[]);
    let finished = event::Feature::Scenario(scenario("Full"), event::Scenario::Finished);
    feed(&mut writer, at(SECOND, finished), &[]);
    feed(&mut writer, at(SECOND, event::Feature::Finished), &[]);
    let xml = finish(&mut writer);
    assert!(xml.contains("<testsuite id=\"0\" name=\"Feature: Eating\""));
    assert!(xml.contains("<testcase name=\"Scenario: Full: 12:3\" time=\"0\">"));
    assert!(xml.contains("timestamp=\"1970-01-01T00:00:01Z\""));
}

#[test]
fn path_that_is_no_text_is_left_out_of_names() {
    let mut writer = writer();
    let odd = Feature { name: "Odd".to_owned(), path: Some(vec![0xc3, 0x28]) };
    feed(&mut writer, cucumber(0, Cucumber::Feature(odd, event::Feature::Started)), &[]);
    feed(&mut writer, of_feature(0, event::Feature::Finished), &[]);
    assert!(finish(&mut writer).contains("name=\"Feature: Odd\""));
}

#[test]
fn report_of_several_features() {
    let mut writer = writer();
    for name in ["A", "B"] {
        feed(&mut writer, of_feature(0, event::Feature::Started), &[]);
        feed_scenario(&mut writer, name, vec![step(Step::Passed)], &[]);
        feed_scenario(&mut writer, "Z", vec![step(Step::Skipped)], &[]);
        feed(&mut writer, of_feature(3 * SECOND, event::Feature::Finished), &[]);
    }
    let xml = finish(&mut writer);
    assert_eq!(xml.matches("<testsuite ").count(), 2);
    assert_eq!(xml.matches("<testcase ").count(), 4);
    let place = |text: &str| xml.find(text).unwrap();
    assert!(place("id=\"0\"") < place("Scenario: A:"));
    assert!(place("Scenario: A:") < place("Scenario: Z:"));
    assert!(place("Scenario: Z:") < place("id=\"1\""));
    assert!(place("id=\"1\"") < place("Scenario: B:"));
}

#[test]
fn finished_report_stays_as_it_is() {
    let mut writer = writer();
    feed(&mut writer, of_feature(0, event::Feature::Started), &[]);
    feed(&mut writer, of_feature(0, event::Feature::Finished), &[]);
    let first = finish(&mut writer);
    assert_eq!(finish(&mut writer), first);
    feed(&mut writer, of_feature(0, event::Feature::Started), &[]);
    feed(&mut writer, of_feature(0, event::Feature::Finished), &[]);
    let second = finish(&mut writer);
    let kept = first.strip_suffix("\n</testsuites>").unwrap();
    assert!(second.starts_with(kept));
    assert!(second.len() > first.len());
}

#[test]
fn second_start_of_a_feature_replaces_the_first() {
    let mut writer = writer();
    feed(&mut writer, of_feature(0, event::Feature::Started), &[]);
    feed_scenario(&mut writer, "Lost", vec![], &[]);
    feed(&mut writer, of_feature(0, event::Feature::Started), &[]);
    feed(&mut writer, of_feature(0, event::Feature::Finished), &[]);
    let xml = finish(&mut writer);
    assert!(!xml.contains("Lost"));
    assert!(xml.contains("tests=\"0\""));
}

#[test]
fn options_change_nothing_else_of_the_report() {
    let run = |opts: [Option<u8>; 4]| {
        let mut writer = writer();
        let opts = opts.map(|verbose| Cli { verbose });
        let none = Vec::new();
        let one = vec!["out".to_owned()];
        writer.handle_event(of_feature(0, event::Feature::Started), &opts[0], &none);
        writer.handle_event(of_scenario(1, "A", event::Scenario::Started), &opts[1], &none);
        writer.handle_event(of_scenario(2, "A", event::Scenario::Finished), &opts[2], &one);
        writer.handle_event(of_feature(3, event::Feature::Finished), &opts[3], &none);
        finish(&mut writer)
    };
    assert_eq!(run([Some(1); 4]), run([Some(0); 4]));
    assert_eq!(run([None, Some(1), Some(0), Some(1)]), run([None; 4]));
}

#[test]
fn start_and_end_of_the_run_and_of_rules_add_nothing() {
    let mut writer = writer();
    let rule = || Rule { name: "Hunger".to_owned() };
    feed(&mut writer, cucumber(0, Cucumber::Started), &[]);
    feed(&mut writer, of_feature(0, event::Feature::Rule(rule(), event::Rule::Started)), &[]);
    feed(&mut writer, of_feature(0, event::Feature::Rule(rule(), event::Rule::Finished)), &[]);
    assert_eq!(finish(&mut writer), format!("{}<testsuites />", HEAD));
}

#[test]
fn scenario_leaves_nothing_behind() {
    let mut writer = writer();
    feed(&mut writer, of_feature(0, event::Feature::Started), &[]);
    feed(&mut writer, of_scenario(0, "A", event::Scenario::Started), &[]);
    feed(&mut writer, of_scenario(0, "A", step(Step::Skipped)), &[]);
    assert_eq!(writer.events().len(), 2);
    feed(&mut writer, of_scenario(0, "A", event::Scenario::Finished), &[]);
    assert!(writer.events().is_empty());
    let again = of_scenario(0, "A", event::Scenario::Finished);
    assert_eq!(writer.misuse(&again), Some(Misuse::NoStarted));
}

// --- Errors of the parser ---------------------------------------------------

fn parsing(path: Vec<u8>) -> parser::Error {
    parser::Error::Parsing(parser::ParseFileError { path, message: "no keyword".to_owned() })
}

fn expansion(path: Option<Vec<u8>>) -> parser::Error {
    parser::Error::ExampleExpansion(parser::ExpandExamplesError {
        path,
        pos: LineCol { line: 4, col: 20 },
        message: "no column".to_owned(),
    })
}

fn report_on_error(error: parser::Error) -> String {
    let mut writer = writer();
    feed(&mut writer, Err(error), &[]);
    finish(&mut writer)
}

#[test]
fn parser_error_is_a_failed_case() {
    let xml = report_on_error(parsing(b"a.feature".to_vec()));
    assert!(xml.contains(
        "<testsuite id=\"0\" name=\"Errors\" package=\"testsuite/Errors\" tests=\"1\" \
errors=\"0\" failures=\"1\" hostname=\"localhost\""
    ));
    assert!(xml.contains("<testcase name=\"Feature: a.feature\" time=\"0\">"));
    assert!(xml.contains("<failure type=\"Parser Error\" message=\"no keyword\" />"));
    let odd = report_on_error(parsing(vec![0xff]));
    assert!(odd.contains("<testcase name=\"Feature\" time=\"0\">"));
}

#[test]
fn example_expansion_error_is_a_failed_case() {
    let xml = report_on_error(expansion(Some(b"a.feature".to_vec())));
    assert!(xml.contains("<testcase name=\"Feature: a.feature:4:20\" time=\"0\">"));
    assert!(xml.contains("<failure type=\"Example Expansion Error\" message=\"no column\" />"));
    let pathless = report_on_error(expansion(None));
    assert!(pathless.contains("<testcase name=\"Feature: 4:20\" time=\"0\">"));
    let odd = report_on_error(expansion(Some(vec![0xff])));
    assert!(odd.contains("<testcase name=\"Feature: 4:20\" time=\"0\">"));
}

#[test]
fn error_disturbs_no_running_scenario() {
    let mut writer = writer();
    feed(&mut writer, of_feature(0, event::Feature::Started), &[]);
    feed(&mut writer, of_scenario(0, "A", event::Scenario::Started), &[]);
    feed(&mut writer, Err(parsing(b"b.feature".to_vec())), &[]);
    assert_eq!(writer.events().len(), 1);
    feed(&mut writer, of_scenario(SECOND, "A", event::Scenario::Finished), &[]);
    feed(&mut writer, of_feature(SECOND, event::Feature::Finished), &[]);
    let xml = finish(&mut writer);
    assert!(xml.contains("<testsuite id=\"0\" name=\"Errors\""));
    assert!(xml.contains("<testsuite id=\"1\" name=\"Feature: Eating: eat.feature\""));
    assert!(xml.contains("time=\"1\""));
}

#[test]
fn error_is_handled_alone() {
    let mut writer = writer();
    writer.handle_error(&expansion(None));
    assert!(finish(&mut writer).contains("Example Expansion Error"));
}

// --- How a scenario ended ---------------------------------------------------

#[test]
fn case_holds_name_time_and_output() {
    let case = case_of(vec![step(Step::Started), step(Step::Passed)]);
    assert!(case.is_success());
    assert_eq!(case.name, "Scenario: Full: eat.feature:12:3");
    assert_eq!(case.time, Duration::seconds(7));
    assert_eq!(case.system_out, Some("1\n2\n3\n".to_owned()));
    assert_eq!(case.system_err, None);
    assert_eq!(case.classname, None);
    assert_eq!(case.filepath, None);
}

#[test]
fn last_event_decides() {
    assert!(case_of(vec![before(Hook::Started)]).is_success());
    assert!(case_of(vec![before(Hook::Passed)]).is_success());
    assert!(case_of(vec![step(Step::Started)]).is_success());
    assert!(case_of(vec![step(Step::Passed)]).is_success());
    assert!(case_of(vec![background(Step::Started)]).is_success());
    assert!(case_of(vec![background(Step::Passed)]).is_success());
    assert!(case_of(vec![step(Step::Skipped)]).is_skipped());
    assert!(case_of(vec![background(Step::Skipped)]).is_skipped());
    assert!(case_of(vec![step(Step::Failed(None, String::new()))]).is_failure());
    assert!(case_of(vec![background(Step::Failed(None, String::new()))]).is_failure());
    assert!(case_of(vec![before(Hook::Failed(None, String::new()))]).is_failure());
    assert!(case_of(vec![after(Hook::Failed(None, String::new()))]).is_failure());
    assert!(case_of(vec![step(Step::Failed(None, String::new())), step(Step::Passed)]).is_success());
    assert_eq!(case_of(vec![step(Step::Skipped)]).time, Duration::ZERO);
}

#[test]
fn passing_hooks_after_a_scenario_decide_nothing() {
    let failed = || step(Step::Failed(None, "x".to_owned()));
    let hooks = vec![failed(), after(Hook::Started), after(Hook::Passed)];
    assert!(case_of(hooks).is_failure());
    assert!(case_of(vec![step(Step::Skipped), after(Hook::Started)]).is_skipped());
    let failing = vec![step(Step::Skipped), after(Hook::Started), after(Hook::Failed(None, "y".to_owned()))];
    assert!(case_of(failing).is_failure());
    assert!(case_of(vec![step(Step::Skipped), before(Hook::Passed)]).is_success());
}

#[test]
fn hook_failure_names_its_kind() {
    let xml = report_on(vec![after(Hook::Failed(None, "boom".to_owned()))], &[]);
    assert!(xml.contains("<failure type=\"Hook Panicked\" message=\"boom\">"));
}

#[test]
fn no_case_is_erroneous() {
    assert!(!case_of(vec![step(Step::Failed(None, String::new()))]).is_error());
    assert!(!case_of(vec![step(Step::Skipped)]).is_error());
    assert!(!case_of(vec![]).is_error());
}

#[test]
fn deciding_event_is_found_from_the_end() {
    let events: Vec<Happening> = vec![step(Step::Skipped), step(Step::Passed), after(Hook::Passed)];
    assert!(matches!(
        find_deciding_event(&events),
        Some(event::Scenario::Step(_, Step::Passed))
    ));
    let hooks: Vec<Happening> = vec![after(Hook::Started), after(Hook::Passed)];
    assert!(find_deciding_event(&hooks).is_none());
    assert!(find_deciding_event::<u8, u8>(&Vec::new()).is_none());
}

// --- Durations --------------------------------------------------------------

#[test]
fn duration_is_the_time_between_start_and_end() {
    let mut writer = writer();
    feed(&mut writer, of_scenario(-3 * SECOND, "A", event::Scenario::Started), &[]);
    let duration = writer.scenario_duration(2 * SECOND + 7);
    assert_eq!(duration, Duration::new(5, 7));
    let end = of_scenario(0, "A", event::Scenario::Finished);
    assert_eq!(writer.misuse(&end), Some(Misuse::NoStarted));
}

#[test]
fn longest_duration() {
    let mut writer = writer();
    feed(&mut writer, of_scenario(0, "A", event::Scenario::Started), &[]);
    assert_eq!(writer.scenario_duration(MAX_DURATION), Duration::MAX);
}

// --- Whole runs -------------------------------------------------------------

#[test]
fn suites_come_in_the_order_of_ends_and_errors() {
    let mut writer = writer();
    let named = |name: &str, ev: event::Feature<u8, &'static str>| {
        let feature = Feature { name: name.to_owned(), path: None };
        cucumber(0, Cucumber::Feature(feature, ev))
    };
    let of = |name: &str, ev: Happening| {
        named(name, event::Feature::Scenario(scenario("A"), ev))
    };
    let error = |path: &str| Err(parsing(path.as_bytes().to_vec()));
    feed(&mut writer, cucumber(0, Cucumber::Started), &[]);
    feed(&mut writer, error("first"), &[]);
    feed(&mut writer, named("One", event::Feature::Started), &[]);
    feed(&mut writer, error("in feature"), &[]);
    feed(&mut writer, of("One", event::Scenario::Started), &[]);
    feed(&mut writer, error("in scenario"), &[]);
    feed(&mut writer, of("One", event::Scenario::Finished), &[]);
    feed(&mut writer, named("One", event::Feature::Finished), &[]);
    feed(&mut writer, named("Two", event::Feature::Started), &[]);
    feed(&mut writer, named("Two", event::Feature::Finished), &[]);
    feed(&mut writer, error("last"), &[]);
    let xml = finish(&mut writer);
    let mut rest = xml.as_str();
    let suites = ["Errors", "Errors", "Errors", "Feature: One", "Feature: Two", "Errors"];
    for (id, name) in suites.iter().enumerate() {
        let suite = format!("<testsuite id=\"{}\" name=\"{}\"", id, name);
        let place = rest.find(&suite).unwrap();
        rest = &rest[place..];
    }
    assert_eq!(xml.matches("<testsuite ").count(), 6);
    let place = |text: &str| xml.find(text).unwrap();
    assert!(place("Feature: first") < place("Feature: in feature"));
    assert!(place("Feature: in feature") < place("Feature: in scenario"));
    assert!(place("Feature: in scenario") < place("Feature: last"));
    assert_eq!(xml.matches("<testcase ").count(), 5);
}

#[test]
fn cases_come_in_the_order_of_ends_in_rules_or_not() {
    let mut writer = writer();
    let rule = |ev: event::Rule<u8, &'static str>| {
        of_feature(0, event::Feature::Rule(Rule { name: "Hunger".to_owned() }, ev))
    };
    feed(&mut writer, of_feature(0, event::Feature::Started), &[]);
    feed_scenario(&mut writer, "C", vec![step(Step::Passed)], &[]);
    feed(&mut writer, rule(event::Rule::Started), &[]);
    feed(&mut writer, in_rule(0, "B", event::Scenario::Started), &[]);
    feed(&mut writer, in_rule(0, "B", event::Scenario::Finished), &[]);
    feed(&mut writer, rule(event::Rule::Finished), &[]);
    feed_scenario(&mut writer, "A", vec![], &[]);
    feed(&mut writer, of_feature(0, event::Feature::Finished), &[]);
    let xml = finish(&mut writer);
    let place = |text: &str| xml.find(text).unwrap();
    assert!(place("\"Scenario: C:") < place("\"Rule: Hunger: Scenario: B:"));
    assert!(place("\"Rule: Hunger: Scenario: B:") < place("\"Scenario: A:"));
    assert_eq!(xml.matches("<testcase ").count(), 3);
}

#[test]
fn clock_may_go_back_between_scenarios() {
    let mut writer = writer();
    feed(&mut writer, of_feature(9 * SECOND, event::Feature::Started), &[]);
    for (name, start) in [("A", 7 * SECOND), ("B", -SECOND), ("C", 3 * SECOND)] {
        feed(&mut writer, of_scenario(start, name, event::Scenario::Started), &[]);
        feed(&mut writer, of_scenario(start - 1, name, step(Step::Passed)), &[]);
        let end = of_scenario(start + 2 * SECOND, name, event::Scenario::Finished);
        feed(&mut writer, end, &[]);
    }
    feed(&mut writer, of_feature(0, event::Feature::Finished), &[]);
    let xml = finish(&mut writer);
    assert_eq!(xml.matches("time=\"2\"").count(), 3);
    assert!(xml.contains("timestamp=\"1970-01-01T00:00:09Z\" time=\"6\""));
}

// --- Events that are tested first -------------------------------------------

#[test]
fn tested_event_is_handled() {
    let mut writer = writer();
    let opts = Cli { verbose: Some(1) };
    let none = Vec::new();
    let started = writer.try_handle_event(of_feature(0, event::Feature::Started), &opts, &none);
    assert!(matches!(started, Ok(None)));
    assert_eq!(writer.verbosity(), Verbosity::ShowWorld);
    let finished = writer.try_handle_event(of_feature(0, event::Feature::Finished), &opts, &none);
    assert!(matches!(finished, Ok(None)));
    let end = writer.try_handle_event(cucumber(0, Cucumber::Finished), &opts, &none);
    let xml = end.unwrap().unwrap().unwrap();
    assert_eq!(String::from_utf8(xml).unwrap(), finish(&mut writer));
}

#[test]
fn refused_event_changes_nothing() {
    let mut writer = writer();
    feed(&mut writer, of_scenario(5, "A", event::Scenario::Started), &[]);
    let opts = Cli { verbose: Some(1) };
    let one = vec!["out".to_owned()];
    let end = |at: i128| of_scenario(at, "A", event::Scenario::Finished);
    let refused = writer.try_handle_event(end(6), &opts, &one);
    assert!(matches!(refused, Err(Misuse::NoSuiteForScenario)));
    assert_eq!(writer.verbosity(), Verbosity::Default);
    assert_eq!(writer.events().len(), 1);
    let refused = writer.try_handle_event(end(4), &opts, &one);
    assert!(matches!(refused, Err(Misuse::TimeWentBack { started: 5, ended: 4 })));
    feed(&mut writer, of_feature(0, event::Feature::Started), &[]);
    assert!(matches!(writer.try_handle_event(end(6), &opts, &one), Ok(None)));
    assert!(writer.events().is_empty());
}

#[test]
fn each_event_of_a_scenario_is_printed_once() {
    let mut writer = writer();
    feed(&mut writer, of_feature(0, event::Feature::Started), &[]);
    feed(&mut writer, of_scenario(0, "A", event::Scenario::Started), &[]);
    feed(&mut writer, of_scenario(0, "A", step(Step::Passed)), &[]);
    for len in [0, 1, 3] {
        let printed = vec![String::new(); len];
        let end = of_scenario(0, "A", event::Scenario::Finished);
        assert_eq!(writer.misuse(&end), None);
        let refused = writer.try_handle_event(end, &OPTS, &printed);
        assert!(matches!(refused, Err(Misuse::NotPrinted)));
        assert_eq!(writer.events().len(), 2);
    }
    let end = in_rule(0, "A", event::Scenario::Finished);
    assert!(matches!(writer.try_handle_event(end, &OPTS, &Vec::new()), Err(Misuse::NotPrinted)));
    assert_eq!(
        Misuse::NotPrinted.message("A"),
        "Not each event of `Scenario` \"A\" was printed once"
    );
}

#[test]
fn start_is_known_exactly_if_it_is_among_the_events() {
    let mut writer = writer();
    feed(&mut writer, of_feature(0, event::Feature::Started), &[]);
    let end = of_scenario(9, "A", event::Scenario::Finished);
    feed(&mut writer, of_scenario(0, "A", step(Step::Started)), &[]);
    assert_eq!(writer.misuse(&end), Some(Misuse::NoStarted));
    feed(&mut writer, of_scenario(0, "A", event::Scenario::Started), &[]);
    assert_eq!(writer.misuse(&end), None);
    feed(&mut writer, of_scenario(0, "A", step(Step::Passed)), &[]);
    assert_eq!(writer.misuse(&end), None);
    feed(&mut writer, end, &[]);
    assert!(writer.events().is_empty());
    let again = of_scenario(9, "A", event::Scenario::Finished);
    assert_eq!(writer.misuse(&again), Some(Misuse::NoStarted));
}

// --- Misuse -----------------------------------------------------------------

#[test]
fn feature_finishes_without_a_start() {
    let ev = of_feature(0, event::Feature::Finished);
    assert_eq!(writer().misuse(&ev), Some(Misuse::NoSuiteForFeature));
    assert_eq!(
        Misuse::NoSuiteForFeature.message("Eating"),
        "No `TestSuit` for `Feature` \"Eating\"\n\
         Consider wrapping `Writer` into `writer::Normalize`"
    );
}

#[test]
fn scenario_finishes_outside_of_a_feature() {
    let mut writer = writer();
    feed(&mut writer, of_scenario(0, "A", event::Scenario::Started), &[]);
    let ev = of_scenario(1, "A", event::Scenario::Finished);
    assert_eq!(writer.misuse(&ev), Some(Misuse::NoSuiteForScenario));
    assert_eq!(
        Misuse::NoSuiteForScenario.message("A"),
        "No `TestSuit` for `Scenario` \"A\"\n\
         Consider wrapping `Writer` into `writer::Normalize`"
    );
}

#[test]
fn scenario_finishes_without_a_start() {
    let mut writer = writer();
    feed(&mut writer, of_feature(0, event::Feature::Started), &[]);
    let ev = in_rule(1, "A", event::Scenario::Finished);
    assert_eq!(writer.misuse(&ev), Some(Misuse::NoStarted));
    assert_eq!(
        Misuse::NoStarted.message("A"),
        "No `Started` event for `Scenario` \"A\"\n\
         Consider wrapping `Writer` into `writer::Normalize`"
    );
}

#[test]
fn scenarios_that_overlap() {
    let mut writer = writer();
    feed(&mut writer, of_feature(0, event::Feature::Started), &[]);
    feed(&mut writer, of_scenario(0, "A", event::Scenario::Started), &[]);
    feed(&mut writer, of_scenario(0, "B", event::Scenario::Started), &[]);
    feed(&mut writer, of_scenario(1, "A", event::Scenario::Finished), &[]);
    let ev = of_scenario(1, "B", event::Scenario::Finished);
    assert_eq!(writer.misuse(&ev), Some(Misuse::NoStarted));
}

#[test]
fn events_of_which_no_case_is_formed() {
    assert_eq!(find_case_misuse::<u8, u8>(&Vec::new()), Some(Misuse::NoEvents));
    let hooks: Vec<Happening> = vec![after(Hook::Started), after(Hook::Passed)];
    assert_eq!(find_case_misuse(&hooks), Some(Misuse::NoEvents));
    let ended: Vec<Happening> = vec![event::Scenario::Finished, after(Hook::Passed)];
    assert_eq!(find_case_misuse(&ended), Some(Misuse::DuplicatedFinished));
    let started: Vec<Happening> = vec![event::Scenario::Started, after(Hook::Passed)];
    assert_eq!(find_case_misuse(&started), None);
}

#[test]
fn started_scenario_has_a_result_in_any_order() {
    let mut writer = writer();
    feed(&mut writer, of_scenario(0, "A", after(Hook::Passed)), &[]);
    feed(&mut writer, of_scenario(0, "B", event::Scenario::Started), &[]);
    feed(&mut writer, of_scenario(0, "A", after(Hook::Started)), &[]);
    assert_eq!(find_case_misuse(writer.events()), None);
}

#[test]
fn steps_and_hooks_are_handled_at_any_time() {
    let writer = writer();
    assert_eq!(writer.misuse(&of_scenario(0, "A", step(Step::Passed))), None);
    assert_eq!(writer.misuse(&in_rule(0, "A", after(Hook::Passed))), None);
    assert_eq!(writer.misuse(&in_rule(0, "A", event::Scenario::Started)), None);
    assert_eq!(writer.misuse(&cucumber(i128::MIN, Cucumber::Started)), None);
    assert_eq!(writer.misuse(&Err(parsing(Vec::new()))), None);
}

#[test]
fn messages_on_events_that_decide_nothing() {
    assert_eq!(
        Misuse::NoEvents.message("A"),
        "No events for `Scenario` \"A\"\n\
         Consider wrapping `Writer` into `writer::Normalize`"
    );
    assert_eq!(
        Misuse::DuplicatedFinished.message("A"),
        "Duplicated `Finished` event for `Scenario`: \"A\"\n\
         Consider wrapping `Writer` into `writer::Normalize`"
    );
}

#[test]
fn time_goes_back() {
    let mut writer = writer();
    feed(&mut writer, of_feature(0, event::Feature::Started), &[]);
    feed(&mut writer, of_scenario(5, "A", event::Scenario::Started), &[]);
    let ev = of_scenario(-4, "A", event::Scenario::Finished);
    let misuse = writer.misuse(&ev).unwrap();
    assert_eq!(misuse, Misuse::TimeWentBack { started: 5, ended: -4 });
    assert_eq!(
        misuse.message("A"),
        "Failed to compute duration between -4 and 5: second time provided was later than self"
    );
}

#[test]
fn scenario_takes_too_long() {
    let mut writer = writer();
    feed(&mut writer, of_feature(0, event::Feature::Started), &[]);
    feed(&mut writer, of_scenario(0, "A", event::Scenario::Started), &[]);
    let ev = of_scenario(MAX_DURATION, "A", event::Scenario::Finished);
    assert_eq!(writer.misuse(&ev), None);
    let ev = of_scenario(MAX_DURATION + 1, "A", event::Scenario::Finished);
    assert_eq!(writer.misuse(&ev), Some(Misuse::DurationOutOfRange));
    assert_eq!(
        Misuse::DurationOutOfRange.message("A"),
        "Cannot covert `std::time::Duration` to `time::Duration`: \
         Source value is out of range for the target type"
    );
    feed(&mut writer, of_scenario(i128::MIN, "A", event::Scenario::Started), &[]);
    let ev = of_scenario(i128::MAX, "A", event::Scenario::Finished);
    assert_eq!(writer.misuse(&ev), Some(Misuse::DurationOutOfRange));
}

#[test]
fn feature_starts_at_no_date() {
    let writer = writer();
    let message = |at: i128| {
        let misuse = writer.misuse(&of_feature(at, event::Feature::Started)).unwrap();
        assert_eq!(misuse, Misuse::DateOutOfRange { at });
        misuse.message("A")
    };
    assert_eq!(message(MAX_DATE + 1), "overflow adding duration to date");
    assert_eq!(message(MIN_DATE - 1), "resulting value is out of range");
    assert_eq!(message(MIN_DATE - DAY + 1), "resulting value is out of range");
    assert_eq!(message(MIN_DATE - DAY), "overflow subtracting duration from date");
    assert_eq!(message(i128::MAX), "overflow adding duration to date");
    assert_eq!(message(i128::MIN), "overflow subtracting duration from date");
}

#[test]
fn dates_end_where_the_years_of_four_digits_end() {
    assert!(OffsetDateTime::from_unix_timestamp_nanos(MIN_DATE).is_ok());
    assert!(OffsetDateTime::from_unix_timestamp_nanos(MIN_DATE - 1).is_err());
    assert!(OffsetDateTime::from_unix_timestamp_nanos(MAX_DATE).is_ok());
    assert!(OffsetDateTime::from_unix_timestamp_nanos(MAX_DATE + 1).is_err());
}

#[test]
fn first_and_last_date() {
    let mut writer = writer();
    feed(&mut writer, of_feature(MIN_DATE, event::Feature::Started), &[]);
    feed(&mut writer, of_feature(MAX_DATE, event::Feature::Started), &[]);
    feed(&mut writer, of_feature(0, event::Feature::Finished), &[]);
    assert!(finish(&mut writer).contains("timestamp=\"9999-12-31T23:59:59.999999999Z\""));
}

#[test]
fn first_date_that_can_be_written() {
    let mut writer = writer();
    feed(&mut writer, of_feature(MIN_RFC3339_DATE, event::Feature::Started), &[]);
    feed(&mut writer, of_feature(0, event::Feature::Finished), &[]);
    assert!(finish(&mut writer).contains("timestamp=\"0000-01-01T00:00:00Z\""));
}

#[test]
fn date_that_cannot_be_written() {
    let mut writer = writer();
    feed(&mut writer, of_feature(MIN_RFC3339_DATE - 1, event::Feature::Started), &[]);
    feed(&mut writer, of_feature(0, event::Feature::Finished), &[]);
    let misuse = writer.misuse(&cucumber(0, Cucumber::Finished));
    assert_eq!(misuse, Some(Misuse::NotWritable(Unwritable::Timestamp)));
    assert_eq!(misuse.unwrap().message(""), "failed to format: InvalidComponent(\"year\")");
}

#[test]
fn times_that_cannot_be_added_up() {
    let mut writer = writer();
    feed(&mut writer, of_feature(0, event::Feature::Started), &[]);
    for name in ["A", "B"] {
        feed(&mut writer, of_scenario(0, name, event::Scenario::Started), &[]);
        feed(&mut writer, of_scenario(MAX_DURATION, name, event::Scenario::Finished), &[]);
    }
    feed(&mut writer, of_feature(0, event::Feature::Finished), &[]);
    let misuse = writer.misuse(&cucumber(0, Cucumber::Finished));
    assert_eq!(misuse, Some(Misuse::NotWritable(Unwritable::Time)));
    assert_eq!(misuse.unwrap().message(""), "overflow when adding durations");
}

#[test]
fn longest_total_time_is_written() {
    let mut writer = writer();
    feed(&mut writer, of_feature(0, event::Feature::Started), &[]);
    feed(&mut writer, of_scenario(0, "A", event::Scenario::Started), &[]);
    feed(&mut writer, of_scenario(MAX_DURATION, "A", event::Scenario::Finished), &[]);
    feed(&mut writer, of_feature(0, event::Feature::Finished), &[]);
    assert!(finish(&mut writer).contains("tests=\"1\""));
}

#[test]
fn any_text_is_written() {
    let odd = "\u{1b}[31m<&\"'>]]>\0\r\u{fffe}\u{1f600}\u{1b}";
    let mut writer = writer();
    let named = |ev: event::Feature<u8, &'static str>| {
        let feature = Feature { name: odd.to_owned(), path: Some(odd.as_bytes().to_vec()) };
        cucumber(0, Cucumber::Feature(feature, ev))
    };
    feed(&mut writer, named(event::Feature::Started), &[]);
    feed_scenario(&mut writer, odd, vec![step(Step::Passed)], &[odd]);
    let failed = step(Step::Failed(None, odd.to_owned()));
    feed_scenario(&mut writer, odd, vec![failed], &[odd, "\u{1b}[0m"]);
    feed(&mut writer, named(event::Feature::Finished), &[]);
    feed(&mut writer, Err(parsing(odd.as_bytes().to_vec())), &[]);
    let xml = finish(&mut writer);
    assert!(xml.contains("<![CDATA[\u{1b}[31m<&\"'>]]]]><![CDATA[>\0"));
    assert!(xml.contains("<![CDATA[<&\"'>]]]]><![CDATA[>\u{fffe}\u{1f600}]]></failure>"));
    assert!(xml.contains("name=\"Feature: \u{1b}[31m&lt;&amp;&quot;&apos;&gt;]]&gt;"));
    assert!(xml.ends_with("</testsuites>"));
}

#[test]
fn writer_shows_what_it_knows() {
    let mut writer = JUnit::<u8, &'static str, Vec<u8>>::raw(vec![42], Verbosity::ShowWorld);
    feed(&mut writer, of_scenario(7, "A", event::Scenario::Started), &[]);
    let shown = format!("{:?}", writer);
    assert!(shown.starts_with("JUnit {"));
    assert!(shown.contains("output: [42]"));
    assert!(shown.contains("scenario_started_at: Some(7)"));
    assert!(shown.contains("verbosity: ShowWorld"));
}

#[test]
fn messages_of_failed_writing() {
    assert_eq!(XmlError::Io.message(), "unable to parse the input");
    assert_eq!(XmlError::Write.message(), "unable to write report");
}

// --- Traits -----------------------------------------------------------------

struct Plate(u8);

impl World for Plate {
    type Coming = std::future::Ready<Plate>;

    fn new() -> Self::Coming {
        std::future::ready(Plate(3))
    }
}

#[test]
fn world_is_created() {
    assert_eq!(Plate::new().into_inner().0, 3);
}

struct Collector(Writer);

impl EventHandler<u8, &'static str> for Collector {
    fn handle_event(&mut self, event: CucumberEvent<u8, &'static str>) {
        feed(&mut self.0, Ok(event), &[]);
    }
}

#[test]
fn writer_serves_an_event_handler() {
    let mut handler = Collector(writer());
    handler.handle_event(Event { at: 0, value: Cucumber::Feature(feature(), event::Feature::Started) });
    handler.handle_event(Event { at: 0, value: Cucumber::Feature(feature(), event::Feature::Finished) });
    assert!(finish(&mut handler.0).contains("Feature: Eating"));
}
