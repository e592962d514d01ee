//! The JUnit report: what `junit_report` keeps in it and writes of it.
//!
//! The types of `junit_report` are opaque to the proofs. What a value of one
//! holds is given by a view, and each function that is called is specified by
//! what it does to the views.

use junit_report::{Duration, OffsetDateTime, Report, ReportError, TestCase, TestSuite};
use vstd::prelude::*;

verus! {

/// The nanoseconds of a second.
pub const SECOND: i128 = 1_000_000_000;

/// The nanoseconds of a day.
pub const DAY: i128 = 86_400_000_000_000;

/// The shortest duration that can be represented, in nanoseconds.
pub const MIN_DURATION: i128 = -9_223_372_036_854_775_808_999_999_999;

/// The longest duration that can be represented, in nanoseconds.
pub const MAX_DURATION: i128 = 9_223_372_036_854_775_807_999_999_999;

/// The start of the year -9999, in nanoseconds since the Unix epoch: the first
/// date that can be represented.
pub const MIN_DATE: i128 = -377_705_116_800_000_000_000;

/// The last nanosecond of the year 9999, counted from the Unix epoch: the last
/// date that can be represented.
pub const MAX_DATE: i128 = 253_402_300_799_999_999_999;

/// The start of the year 0, in nanoseconds since the Unix epoch: the first date
/// that RFC 3339 has a notation for.
pub const MIN_RFC3339_DATE: i128 = -62_167_219_200_000_000_000;

// ---------------------------------------------------------------------------
// What the values hold
// ---------------------------------------------------------------------------

/// A moment and the offset from UTC in which it is shown.
pub struct DateView {
    /// Nanoseconds since the Unix epoch.
    pub nanos: int,
    /// Seconds east of UTC.
    pub offset: int,
}

/// How a test case ended.
pub enum ResultView {
    Success,
    Skipped,
    Error { type_: Seq<char>, message: Seq<char> },
    Failure { type_: Seq<char>, message: Seq<char> },
}

/// What a test case holds.
#[verifier::ext_equal]
pub struct CaseView {
    pub name: Seq<char>,
    /// Nanoseconds.
    pub time: int,
    pub result: ResultView,
    pub classname: Option<Seq<char>>,
    pub filepath: Option<Seq<char>>,
    pub system_out: Option<Seq<char>>,
    pub system_err: Option<Seq<char>>,
}

/// What a test suite holds.
#[verifier::ext_equal]
pub struct SuiteView {
    pub name: Seq<char>,
    pub package: Seq<char>,
    pub timestamp: DateView,
    pub hostname: Seq<char>,
    pub testcases: Seq<CaseView>,
    pub system_out: Option<Seq<char>>,
    pub system_err: Option<Seq<char>>,
}

/// A signed span of time, to the nanosecond.
#[verifier::external_type_specification]
#[verifier::external_body]
pub struct ExDuration(Duration);

/// A date and a time of day, with an offset from UTC.
#[verifier::external_type_specification]
#[verifier::external_body]
pub struct ExOffsetDateTime(OffsetDateTime);

/// A test case of a report.
#[verifier::external_type_specification]
#[verifier::external_body]
pub struct ExTestCase(TestCase);

/// A test suite of a report.
#[verifier::external_type_specification]
#[verifier::external_body]
pub struct ExTestSuite(TestSuite);

/// A report.
#[verifier::external_type_specification]
#[verifier::external_body]
pub struct ExReport(Report);

/// The nanoseconds that a duration lasts.
pub uninterp spec fn duration_nanos(duration: Duration) -> int;

/// The moment and the offset that a date stands for.
pub uninterp spec fn date_view(date: OffsetDateTime) -> DateView;

/// What the fields of a test case hold.
pub uninterp spec fn case_view(case: TestCase) -> CaseView;

/// What the fields of a test suite hold.
pub uninterp spec fn suite_view(suite: TestSuite) -> SuiteView;

/// What the test suites of a report hold, in order.
pub uninterp spec fn report_suites(report: Report) -> Seq<SuiteView>;

/// What each of the test cases holds.
pub open spec fn case_views(cases: Seq<TestCase>) -> Seq<CaseView> {
    Seq::new(cases.len(), |i: int| case_view(cases[i]))
}

/// What each of the test suites holds.
pub open spec fn suite_views(suites: Seq<TestSuite>) -> Seq<SuiteView> {
    Seq::new(suites.len(), |i: int| suite_view(suites[i]))
}

/// A test case that holds its name, its time and how it ended, and nothing
/// else.
pub open spec fn plain_case(name: Seq<char>, time: int, result: ResultView) -> CaseView {
    CaseView {
        name,
        time,
        result,
        classname: None,
        filepath: None,
        system_out: None,
        system_err: None,
    }
}

/// A test suite without test cases.
pub open spec fn empty_suite(name: Seq<char>, timestamp: DateView) -> SuiteView {
    SuiteView {
        name,
        package: "testsuite/"@ + name,
        timestamp,
        hostname: "localhost"@,
        testcases: Seq::empty(),
        system_out: None,
        system_err: None,
    }
}

/// `suite` with one more test case behind the others.
pub open spec fn with_case(suite: SuiteView, case: CaseView) -> SuiteView {
    SuiteView { testcases: suite.testcases.push(case), ..suite }
}

/// The moment `nanos`, shown in UTC.
pub open spec fn utc(nanos: int) -> DateView {
    DateView { nanos, offset: 0 }
}

// ---------------------------------------------------------------------------
// Durations and dates
// ---------------------------------------------------------------------------

/// `Duration::whole_nanoseconds` gives the length of the duration, which lies
/// between those of `Duration::MIN` and `Duration::MAX`.
pub assume_specification[ Duration::whole_nanoseconds ](duration: Duration) -> (nanos: i128)
    ensures
        nanos == duration_nanos(duration),
        MIN_DURATION <= nanos <= MAX_DURATION,
;

/// `Duration::ZERO` lasts no time.
#[verifier::external_body]
pub(crate) fn zero_duration() -> (duration: Duration)
    ensures
        duration_nanos(duration) == 0,
{
    Duration::ZERO
}

/// `Duration::try_from` turns an unsigned duration of the standard library,
/// here given by its seconds and nanoseconds, into a signed one. It fails
/// exactly where the seconds are too many for an `i64`.
#[verifier::external_body]
pub(crate) fn duration_from_unsigned(secs: u64, nanos: u32) -> (duration: Option<Duration>)
    requires
        nanos < SECOND,
    ensures
        duration is Some <==> secs <= i64::MAX,
        duration matches Some(d) ==> duration_nanos(d) == secs * SECOND + nanos,
{
    Duration::try_from(std::time::Duration::new(secs, nanos)).ok()
}

/// `OffsetDateTime::from_unix_timestamp_nanos` gives the moment that many
/// nanoseconds after the Unix epoch, in UTC. It succeeds for every date from the
/// year -9999 to the year 9999. What it does beyond depends on how the crate
/// that it belongs to is configured, and is not stated.
#[verifier::external_body]
pub(crate) fn date_from_unix_nanos(nanos: i128) -> (date: Option<OffsetDateTime>)
    ensures
        MIN_DATE <= nanos <= MAX_DATE ==> date is Some,
        date matches Some(d) ==> date_view(d) == utc(nanos as int),
{
    OffsetDateTime::from_unix_timestamp_nanos(nanos).ok()
}

/// `OffsetDateTime::unix_timestamp_nanos` gives the moment as nanoseconds since
/// the Unix epoch.
pub assume_specification[ OffsetDateTime::unix_timestamp_nanos ](date: OffsetDateTime) -> (nanos:
    i128)
    ensures
        nanos == date_view(date).nanos,
;

// ---------------------------------------------------------------------------
// Test cases
// ---------------------------------------------------------------------------

/// `TestCase::success` makes a successful test case.
pub assume_specification[ TestCase::success ](name: &str, time: Duration) -> (case: TestCase)
    ensures
        case_view(case) == plain_case(name@, duration_nanos(time), ResultView::Success),
;

/// `TestCase::skipped` makes a test case that was skipped, in no time.
pub assume_specification[ TestCase::skipped ](name: &str) -> (case: TestCase)
    ensures
        case_view(case) == plain_case(name@, 0, ResultView::Skipped),
;

/// `TestCase::failure` makes a test case that failed.
pub assume_specification[ TestCase::failure ](
    name: &str,
    time: Duration,
    type_: &str,
    message: &str,
) -> (case: TestCase)
    ensures
        case_view(case) == plain_case(
            name@,
            duration_nanos(time),
            ResultView::Failure { type_: type_@, message: message@ },
        ),
;

/// `TestCase::set_system_out` replaces what the test case printed, and nothing
/// else.
pub assume_specification[ TestCase::set_system_out ](case: &mut TestCase, system_out: &str)
    ensures
        case_view(*final(case)) == (CaseView {
            system_out: Some(system_out@),
            ..case_view(*old(case))
        }),
;

/// `TestCase::time` gives the time that the test case took.
pub assume_specification[ TestCase::time ](case: &TestCase) -> (time: &Duration)
    ensures
        duration_nanos(*time) == case_view(*case).time,
;

// ---------------------------------------------------------------------------
// Test suites
// ---------------------------------------------------------------------------

/// `TestSuite::new` makes a test suite without test cases. Its timestamp is the
/// time of the call, in UTC: of the moment itself nothing is known.
#[verifier::external_body]
pub(crate) fn new_suite(name: &str) -> (suite: TestSuite)
    ensures
        suite_view(suite) == empty_suite(name@, suite_view(suite).timestamp),
        suite_view(suite).timestamp.offset == 0,
{
    TestSuite::new(name)
}

/// `TestSuite::set_timestamp` replaces the timestamp, and nothing else.
pub assume_specification[ TestSuite::set_timestamp ](
    suite: &mut TestSuite,
    timestamp: OffsetDateTime,
)
    ensures
        suite_view(*final(suite)) == (SuiteView {
            timestamp: date_view(timestamp),
            ..suite_view(*old(suite))
        }),
;

/// `TestSuite::add_testcase` puts a test case behind the others.
pub assume_specification[ TestSuite::add_testcase ](suite: &mut TestSuite, testcase: TestCase)
    ensures
        suite_view(*final(suite)) == with_case(suite_view(*old(suite)), case_view(testcase)),
;

/// `TestSuite::timestamp` gives the timestamp.
pub assume_specification[ TestSuite::timestamp ](suite: &TestSuite) -> (timestamp: &OffsetDateTime)
    ensures
        date_view(*timestamp) == suite_view(*suite).timestamp,
;

/// `TestSuite::testcases` gives the test cases, in order.
pub assume_specification[ TestSuite::testcases ](suite: &TestSuite) -> (testcases: &Vec<TestCase>)
    ensures
        case_views(testcases@) == suite_view(*suite).testcases,
;

// ---------------------------------------------------------------------------
// Reports
// ---------------------------------------------------------------------------

/// `Report::new` makes a report without test suites.
#[verifier::external_body]
pub(crate) fn new_report() -> (report: Report)
    ensures
        report_suites(report) == Seq::<SuiteView>::empty(),
{
    Report::new()
}

/// `Report::add_testsuite` puts a test suite behind the others.
pub assume_specification[ Report::add_testsuite ](report: &mut Report, testsuite: TestSuite)
    ensures
        report_suites(*final(report)) == report_suites(*old(report)).push(suite_view(testsuite)),
;

/// `Report::testsuites` gives the test suites, in order.
pub assume_specification[ Report::testsuites ](report: &Report) -> (testsuites: &Vec<TestSuite>)
    ensures
        suite_views(testsuites@) == report_suites(*report),
;

/// Why a report cannot be written as XML.
#[derive(Clone, Copy, Debug, PartialEq, Eq, Structural)]
pub enum Unwritable {
    /// A timestamp that RFC 3339 has no notation for.
    Timestamp,
    /// Test cases of one test suite that together take too long.
    Time,
}

/// The time that the test cases take together.
pub open spec fn total_time(cases: Seq<CaseView>) -> int
    decreases cases.len(),
{
    if cases.len() == 0 {
        0
    } else {
        total_time(cases.drop_last()) + cases.last().time
    }
}

/// Whether a duration can represent the time of the test cases, added up one by
/// one.
pub open spec fn has_total_time(cases: Seq<CaseView>) -> bool
    decreases cases.len(),
{
    cases.len() == 0 || (has_total_time(cases.drop_last()) && MIN_DURATION <= total_time(cases)
        <= MAX_DURATION)
}

/// Whether RFC 3339 has a notation for the date, which is shown in UTC.
pub open spec fn has_rfc3339(date: DateView) -> bool {
    date.offset == 0 && MIN_RFC3339_DATE <= date.nanos <= MAX_DATE
}

/// Why the test suite cannot be written, if it cannot.
pub open spec fn suite_fault(suite: SuiteView) -> Option<Unwritable> {
    if !has_rfc3339(suite.timestamp) {
        Some(Unwritable::Timestamp)
    } else if !has_total_time(suite.testcases) {
        Some(Unwritable::Time)
    } else {
        None
    }
}

/// Why the first of the test suites that cannot be written cannot, if there is
/// one.
pub open spec fn report_fault(suites: Seq<SuiteView>) -> Option<Unwritable>
    decreases suites.len(),
{
    if suites.len() == 0 {
        None
    } else {
        match report_fault(suites.drop_last()) {
            Some(fault) => Some(fault),
            None => suite_fault(suites.last()),
        }
    }
}

/// Whether every timestamp is shown in UTC.
pub open spec fn all_utc(suites: Seq<SuiteView>) -> bool {
    forall|i: int| 0 <= i < suites.len() ==> (#[trigger] suites[i]).timestamp.offset == 0
}

/// How writing a report failed.
#[derive(Clone, Copy, Debug, PartialEq, Eq, Structural)]
pub enum XmlError {
    /// Escape sequences could not be stripped from an output.
    Io,
    /// The XML writer failed, or the sink that it writes to.
    Write,
}

impl XmlError {
    /// What the error says.
    pub open spec fn text(self) -> Seq<char> {
        match self {
            XmlError::Io => "unable to parse the input"@,
            XmlError::Write => "unable to write report"@,
        }
    }

    /// Describes the error.
    pub fn message(&self) -> (text: String)
        ensures
            text@ == self.text(),
    {
        match self {
            XmlError::Io => "unable to parse the input".to_owned(),
            XmlError::Write => "unable to write report".to_owned(),
        }
    }
}

/// The XML document that `Report::write_xml` writes of the test suites.
pub uninterp spec fn report_xml(suites: Seq<SuiteView>) -> Seq<u8>;

/// `Report::write_xml` writes the report into a buffer, and does not fail: it
/// fails only if its sink does, and a buffer takes all bytes, and it closes each
/// element that it opens. What it writes depends on nothing but what the test
/// suites hold. It panics on a timestamp that RFC 3339 has no notation for, and
/// where it cannot add up the times of a test suite.
#[verifier::external_body]
pub(crate) fn write_xml(report: &Report) -> (xml: Result<Vec<u8>, XmlError>)
    requires
        report_fault(report_suites(*report)) is None,
    ensures
        xml is Ok,
        xml->Ok_0@ == report_xml(report_suites(*report)),
{
    let mut sink: Vec<u8> = Vec::new();
    match report.write_xml(&mut sink) {
        Ok(()) => Ok(sink),
        Err(ReportError::Io(_)) => Err(XmlError::Io),
        Err(ReportError::Write(_)) => Err(XmlError::Write),
    }
}

fn find_suite_fault(suite: &TestSuite) -> (fault: Option<Unwritable>)
    requires
        suite_view(*suite).timestamp.offset == 0,
    ensures
        fault == suite_fault(suite_view(*suite)),
{
    let at = (*suite.timestamp()).unix_timestamp_nanos();
    if at < MIN_RFC3339_DATE || at > MAX_DATE {
        return Some(Unwritable::Timestamp);
    }
    let cases = suite.testcases();
    let ghost views = suite_view(*suite).testcases;
    let mut total: i128 = 0;
    let mut i: usize = 0;
    while i < cases.len()
        invariant
            i <= cases.len(),
            views == case_views(cases@),
            views == suite_view(*suite).testcases,
            has_rfc3339(suite_view(*suite).timestamp),
            total == total_time(views.take(i as int)),
            has_total_time(views.take(i as int)),
            MIN_DURATION <= total <= MAX_DURATION,
        decreases cases.len() - i,
    {
        let time = (*cases[i].time()).whole_nanoseconds();
        assert(time == views[i as int].time);
        proof {
            let next = views.take(i + 1);
            assert(next.drop_last() =~= views.take(i as int));
            assert(next.last() == views[i as int]);
        }
        total = total + time;
        if total < MIN_DURATION || total > MAX_DURATION {
            proof {
                if has_total_time(views) {
                    lemma_has_total_time_take(views, i + 1);
                }
            }
            return Some(Unwritable::Time);
        }
        i = i + 1;
    }
    assert(views.take(i as int) =~= views);
    None
}

/// Test cases whose times can be added up can be added up from the front.
proof fn lemma_has_total_time_take(cases: Seq<CaseView>, n: int)
    requires
        0 <= n <= cases.len(),
        has_total_time(cases),
    ensures
        has_total_time(cases.take(n)),
    decreases cases.len(),
{
    if n == cases.len() {
        assert(cases.take(n) =~= cases);
    } else {
        lemma_has_total_time_take(cases.drop_last(), n);
        assert(cases.drop_last().take(n) =~= cases.take(n));
    }
}

/// Test suites that can all be written can be written from the front.
proof fn lemma_report_fault_take(suites: Seq<SuiteView>, n: int)
    requires
        0 <= n <= suites.len(),
    ensures
        report_fault(suites.take(n)) is Some ==> report_fault(suites) == report_fault(
            suites.take(n),
        ),
    decreases suites.len(),
{
    if n == suites.len() {
        assert(suites.take(n) =~= suites);
    } else {
        lemma_report_fault_take(suites.drop_last(), n);
        assert(suites.drop_last().take(n) =~= suites.take(n));
    }
}

/// A report can be written exactly if each of its test suites can.
pub proof fn law_writable_report(suites: Seq<SuiteView>)
    ensures
        report_fault(suites) is None <==> forall|i: int|
            0 <= i < suites.len() ==> suite_fault(#[trigger] suites[i]) is None,
    decreases suites.len(),
{
    if suites.len() > 0 {
        let front = suites.drop_last();
        law_writable_report(front);
        assert(forall|i: int| 0 <= i < front.len() ==> front[i] == suites[i]);
        if report_fault(suites) is None {
            assert forall|i: int| 0 <= i < suites.len() implies suite_fault(
                #[trigger] suites[i],
            ) is None by {
                if i < front.len() {
                    assert(suite_fault(front[i]) is None);
                }
            }
        } else if report_fault(front) is Some {
            let i = choose|i: int| 0 <= i < front.len() && suite_fault(#[trigger] front[i]) is Some;
            assert(suite_fault(suites[i]) is Some);
        }
    }
}

/// Finds out why the report cannot be written, if it cannot.
pub fn find_report_fault(report: &Report) -> (fault: Option<Unwritable>)
    requires
        all_utc(report_suites(*report)),
    ensures
        fault == report_fault(report_suites(*report)),
{
    let suites = report.testsuites();
    let ghost views = report_suites(*report);
    let mut i: usize = 0;
    while i < suites.len()
        invariant
            i <= suites.len(),
            views == suite_views(suites@),
            views == report_suites(*report),
            all_utc(views),
            report_fault(views.take(i as int)) is None,
        decreases suites.len() - i,
    {
        assert(views[i as int] == suite_view(suites[i as int]));
        let fault = find_suite_fault(&suites[i]);
        proof {
            let next = views.take(i + 1);
            assert(next.drop_last() =~= views.take(i as int));
            assert(next.last() == views[i as int]);
            lemma_report_fault_take(views, i + 1);
        }
        if fault.is_some() {
            return fault;
        }
        i = i + 1;
    }
    assert(views.take(i as int) =~= views);
    None
}

/// The times of test cases add up, in whatever groups they are taken.
pub proof fn law_times_add_up(first: Seq<CaseView>, rest: Seq<CaseView>)
    ensures
        total_time(first + rest) == total_time(first) + total_time(rest),
        first.len() == 1 ==> total_time(first) == first[0].time,
        first.len() == 0 ==> total_time(first) == 0,
    decreases rest.len(),
{
    if first.len() == 1 {
        assert(total_time(first.drop_last()) == 0);
    }
    if rest.len() == 0 {
        assert(first + rest =~= first);
    } else {
        assert((first + rest).drop_last() =~= first + rest.drop_last());
        law_times_add_up(first, rest.drop_last());
    }
}

/// The times of test cases can be added up exactly if, from the front, each sum on
/// the way is a time that can be represented.
pub proof fn law_sums_of_times(cases: Seq<CaseView>)
    ensures
        has_total_time(cases) <==> forall|n: int|
            1 <= n <= cases.len() ==> MIN_DURATION <= #[trigger] total_time(cases.take(n))
                <= MAX_DURATION,
    decreases cases.len(),
{
    if cases.len() > 0 {
        let front = cases.drop_last();
        law_sums_of_times(front);
        assert(cases.take(cases.len() as int) =~= cases);
        assert forall|n: int| 1 <= n <= front.len() implies #[trigger] front.take(n) == cases.take(
            n,
        ) by {
            assert(front.take(n) =~= cases.take(n));
        }
        if forall|n: int|
            1 <= n <= cases.len() ==> MIN_DURATION <= #[trigger] total_time(cases.take(n))
                <= MAX_DURATION {
            assert forall|n: int| 1 <= n <= front.len() implies MIN_DURATION
                <= #[trigger] total_time(front.take(n)) <= MAX_DURATION by {
                assert(front.take(n) == cases.take(n));
                assert(total_time(cases.take(n)) <= MAX_DURATION);
            }
        }
        if has_total_time(cases) {
            assert forall|n: int| 1 <= n <= cases.len() implies MIN_DURATION
                <= #[trigger] total_time(cases.take(n)) <= MAX_DURATION by {
                if n <= front.len() {
                    assert(front.take(n) == cases.take(n));
                    assert(total_time(front.take(n)) <= MAX_DURATION);
                }
            }
        }
    }
}

/// A test suite cannot be written for its timestamp exactly if that is not shown
/// in UTC or lies outside of the years 0 to 9999, and for its times exactly if
/// only those are at fault.
pub proof fn law_faults_of_a_suite(suite: SuiteView)
    ensures
        suite_fault(suite) == Some(Unwritable::Timestamp) <==> {
            ||| suite.timestamp.offset != 0
            ||| suite.timestamp.nanos < -62_167_219_200_000_000_000
            ||| suite.timestamp.nanos > 253_402_300_799_999_999_999
        },
        suite_fault(suite) == Some(Unwritable::Time) <==> {
            &&& suite.timestamp.offset == 0
            &&& -62_167_219_200_000_000_000 <= suite.timestamp.nanos
                <= 253_402_300_799_999_999_999
            &&& exists|n: int|
                1 <= n <= suite.testcases.len() && !(MIN_DURATION <= #[trigger] total_time(
                    suite.testcases.take(n),
                ) <= MAX_DURATION)
        },
{
    law_sums_of_times(suite.testcases);
}

/// The first of the test suites that cannot be written tells why the report cannot.
pub proof fn law_first_fault(suites: Seq<SuiteView>, i: int)
    requires
        0 <= i < suites.len(),
        forall|j: int| 0 <= j < i ==> suite_fault(#[trigger] suites[j]) is None,
        suite_fault(suites[i]) is Some,
    ensures
        report_fault(suites) == suite_fault(suites[i]),
{
    let front = suites.take(i);
    assert forall|j: int| 0 <= j < front.len() implies suite_fault(#[trigger] front[j]) is None by {
        assert(suite_fault(suites[j]) is None);
    }
    law_writable_report(front);
    assert(suites.take(i + 1).drop_last() =~= front);
    lemma_report_fault_take(suites, i + 1);
}

} // verus!
