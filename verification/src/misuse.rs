//! What is said of an event that cannot be handled.

use crate::model::Misuse;
use crate::report::{Unwritable, DAY, MAX_DATE, MIN_DATE};
use crate::text::{signed_decimal, to_signed_decimal};
use vstd::prelude::*;

verus! {

/// Advice on events that come in an incorrect order.
pub const WRAP_ADVICE: &'static str = "Consider wrapping `Writer` into `writer::Normalize`";

/// `before`, the name in quotation marks, and the advice on a line of its own.
pub open spec fn order_text(before: Seq<char>, name: Seq<char>) -> Seq<char> {
    before + " \""@ + name + "\"\n"@ + WRAP_ADVICE@
}

fn to_order_text(before: &str, name: &str) -> (text: String)
    ensures
        text@ == order_text(before@, name@),
{
    let mut text = before.to_owned();
    text.append(" \"");
    text.append(name);
    text.append("\"\n");
    text.append(WRAP_ADVICE);
    text
}

impl Misuse {
    /// What is said of the event, which belongs to a feature or a scenario of the
    /// name `name`. The moments between which no time can pass are given in
    /// nanoseconds since the Unix epoch.
    pub open spec fn text(self, name: Seq<char>) -> Seq<char> {
        match self {
            Misuse::NoSuiteForFeature => order_text("No `TestSuit` for `Feature`"@, name),
            Misuse::NoSuiteForScenario => order_text("No `TestSuit` for `Scenario`"@, name),
            Misuse::NoEvents => order_text("No events for `Scenario`"@, name),
            Misuse::DuplicatedFinished => order_text(
                "Duplicated `Finished` event for `Scenario`:"@,
                name,
            ),
            Misuse::NoStarted => order_text("No `Started` event for `Scenario`"@, name),
            Misuse::TimeWentBack { started, ended } => "Failed to compute duration between "@
                + signed_decimal(ended as int) + " and "@ + signed_decimal(started as int)
                + ": second time provided was later than self"@,
            Misuse::DurationOutOfRange => {
                "Cannot covert `std::time::Duration` to `time::Duration`: Source value is out of range for the target type"@
            },
            Misuse::DateOutOfRange { at } => if at > MAX_DATE {
                "overflow adding duration to date"@
            } else if at > MIN_DATE - DAY {
                "resulting value is out of range"@
            } else {
                "overflow subtracting duration from date"@
            },
            Misuse::NotPrinted => "Not each event of `Scenario` \""@ + name
                + "\" was printed once"@,
            Misuse::NotWritable(Unwritable::Timestamp) => {
                "failed to format: InvalidComponent(\"year\")"@
            },
            Misuse::NotWritable(Unwritable::Time) => "overflow when adding durations"@,
        }
    }

    /// Describes the misuse.
    pub fn message(&self, name: &str) -> (text: String)
        ensures
            text@ == self.text(name@),
    {
        match self {
            Misuse::NoSuiteForFeature => to_order_text("No `TestSuit` for `Feature`", name),
            Misuse::NoSuiteForScenario => to_order_text("No `TestSuit` for `Scenario`", name),
            Misuse::NoEvents => to_order_text("No events for `Scenario`", name),
            Misuse::DuplicatedFinished => to_order_text(
                "Duplicated `Finished` event for `Scenario`:",
                name,
            ),
            Misuse::NoStarted => to_order_text("No `Started` event for `Scenario`", name),
            Misuse::TimeWentBack { started, ended } => {
                let mut text = "Failed to compute duration between ".to_owned();
                text.append(to_signed_decimal(*ended).as_str());
                text.append(" and ");
                text.append(to_signed_decimal(*started).as_str());
                text.append(": second time provided was later than self");
                text
            },
            Misuse::DurationOutOfRange => {
                "Cannot covert `std::time::Duration` to `time::Duration`: Source value is out of range for the target type".to_owned()
            },
            Misuse::DateOutOfRange { at } => if *at > MAX_DATE {
                "overflow adding duration to date".to_owned()
            } else if *at > MIN_DATE - DAY {
                "resulting value is out of range".to_owned()
            } else {
                "overflow subtracting duration from date".to_owned()
            },
            Misuse::NotPrinted => {
                let mut text = "Not each event of `Scenario` \"".to_owned();
                text.append(name);
                text.append("\" was printed once");
                text
            },
            Misuse::NotWritable(Unwritable::Timestamp) => {
                "failed to format: InvalidComponent(\"year\")".to_owned()
            },
            Misuse::NotWritable(Unwritable::Time) => "overflow when adding durations".to_owned(),
        }
    }
}

/// What is said of an event at a wrong place tells what is missing or was there
/// already, names the feature or the scenario in quotation marks, and ends with
/// the advice.
pub proof fn law_order_is_told(misuse: Misuse, name: Seq<char>)
    requires
        misuse is NoSuiteForFeature || misuse is NoSuiteForScenario || misuse is NoEvents
            || misuse is DuplicatedFinished || misuse is NoStarted,
    ensures
        ({
            let told = match misuse {
                Misuse::NoSuiteForFeature => "No `TestSuit` for `Feature` \""@,
                Misuse::NoSuiteForScenario => "No `TestSuit` for `Scenario` \""@,
                Misuse::NoEvents => "No events for `Scenario` \""@,
                Misuse::DuplicatedFinished => "Duplicated `Finished` event for `Scenario`: \""@,
                _ => "No `Started` event for `Scenario` \""@,
            };
            let advice = "\"\nConsider wrapping `Writer` into `writer::Normalize`"@;
            misuse.text(name) == told + name + advice
        }),
{
    reveal_strlit("No `TestSuit` for `Feature`");
    reveal_strlit("No `TestSuit` for `Scenario`");
    reveal_strlit("No events for `Scenario`");
    reveal_strlit("Duplicated `Finished` event for `Scenario`:");
    reveal_strlit("No `Started` event for `Scenario`");
    reveal_strlit("No `TestSuit` for `Feature` \"");
    reveal_strlit("No `TestSuit` for `Scenario` \"");
    reveal_strlit("No events for `Scenario` \"");
    reveal_strlit("Duplicated `Finished` event for `Scenario`: \"");
    reveal_strlit("No `Started` event for `Scenario` \"");
    reveal_strlit(" \"");
    reveal_strlit("\"\n");
    reveal_strlit("Consider wrapping `Writer` into `writer::Normalize`");
    reveal_strlit("\"\nConsider wrapping `Writer` into `writer::Normalize`");
}

/// What is said of a clock that went back gives both moments, the later one last.
/// Which scenario it was is not told.
pub proof fn law_moments_are_told(started: i128, ended: i128, name: Seq<char>)
    ensures
        (Misuse::TimeWentBack { started, ended }).text(name)
            == "Failed to compute duration between "@ + signed_decimal(ended as int) + " and "@
            + signed_decimal(started as int) + ": second time provided was later than self"@,
{
}

/// What is said of a feature that starts at no date tells whether it starts too
/// late, less than a day too early, or earlier still.
pub proof fn law_dates_are_told(at: i128, name: Seq<char>)
    requires
        at < -377_705_116_800_000_000_000 || at > 253_402_300_799_999_999_999,
    ensures
        ({
            let text = (Misuse::DateOutOfRange { at }).text(name);
            &&& at > 0 ==> text == "overflow adding duration to date"@
            &&& -377_705_203_200_000_000_000 < at < 0 ==> text
                == "resulting value is out of range"@
            &&& at <= -377_705_203_200_000_000_000 ==> text
                == "overflow subtracting duration from date"@
        }),
{
}

/// What is said of a scenario that took too long and of a report that cannot be
/// written is the same whatever the name is, and of a scenario that was not printed
/// it names the scenario.
pub proof fn law_other_faults_are_told(name: Seq<char>)
    ensures
        Misuse::DurationOutOfRange.text(name)
            == "Cannot covert `std::time::Duration` to `time::Duration`: Source value is out of range for the target type"@,
        Misuse::NotWritable(Unwritable::Timestamp).text(name)
            == "failed to format: InvalidComponent(\"year\")"@,
        Misuse::NotWritable(Unwritable::Time).text(name) == "overflow when adding durations"@,
        Misuse::NotPrinted.text(name) == "Not each event of `Scenario` \""@ + name
            + "\" was printed once"@,
{
}

} // verus!
