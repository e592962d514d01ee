# cucumber_junit

A writer of JUnit XML reports on runs of Cucumber features, verified with Verus.

The writer takes the events of a run one by one. It forms a test suite for each
feature, with a test case for each of its scenarios, and a test suite for each
error of the parser, and gives the report as an XML document when the run
finishes.

- `src/junit.rs`: the writer.
- `src/model.rs`: what each event does to the report, and which events cannot be
  handled.
- `src/misuse.rs`: what is said of an event that cannot be handled.
- `src/report.rs`: the report itself. Its types and its XML come from the crate
  `junit-report`, which is trusted to do what is written here.
- `src/text.rs`: pieces of text that names are put together from.
- `src/event.rs`, `src/syntax.rs`, `src/parser.rs`: events, what they name of a
  `.feature` file, and errors.
- `src/laws.rs`: what holds of any sequence of events.
- `src/runs.rs`: what the report on a run holds whose events come in order, and
  when all of them can be handled.
- `tests/`: tests of the compiled library.
- `app/`: the writer at work, on events of Gherkin features and with an output.
