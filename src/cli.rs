use vstd::prelude::*;
use crate::error::AppError;

verus! {

/// Command-line options of a run.
pub struct Args {
    /// Print the summary as JSON instead of plain lines.
    pub json: bool,
    /// A file holding an input document; `-` stands for standard input.
    pub input: Option<String>,
    /// Inline JSON for the measurements; takes precedence over `input`.
    pub inputs_json: Option<String>,
    /// Inline JSON for the assumptions, used together with `inputs_json`.
    pub assumptions_json: Option<String>,
}

/// Where the measurements of a run are read from.
#[derive(Debug, Clone, PartialEq, Eq)]
pub enum InputSource {
    /// Inline JSON for the measurements, and possibly for the assumptions.
    Inline { inputs: String, assumptions: Option<String> },
    /// An input document on standard input.
    Stdin,
    /// An input document in the file at this path.
    File(String),
    /// No source was given.
    Missing,
}

/// The source that the options select: inline JSON first, then a document
/// (`-` meaning standard input), else none.
pub open spec fn source_of(args: Args) -> InputSource {
    match args.inputs_json {
        Some(inputs) => InputSource::Inline { inputs, assumptions: args.assumptions_json },
        None => match args.input {
            Some(path) => if path@ == "-"@ {
                InputSource::Stdin
            } else {
                InputSource::File(path)
            },
            None => InputSource::Missing,
        },
    }
}

/// Selects where the measurements are read from.
pub fn input_source(args: &Args) -> (r: InputSource)
    ensures
        r == source_of(*args),
{
    match &args.inputs_json {
        Some(inputs) => InputSource::Inline {
            inputs: inputs.clone(),
            assumptions: match &args.assumptions_json {
                Some(a) => Some(a.clone()),
                None => None,
            },
        },
        None => match &args.input {
            Some(path) => {
                let dash = String::from_str("-");
                if *path == dash {
                    InputSource::Stdin
                } else {
                    InputSource::File(path.clone())
                }
            },
            None => InputSource::Missing,
        },
    }
}

/// How far a command-line run has come.
#[derive(Debug, Clone, PartialEq, Eq)]
pub enum Stage {
    Start,
    ReadingStdin,
    ReadingFile(String),
    ParsingInputs,
    ParsingAssumptions,
    ParsingDocument,
    Computing,
    Printing,
    Finished,
}

/// The outcome of the work that the previous step asked for.
#[derive(Debug, Clone, PartialEq, Eq)]
pub enum Event {
    Begin,
    TextRead(String),
    ReadFailed(String),
    Parsed,
    ParseFailed(String),
    Computed,
    Printed,
    PrintFailed(String),
}

/// The work that the caller performs next, then reports as an `Event`.
#[derive(Debug, Clone, PartialEq, Eq)]
pub enum Step {
    ReadStdin,
    ReadFile(String),
    /// Parse inline JSON into measurements.
    ParseInputs(String),
    /// Parse inline JSON into assumptions.
    ParseAssumptions(String),
    /// Parse a document holding measurements and, optionally, assumptions;
    /// missing assumptions take their defaults.
    ParseDocument(String),
    /// Compute the summary; assumptions not given take their defaults.
    Compute,
    PrintJson,
    PrintText,
    Done,
    Fail(AppError),
}

/// How many steps a run can still take from a stage, at most.
pub open spec fn remaining(stage: Stage) -> nat {
    match stage {
        Stage::Start => 5,
        Stage::ReadingStdin => 4,
        Stage::ReadingFile(_) => 4,
        Stage::ParsingInputs => 4,
        Stage::ParsingAssumptions => 3,
        Stage::ParsingDocument => 3,
        Stage::Computing => 2,
        Stage::Printing => 1,
        Stage::Finished => 0,
    }
}

/// The next stage and step of a run, or `None` where the event does not
/// belong to the stage.
pub open spec fn next_of(args: Args, stage: Stage, event: Event) -> Option<(Stage, Step)> {
    match (stage, event) {
        (Stage::Start, Event::Begin) => Some(
            match source_of(args) {
                InputSource::Inline { inputs, .. } => (Stage::ParsingInputs, Step::ParseInputs(inputs)),
                InputSource::Stdin => (Stage::ReadingStdin, Step::ReadStdin),
                InputSource::File(path) => (Stage::ReadingFile(path), Step::ReadFile(path)),
                InputSource::Missing => (Stage::Finished, Step::Fail(AppError::MissingInputData)),
            },
        ),
        (Stage::ReadingStdin, Event::TextRead(text)) => Some(
            (Stage::ParsingDocument, Step::ParseDocument(text)),
        ),
        (Stage::ReadingStdin, Event::ReadFailed(message)) => Some(
            (Stage::Finished, Step::Fail(AppError::ReadStdin { message })),
        ),
        (Stage::ReadingFile(_), Event::TextRead(text)) => Some(
            (Stage::ParsingDocument, Step::ParseDocument(text)),
        ),
        (Stage::ReadingFile(path), Event::ReadFailed(message)) => Some(
            (Stage::Finished, Step::Fail(AppError::ReadFile { path, message })),
        ),
        (Stage::ParsingInputs, Event::Parsed) => Some(
            match args.assumptions_json {
                Some(text) => (Stage::ParsingAssumptions, Step::ParseAssumptions(text)),
                None => (Stage::Computing, Step::Compute),
            },
        ),
        (Stage::ParsingInputs, Event::ParseFailed(message)) => Some(
            (Stage::Finished, Step::Fail(AppError::ParseInputsJson { message })),
        ),
        (Stage::ParsingAssumptions, Event::Parsed) => Some((Stage::Computing, Step::Compute)),
        (Stage::ParsingAssumptions, Event::ParseFailed(message)) => Some(
            (Stage::Finished, Step::Fail(AppError::ParseAssumptionsJson { message })),
        ),
        (Stage::ParsingDocument, Event::Parsed) => Some((Stage::Computing, Step::Compute)),
        (Stage::ParsingDocument, Event::ParseFailed(message)) => Some(
            (Stage::Finished, Step::Fail(AppError::ParseCmdInputJson { message })),
        ),
        (Stage::Computing, Event::Computed) => Some(
            (Stage::Printing, if args.json { Step::PrintJson } else { Step::PrintText }),
        ),
        (Stage::Printing, Event::Printed) => Some((Stage::Finished, Step::Done)),
        (Stage::Printing, Event::PrintFailed(message)) => Some(
            (Stage::Finished, Step::Fail(AppError::SerializeOutput { message })),
        ),
        _ => None,
    }
}

/// Decides one step of a command-line run: given the options, the stage
/// reached and the outcome of the last step's work, returns the next stage
/// and the work to perform. An event that does not belong to the stage ends
/// the run with `AppError::Other`. Every step brings the run closer to its end.
pub fn run(args: &Args, stage: Stage, event: Event) -> (r: (Stage, Step))
    ensures
        next_of(*args, stage, event) matches Some(p) ==> r == p,
        next_of(*args, stage, event) is None ==> {
            &&& r.0 is Finished
            &&& r.1 matches Step::Fail(AppError::Other(m))
            &&& m@ == "event out of order"@
        },
        !(stage is Finished) ==> remaining(r.0) < remaining(stage),
{
    match (stage, event) {
        (Stage::Start, Event::Begin) => match input_source(args) {
            InputSource::Inline { inputs, .. } => (Stage::ParsingInputs, Step::ParseInputs(inputs)),
            InputSource::Stdin => (Stage::ReadingStdin, Step::ReadStdin),
            InputSource::File(path) => {
                let p = path.clone();
                (Stage::ReadingFile(path), Step::ReadFile(p))
            },
            InputSource::Missing => (Stage::Finished, Step::Fail(AppError::MissingInputData)),
        },
        (Stage::ReadingStdin, Event::TextRead(text)) => (
            Stage::ParsingDocument,
            Step::ParseDocument(text),
        ),
        (Stage::ReadingStdin, Event::ReadFailed(message)) => (
            Stage::Finished,
            Step::Fail(AppError::ReadStdin { message }),
        ),
        (Stage::ReadingFile(_), Event::TextRead(text)) => (
            Stage::ParsingDocument,
            Step::ParseDocument(text),
        ),
        (Stage::ReadingFile(path), Event::ReadFailed(message)) => (
            Stage::Finished,
            Step::Fail(AppError::ReadFile { path, message }),
        ),
        (Stage::ParsingInputs, Event::Parsed) => match &args.assumptions_json {
            Some(text) => (Stage::ParsingAssumptions, Step::ParseAssumptions(text.clone())),
            None => (Stage::Computing, Step::Compute),
        },
        (Stage::ParsingInputs, Event::ParseFailed(message)) => (
            Stage::Finished,
            Step::Fail(AppError::ParseInputsJson { message }),
        ),
        (Stage::ParsingAssumptions, Event::Parsed) => (Stage::Computing, Step::Compute),
        (Stage::ParsingAssumptions, Event::ParseFailed(message)) => (
            Stage::Finished,
            Step::Fail(AppError::ParseAssumptionsJson { message }),
        ),
        (Stage::ParsingDocument, Event::Parsed) => (Stage::Computing, Step::Compute),
        (Stage::ParsingDocument, Event::ParseFailed(message)) => (
            Stage::Finished,
            Step::Fail(AppError::ParseCmdInputJson { message }),
        ),
        (Stage::Computing, Event::Computed) => (
            Stage::Printing,
            if args.json {
                Step::PrintJson
            } else {
                Step::PrintText
            },
        ),
        (Stage::Printing, Event::Printed) => (Stage::Finished, Step::Done),
        (Stage::Printing, Event::PrintFailed(message)) => (
            Stage::Finished,
            Step::Fail(AppError::SerializeOutput { message }),
        ),
        _ => (
            Stage::Finished,
            Step::Fail(AppError::Other(String::from_str("event out of order"))),
        ),
    }
}

} // verus!
