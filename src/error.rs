use vstd::prelude::*;

verus! {

/// Everything that can end a command-line run early. Each variant that stems
/// from a failed outside operation carries that operation's message.
#[derive(Debug, Clone, PartialEq, Eq)]
pub enum AppError {
    ReadStdin { message: String },
    ReadFile { path: String, message: String },
    ParseInputsJson { message: String },
    ParseAssumptionsJson { message: String },
    ParseCmdInputJson { message: String },
    SerializeOutput { message: String },
    Other(String),
    MissingInputData,
    MissingAssumptions,
}

/// The text shown to the user for an error.
pub open spec fn describe(e: AppError) -> Seq<char> {
    match e {
        AppError::ReadStdin { message } => "Error reading from stdin: "@ + message@,
        AppError::ReadFile { path, message } => "Error reading file '"@ + path@ + "': "@
            + message@,
        AppError::ParseInputsJson { message } => "Invalid JSON for --inputs-json: "@ + message@,
        AppError::ParseAssumptionsJson { message } => "Invalid JSON for --assumptions-json: "@
            + message@,
        AppError::ParseCmdInputJson { message } => "Invalid JSON in input document: "@
            + message@,
        AppError::SerializeOutput { message } => "Could not serialize output to JSON: "@
            + message@,
        AppError::Other(message) => "Unexpected error: "@ + message@,
        AppError::MissingInputData => "Missing input data: provide --input or --inputs-json"@,
        AppError::MissingAssumptions =>
            "Missing assumptions: provide --assumptions-json or include 'assumptions' in the input document"@,
    }
}

fn prefixed(prefix: &str, message: &String) -> (r: String)
    ensures
        r@ == prefix@ + message@,
{
    let mut s = String::from_str(prefix);
    s.append(message.as_str());
    s
}

impl AppError {
    /// The message of this error, as printed before the program exits.
    pub fn message(&self) -> (r: String)
        ensures
            r@ == describe(*self),
    {
        match self {
            AppError::ReadStdin { message } => prefixed("Error reading from stdin: ", message),
            AppError::ReadFile { path, message } => {
                let mut s = String::from_str("Error reading file '");
                s.append(path.as_str());
                s.append("': ");
                s.append(message.as_str());
                s
            },
            AppError::ParseInputsJson { message } => prefixed(
                "Invalid JSON for --inputs-json: ",
                message,
            ),
            AppError::ParseAssumptionsJson { message } => prefixed(
                "Invalid JSON for --assumptions-json: ",
                message,
            ),
            AppError::ParseCmdInputJson { message } => prefixed(
                "Invalid JSON in input document: ",
                message,
            ),
            AppError::SerializeOutput { message } => prefixed(
                "Could not serialize output to JSON: ",
                message,
            ),
            AppError::Other(message) => prefixed("Unexpected error: ", message),
            AppError::MissingInputData => String::from_str(
                "Missing input data: provide --input or --inputs-json",
            ),
            AppError::MissingAssumptions => String::from_str(
                "Missing assumptions: provide --assumptions-json or include 'assumptions' in the input document",
            ),
        }
    }
}

} // verus!
