//! What all tools share: the hard errors that abort an execution (as
//! opposed to failures reported in a `ToolResult`).
use vstd::prelude::*;

verus! {

/// An unexpected fault of a tool execution.
#[derive(Debug, Clone)]
pub enum ToolError {
    /// A required argument is absent or not a string.
    MissingParameter(String),
}

impl ToolError {
    /// The message of the error.
    pub fn message(&self) -> (r: String)
        ensures
            (match self {
                ToolError::MissingParameter(p) => r@ == "Missing '"@ + p@ + "' parameter"@,
            }),
    {
        match self {
            ToolError::MissingParameter(p) => {
                let mut m = String::from_str("Missing '");
                m.append(p.as_str());
                m.append("' parameter");
                m
            },
        }
    }
}

pub fn missing_parameter(name: &str) -> (r: ToolError)
    ensures
        r matches ToolError::MissingParameter(p) && p@ == name@,
{
    ToolError::MissingParameter(String::from_str(name))
}

} // verus!
