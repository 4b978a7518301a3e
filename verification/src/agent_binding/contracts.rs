//! Data a host exchanges with an agent binding, and the structural admission of a
//! prompt.
use crate::text::{blen, is_blank};
use vstd::prelude::*;

verus! {

/// Failure of a binding operation.
#[derive(Clone, Debug, PartialEq, Eq)]
pub enum BindingError {
    /// Incompatible configuration.
    Configuration(String),
    /// The operation is not offered.
    Unsupported(String),
    /// Invalid input.
    InvalidInput(String),
    /// A prompt is already running.
    Busy,
    /// The binding is closed.
    Closed,
    /// The answered review is no longer pending.
    StalePermission,
    /// The provider broke the protocol.
    Protocol(String),
    /// The provider reported an error code.
    Provider {
        /// Provider error code.
        code: i64,
    },
    /// Transport failed.
    Transport(String),
    /// A deadline passed.
    Deadline,
    /// A bounded queue overflowed.
    Backpressure,
    /// Cleanup could not be confirmed.
    CleanupUncertain,
}

/// One prompt with its caller-supplied token budget.
#[derive(Clone, Debug)]
pub struct Prompt {
    /// Correlation supplied by the host.
    pub execution_id: String,
    /// Prompt text.
    pub text: String,
    /// Caller estimate of input tokens, existing context included.
    pub input_tokens: u64,
    /// Output tokens reserved for the prompt.
    pub reserved_output_tokens: u32,
}

/// How a prompt ended.
#[derive(Clone, Copy, Debug, PartialEq, Eq, Structural)]
pub enum PromptOutcome {
    /// The agent finished its turn.
    Completed,
    /// The output budget was exhausted.
    OutputLimit,
    /// The request limit was reached.
    RequestLimit,
    /// The agent refused.
    Refused,
    /// The prompt was cancelled.
    Cancelled,
}

/// Kind of a tool a binding reports.
#[derive(Clone, Copy, Debug, PartialEq, Eq, Structural)]
pub enum ToolKind {
    /// Reads files.
    Read,
    /// Edits files.
    Edit,
    /// Searches.
    Search,
    /// Anything else.
    Other,
}

/// Progress of a tool a binding reports.
#[derive(Clone, Copy, Debug, PartialEq, Eq, Structural)]
pub enum ToolStatus {
    /// Not started.
    Pending,
    /// Running.
    Running,
    /// Finished.
    Completed,
    /// Failed.
    Failed,
}

/// A file position a tool refers to.
#[derive(Clone, Debug, PartialEq, Eq)]
pub struct FileLocation {
    /// File path.
    pub path: String,
    /// Line, when known.
    pub line: Option<u32>,
}

/// Content a tool produced.
#[derive(Clone, Debug, PartialEq, Eq)]
pub enum ToolContent {
    /// Text.
    Text(String),
    /// A file change.
    Diff {
        /// Changed file.
        path: String,
        /// Previous text, if the file existed.
        old: Option<String>,
        /// New text.
        new: String,
    },
}

/// A sparse tool observation.
#[derive(Clone, Debug, PartialEq, Eq)]
pub struct ToolCall {
    /// Tool identity.
    pub id: String,
    /// Title.
    pub title: Option<String>,
    /// Kind.
    pub kind: Option<ToolKind>,
    /// Progress.
    pub status: Option<ToolStatus>,
    /// File positions.
    pub locations: Option<Vec<FileLocation>>,
    /// Produced content.
    pub content: Option<Vec<ToolContent>>,
}

/// Normalized file-tool input for a host to review; untrusted provider data.
#[derive(Clone, Debug, PartialEq, Eq)]
pub enum FileToolInput {
    /// Read a file.
    Read {
        /// File path.
        path: String,
        /// Starting line.
        offset: Option<u64>,
        /// Number of lines.
        limit: Option<u64>,
        /// Page selection.
        pages: Option<String>,
    },
    /// Write a file.
    Write {
        /// File path.
        path: String,
        /// New content.
        content: String,
    },
    /// Edit a file.
    Edit {
        /// File path.
        path: String,
        /// Replaced text.
        old: String,
        /// Replacement.
        new: String,
        /// Whether every occurrence is replaced.
        replace_all: bool,
    },
    /// Match paths.
    Glob {
        /// Pattern.
        pattern: String,
        /// Directory.
        path: Option<String>,
    },
    /// Search file contents.
    Grep {
        /// Pattern.
        pattern: String,
        /// Directory or file.
        path: Option<String>,
        /// Path filter.
        glob: Option<String>,
        /// File type filter.
        file_type: Option<String>,
        /// Output mode.
        output_mode: Option<String>,
        /// Lines before a match.
        before: Option<u64>,
        /// Lines after a match.
        after: Option<u64>,
        /// Lines around a match.
        context: Option<u64>,
        /// Whether to show line numbers.
        line_numbers: Option<bool>,
        /// Whether to ignore case.
        ignore_case: Option<bool>,
        /// Whether to show only the match.
        only_matching: Option<bool>,
        /// Whether patterns span lines.
        multiline: Option<bool>,
        /// Largest number of results.
        head_limit: Option<u64>,
        /// Results skipped.
        offset: Option<u64>,
    },
}

/// One observation of a binding.
#[derive(Debug, PartialEq, Eq)]
pub enum BindingUpdate {
    /// The prompt's outcome, after its output.
    Finished(Result<PromptOutcome, BindingError>),
    /// Text.
    Text(String),
    /// Thought.
    Thought(String),
    /// Tool observation.
    Tool(ToolCall),
    /// A review of a tool's input.
    PermissionRequested {
        /// Review identity.
        id: String,
        /// Reviewed tool.
        tool: ToolCall,
        /// Normalized input.
        input: Box<FileToolInput>,
    },
}

/// An observation correlated with its prompt.
#[derive(Debug, PartialEq, Eq)]
pub struct BindingEvent {
    /// Prompt correlation.
    pub execution_id: String,
    /// Observation.
    pub update: BindingUpdate,
}

/// A host's answer to one review.
#[derive(Clone, Debug, PartialEq, Eq)]
pub struct PermissionAnswer {
    /// Prompt correlation.
    pub execution_id: String,
    /// Review identity.
    pub id: String,
    /// Whether the action is allowed once; otherwise it is rejected once.
    pub allow_once: bool,
}

/// How a binding stopped.
#[derive(Clone, Copy, Debug, PartialEq, Eq, Structural)]
pub struct StopOutcome {
    /// Whether stopping had to force the provider process.
    pub forced: bool,
}

/// Largest UTF-8 byte length of a prompt's execution identity.
pub const MAX_PROMPT_ID_BYTES: usize = 256;

/// Whether a prompt is structurally admissible: text that is not blank, and an
/// execution identity that is not blank and at most 256 bytes.
pub open spec fn prompt_well_formed(text: Seq<char>, execution_id: Seq<char>) -> bool {
    !is_blank(text) && !is_blank(execution_id) && blen(execution_id) <= MAX_PROMPT_ID_BYTES
}

/// Checks a prompt's structure before its capability budget is validated:
/// InvalidInput for blank text, or a blank or oversized execution identity.
pub fn validate_prompt_shape(input: &Prompt) -> (r: Result<(), BindingError>)
    ensures
        r is Ok <==> prompt_well_formed(input.text@, input.execution_id@),
        r matches Err(e) ==> e matches BindingError::InvalidInput(t) && t@
            == "text and a bounded execution ID are required"@,
{
    if crate::text::blank(input.text.as_str()) || crate::text::blank(input.execution_id.as_str())
        || crate::text::text_len(&input.execution_id) > MAX_PROMPT_ID_BYTES {
        return Err(BindingError::InvalidInput("text and a bounded execution ID are required".to_owned()));
    }
    Ok(())
}

} // verus!
