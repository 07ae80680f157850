//! The external actions that tools ask for, and how they come back.
use vstd::prelude::*;
use crate::affinity::ExportFormat;

verus! {

/// One external action, with every default already resolved. The host that
/// runs the server performs it and reports an [`ActionStatus`].
#[derive(Debug)]
pub enum Action {
    /// Open `path` in the application `app`.
    Open { app: String, path: String },
    /// Create a document of the given size in the application `app`.
    CreateDocument { app: String, width: u32, height: u32 },
    /// Export the front document to `path`.
    Export { path: String, format: ExportFormat, quality: u8 },
    /// Apply the filter `filter_name` to the front document.
    ApplyFilter { filter_name: String },
    /// Report the front document as `name|path`, or `||` when none is open.
    ReadActiveDocument,
    /// Close the front document.
    CloseDocument,
    /// Write the drawing of the given size to `output_path` (a temporary
    /// file when absent), open it, and report the path written.
    DrawPicture { output_path: Option<String>, width: u32, height: u32 },
}

/// What came of one action.
#[derive(Debug)]
pub enum ActionStatus {
    /// It ran; the text is what it printed (trimmed).
    Done(String),
    /// It ran and failed; the text is the cause, kept for diagnostics.
    Failed(String),
    /// This host cannot perform actions at all.
    Unavailable,
}

/// The application name reported when actions are unavailable.
pub open spec fn unsupported() -> Seq<char> {
    "Unsupported"@
}

/// Number of `true` values in `s`.
pub open spec fn count_true(s: Seq<bool>) -> nat
    decreases s.len(),
{
    if s.len() == 0 {
        0
    } else {
        count_true(s.drop_last()) + if s.last() {
            1nat
        } else {
            0nat
        }
    }
}

/// The fixed fan-out of the batch tools.
pub const MAX_PARALLEL: usize = 16;

/// How many items of an `n`-item batch run: the first `MAX_PARALLEL`.
pub open spec fn batch_len(n: int) -> int {
    if n > MAX_PARALLEL {
        MAX_PARALLEL as int
    } else {
        n
    }
}

/// Number of items of an `n`-item batch that run.
pub fn batch_size(n: usize) -> (r: usize)
    ensures
        r == batch_len(n as int),
{
    if n > MAX_PARALLEL {
        MAX_PARALLEL
    } else {
        n
    }
}

impl ActionStatus {
    /// `true` for `Done`.
    pub fn is_done(&self) -> (r: bool)
        ensures
            r == (*self is Done),
    {
        match self {
            ActionStatus::Done(_) => true,
            _ => false,
        }
    }

    /// `true` for `Unavailable`.
    pub fn is_unavailable(&self) -> (r: bool)
        ensures
            r == (*self is Unavailable),
    {
        match self {
            ActionStatus::Unavailable => true,
            _ => false,
        }
    }
}

} // verus!
