//! What a filesystem execution reports, and the text shown as a file preview.

use crate::task_manager::{ProgressEvent, TaskKind};
use vstd::prelude::*;
use vstd::string::StringExecFns;

verus! {

/// A text preview holds at most this many lines.
pub const PREVIEW_LINE_COUNT: usize = 100;

/// The terminal event of an execution of `kind` that ended with `outcome`.
pub open spec fn spec_completion_event(kind: TaskKind, outcome: Result<(), String>) -> ProgressEvent {
    match outcome {
        Ok(_) => ProgressEvent::Completed { affected_path: kind.spec_affected_path() },
        Err(message) => ProgressEvent::Error(message),
    }
}

/// The event that ends an execution: completion with the path to refresh,
/// or the failure's message.
pub fn completion_event(kind: &TaskKind, outcome: Result<(), String>) -> (r: ProgressEvent)
    ensures
        r == spec_completion_event(*kind, outcome),
{
    match outcome {
        Ok(_) => ProgressEvent::Completed { affected_path: kind.affected_path() },
        Err(message) => ProgressEvent::Error(message),
    }
}

/// Every execution ends with an event that ends its task.
pub proof fn lemma_execution_ends_task(kind: TaskKind, outcome: Result<(), String>)
    ensures
        spec_completion_event(kind, outcome).is_terminal(),
{
}

/// The first `n` lines, each followed by a newline.
pub open spec fn joined_lines(lines: Seq<String>, n: nat) -> Seq<char>
    decreases n,
{
    if n == 0 || lines.len() == 0 {
        seq![]
    } else if n > lines.len() {
        joined_lines(lines, lines.len())
    } else {
        joined_lines(lines, (n - 1) as nat) + lines[n - 1]@ + seq!['\n']
    }
}

/// The preview of a text file read as `lines`: its first lines, at most
/// `PREVIEW_LINE_COUNT`, each ended by a newline.
pub fn text_preview(lines: &Vec<String>) -> (r: String)
    ensures
        r@ == joined_lines(lines@, PREVIEW_LINE_COUNT as nat),
{
    let n = if lines.len() < PREVIEW_LINE_COUNT {
        lines.len()
    } else {
        PREVIEW_LINE_COUNT
    };
    let mut out = String::new();
    let mut i: usize = 0;
    while i < n
        invariant
            i <= n,
            n <= lines@.len(),
            n <= PREVIEW_LINE_COUNT,
            out@ == joined_lines(lines@, i as nat),
        decreases n - i,
    {
        out.append(lines[i].as_str());
        proof {
            reveal_strlit("\n");
        }
        out.append("\n");
        proof {
            assert("\n"@ =~= seq!['\n']);
        }
        i = i + 1;
    }
    proof {
        if lines@.len() < PREVIEW_LINE_COUNT {
            assert(joined_lines(lines@, PREVIEW_LINE_COUNT as nat) == joined_lines(
                lines@,
                lines@.len(),
            ));
        }
    }
    out
}

} // verus!
