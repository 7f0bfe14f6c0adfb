//! The command plan that every operation compiles to, the result of running
//! one, and the error taxonomy shared by all planners.

use vstd::prelude::*;
use vstd::string::StringExecFns;

verus! {

/// An executable child-process invocation: a program name, its ordered
/// argument list, and the output location the invocation is expected to
/// produce.  A plan is immutable once built; it is only consumed by the
/// execution adapter.
pub struct CommandPlan {
    pub program: String,
    pub args: Vec<String>,
    pub output_path: String,
}

impl CommandPlan {
    /// The argument list as a sequence of character sequences.
    pub open spec fn args_view(&self) -> Seq<Seq<char>> {
        self.args.deep_view()
    }
}

/// What running a plan produced: whether the process exited successfully,
/// and its captured output streams.
pub struct ExecutionResult {
    pub succeeded: bool,
    pub stdout: String,
    pub stderr: String,
}

/// The typed failures of the planning layer.  Nothing here is fatal to the
/// host process: every operation returns one of these instead of panicking.
#[derive(Debug, Clone)]
pub enum MediaError {
    /// The external binary could not be located or executed; the payload
    /// names the tool.
    ToolMissing(String),
    /// The tool ran and exited nonzero; the payload is its error text,
    /// surfaced verbatim.
    ToolFailed(String),
    /// The tool's structured report was not well-formed.
    ParseFailed,
    /// The report parsed, but no usable duration could be recovered.
    DurationUnavailable,
    /// The request itself is invalid; the payload says why.
    InvalidRequest(String),
    /// Both the primary download attempt and the fallback failed; the
    /// payloads are the two error texts in order.
    FallbackExhausted(String, String),
}

impl MediaError {
    /// The user-facing text of this error.
    pub fn message(&self) -> (r: String)
        ensures
            self matches MediaError::ToolMissing(m) ==> r@ == m@,
            self matches MediaError::ToolFailed(m) ==> r@ == m@,
            self is ParseFailed ==> r@ == "Failed to parse JSON"@,
            self is DurationUnavailable ==> r@ == "Could not parse duration"@,
            self matches MediaError::InvalidRequest(m) ==> r@ == m@,
            self matches MediaError::FallbackExhausted(a, b) ==> r@
                == "yt-dlp download failed even with fallback: Original error: "@ + a@
                + "\nFallback error: "@ + b@,
    {
        match self {
            MediaError::ToolMissing(m) => m.clone(),
            MediaError::ToolFailed(m) => m.clone(),
            MediaError::ParseFailed => "Failed to parse JSON".to_owned(),
            MediaError::DurationUnavailable => "Could not parse duration".to_owned(),
            MediaError::InvalidRequest(m) => m.clone(),
            MediaError::FallbackExhausted(a, b) => {
                let mut s = "yt-dlp download failed even with fallback: Original error: "
                    .to_owned();
                s.append(a.as_str());
                s.append("\nFallback error: ");
                s.append(b.as_str());
                proof {
                    assert(s@ =~= "yt-dlp download failed even with fallback: Original error: "@
                        + a@ + "\nFallback error: "@ + b@);
                }
                s
            },
        }
    }
}

/// Appends one borrowed argument to an argument list.
pub fn push_arg(args: &mut Vec<String>, s: &str)
    ensures
        final(args).deep_view() == old(args).deep_view().push(s@),
{
    args.push(s.to_owned());
    proof {
        assert forall|i: int| 0 <= i < args.deep_view().len() implies args.deep_view()[i]
            == old(args).deep_view().push(s@)[i]
        by {
            if i < old(args)@.len() {
                assert(args@[i] == old(args)@[i]);
            }
        }
        assert(args.deep_view() =~= old(args).deep_view().push(s@));
    }
}

/// Appends a whole list of arguments to an argument list.
pub fn append_args(args: &mut Vec<String>, extra: Vec<String>)
    ensures
        final(args).deep_view() == old(args).deep_view() + extra.deep_view(),
{
    let ghost e = extra.deep_view();
    let mut ex = extra;
    args.append(&mut ex);
    proof {
        assert forall|i: int| 0 <= i < args.deep_view().len() implies args.deep_view()[i]
            == (old(args).deep_view() + e)[i]
        by {
            if i < old(args)@.len() {
                assert(args@[i] == old(args)@[i]);
            }
        }
        assert(args.deep_view() =~= old(args).deep_view() + e);
    }
}

/// Appends one owned argument to an argument list.
pub fn push_arg_string(args: &mut Vec<String>, s: String)
    ensures
        final(args).deep_view() == old(args).deep_view().push(s@),
{
    let ghost v = s@;
    args.push(s);
    proof {
        assert forall|i: int| 0 <= i < args.deep_view().len() implies args.deep_view()[i]
            == old(args).deep_view().push(v)[i]
        by {
            if i < old(args)@.len() {
                assert(args@[i] == old(args)@[i]);
            }
        }
        assert(args.deep_view() =~= old(args).deep_view().push(v));
    }
}

} // verus!
