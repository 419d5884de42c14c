//! Error reporting: a chain of causally linked messages, its rendering, and
//! the process exit code.
//!
//! Every failure bubbles to the top of the program and is reported there as
//! structured text on standard error: one top-level `error:` line, one
//! `caused by:` line per underlying cause in order, and one final
//! `backtrace:` line when a trace is available. A run that fails exits with
//! code 1; a run that succeeds exits with code 0.

use vstd::prelude::*;

verus! {

/// A top-level failure: its own message, the messages of its underlying
/// causes from nearest to deepest, and an optional diagnostic backtrace.
#[derive(Debug)]
pub struct ErrorChain {
    pub message: String,
    pub causes: Vec<String>,
    pub backtrace: Option<String>,
}

/// The prefix of the one top-level line.
pub open spec fn error_prefix() -> Seq<char> {
    "error: "@
}

/// The prefix of each underlying-cause line.
pub open spec fn cause_prefix() -> Seq<char> {
    "caused by: "@
}

/// The prefix of the optional trailing backtrace line.
pub open spec fn backtrace_prefix() -> Seq<char> {
    "backtrace: "@
}

/// What a chain's report says, line by line: the top-level message first,
/// then one line per cause in order, then the backtrace if there is one.
pub open spec fn rendered(chain: ErrorChain) -> Seq<Seq<char>> {
    seq![error_prefix() + chain.message@] + chain.causes@.map(
        |i: int, cause: String| cause_prefix() + cause@,
    ) + (match chain.backtrace {
        Some(trace) => seq![backtrace_prefix() + trace@],
        None => Seq::<Seq<char>>::empty(),
    })
}

/// The exit code a run's outcome earns: zero for success, one for any
/// top-level failure.
pub open spec fn spec_exit_code(outcome: Result<(), ErrorChain>) -> int {
    if outcome is Ok {
        0
    } else {
        1
    }
}

/// A chain with n underlying causes renders exactly one top-level line plus
/// n `caused by` lines, in cause order, plus one backtrace line when a trace
/// is attached — never more, never fewer.
pub proof fn lemma_rendered_line_count(chain: ErrorChain)
    ensures
        rendered(chain).len() == 1 + chain.causes@.len() + (if chain.backtrace is Some {
            1int
        } else {
            0int
        }),
        rendered(chain)[0] == error_prefix() + chain.message@,
        forall|i: int|
            0 <= i < chain.causes@.len() ==> rendered(chain)[1 + i] == cause_prefix()
                + #[trigger] chain.causes@[i]@,
        chain.backtrace matches Some(trace) ==> rendered(chain).last() == backtrace_prefix()
            + trace@,
{
}

/// Any top-level failure is loud: the exit code is nonzero and the first
/// line of the report is non-empty (it carries the `error:` prefix even
/// when the message itself is empty).
pub proof fn lemma_failure_is_loud(chain: ErrorChain)
    ensures
        spec_exit_code(Err(chain)) != 0,
        rendered(chain).len() > 0,
        rendered(chain)[0].len() > 0,
{
    reveal_strlit("error: ");
}

impl ErrorChain {
    /// A failure with no recorded causes and no backtrace yet.
    pub fn new(message: String) -> (r: ErrorChain)
        ensures
            r.message == message,
            r.causes@.len() == 0,
            r.backtrace is None,
    {
        ErrorChain { message, causes: Vec::new(), backtrace: None }
    }

    /// The same failure with one more underlying cause, recorded after the
    /// causes already present.
    pub fn caused_by(self, cause: String) -> (r: ErrorChain)
        ensures
            r.message == self.message,
            r.causes@ == self.causes@.push(cause),
            r.backtrace == self.backtrace,
    {
        let mut causes = self.causes;
        causes.push(cause);
        ErrorChain { message: self.message, causes, backtrace: self.backtrace }
    }

    /// The same failure with a diagnostic backtrace attached.
    pub fn with_backtrace(self, trace: String) -> (r: ErrorChain)
        ensures
            r.message == self.message,
            r.causes@ == self.causes@,
            r.backtrace == Some(trace),
    {
        ErrorChain { message: self.message, causes: self.causes, backtrace: Some(trace) }
    }

    /// How many underlying causes the chain records.
    pub fn cause_count(&self) -> (n: usize)
        ensures
            n == self.causes@.len(),
    {
        self.causes.len()
    }

    /// The report for this failure, line by line, exactly as [`rendered`]
    /// says: the top-level message, each cause in order, and the backtrace
    /// when one is attached.
    pub fn render_lines(&self) -> (r: Vec<String>)
        ensures
            r@.map_values(|line: String| line@) == rendered(*self),
    {
        let mut lines: Vec<String> = Vec::new();
        lines.push(String::from_str("error: ").concat(self.message.as_str()));
        let mut k: usize = 0;
        while k < self.causes.len()
            invariant
                0 <= k <= self.causes@.len(),
                lines@.len() == 1 + k,
                lines@[0]@ == error_prefix() + self.message@,
                forall|i: int|
                    0 <= i < k ==> lines@[1 + i]@ == cause_prefix() + #[trigger] self.causes@[i]@,
            decreases self.causes@.len() - k,
        {
            lines.push(String::from_str("caused by: ").concat(self.causes[k].as_str()));
            k = k + 1;
        }
        match &self.backtrace {
            Some(trace) => {
                lines.push(String::from_str("backtrace: ").concat(trace.as_str()));
            },
            None => {},
        }
        proof {
            assert(lines@.map_values(|line: String| line@) =~= rendered(*self));
        }
        lines
    }
}

/// The exit code for a run's outcome: zero exactly on success, one on any
/// failure.
pub fn exit_code_for(outcome: &Result<(), ErrorChain>) -> (code: i32)
    ensures
        code == spec_exit_code(*outcome),
        code == 0 <==> outcome is Ok,
{
    match outcome {
        Ok(_) => 0,
        Err(_) => 1,
    }
}

} // verus!
