//! What a chain of formatters asks of whoever runs it: how each formatter
//! hands its output to the next, and when a run is given up.

use vstd::prelude::*;
use crate::config::{FormatterView, PicklsFormatterConfig, PicklsLanguageConfig};

verus! {

/// How a formatter's output reaches the formatter after it.
#[derive(Clone, Copy, Debug, PartialEq, Eq, Structural)]
pub enum Handoff {
    /// Both read their input stream: the output is piped across.
    Pipe,
    /// At least one does not: the output is written to a file in between.
    File,
}

/// What follows a formatter's run.
#[derive(Clone, Copy, Debug, PartialEq, Eq, Structural)]
pub enum FormatStep {
    /// The chain goes on with this formatter's output.
    Continue,
    /// The chain stops at once, this formatter's output is dropped, and the
    /// file counts as not formatted.
    Abort,
}

/// How the formatter at `i` hands over to the one after it.
pub open spec fn handoff_spec(formatters: Seq<FormatterView>, i: int) -> Handoff
    recommends
        0 <= i,
        i + 1 < formatters.len(),
{
    if formatters[i].use_stdin && formatters[i + 1].use_stdin {
        Handoff::Pipe
    } else {
        Handoff::File
    }
}

/// The handoffs of a chain, in its order: one between each formatter and
/// the next.
pub open spec fn handoffs_spec(formatters: Seq<FormatterView>) -> Seq<Handoff> {
    Seq::new(
        if formatters.len() == 0 {
            0nat
        } else {
            (formatters.len() - 1) as nat
        },
        |i: int| handoff_spec(formatters, i),
    )
}

/// What follows a run of a formatter that wrote, or did not write, to its
/// error stream.
pub open spec fn after_run_spec(formatter: FormatterView, wrote_to_stderr: bool) -> FormatStep {
    if formatter.stderr_indicates_error && wrote_to_stderr {
        FormatStep::Abort
    } else {
        FormatStep::Continue
    }
}

impl PicklsFormatterConfig {
    /// What follows a run of this formatter. The chain is given up exactly
    /// where the formatter wrote to its error stream and is set to treat
    /// that as a failure.
    pub fn after_run(&self, wrote_to_stderr: bool) -> (step: FormatStep)
        ensures
            step == after_run_spec(self@, wrote_to_stderr),
            step == FormatStep::Abort <==> self.stderr_indicates_error && wrote_to_stderr,
    {
        if self.stderr_indicates_error && wrote_to_stderr {
            FormatStep::Abort
        } else {
            FormatStep::Continue
        }
    }
}

impl PicklsLanguageConfig {
    /// How the formatter at `i` hands over to the one after it; `None`
    /// where no formatter comes after it.
    pub fn handoff_after(&self, i: usize) -> (handoff: Option<Handoff>)
        ensures
            handoff == if i + 1 < self.formatters.len() {
                Some(handoff_spec(self@.formatters, i as int))
            } else {
                None
            },
    {
        if i < self.formatters.len() && i + 1 < self.formatters.len() {
            if self.formatters[i].use_stdin && self.formatters[i + 1].use_stdin {
                Some(Handoff::Pipe)
            } else {
                Some(Handoff::File)
            }
        } else {
            None
        }
    }

    /// The handoffs of this language's chain of formatters, in its order.
    pub fn handoffs(&self) -> (handoffs: Vec<Handoff>)
        ensures
            handoffs@ == handoffs_spec(self@.formatters),
    {
        let mut handoffs: Vec<Handoff> = Vec::new();
        let mut i: usize = 0;
        while i < self.formatters.len() && i + 1 < self.formatters.len()
            invariant
                handoffs.len() == i,
                i == 0 || i < self.formatters.len(),
                forall|k: int|
                    0 <= k < i ==> #[trigger] handoffs[k] == handoff_spec(self@.formatters, k),
            decreases self.formatters.len() - i,
        {
            let handoff = if self.formatters[i].use_stdin && self.formatters[i + 1].use_stdin {
                Handoff::Pipe
            } else {
                Handoff::File
            };
            handoffs.push(handoff);
            i += 1;
        }
        assert(handoffs@ =~= handoffs_spec(self@.formatters));
        handoffs
    }
}

} // verus!
