//! The update screen's state and how incoming status messages change it.
use vstd::prelude::*;
use crate::ansi::{strip_ansi_codes, strip_csi};
use crate::buffer::{keep_last, OutputBuffer};
use crate::messages::CommandMessage;
use crate::steps::StepTracker;

verus! {

/// The update screen: running with live steps and output, or complete with
/// the final copy of both.
#[derive(Debug)]
pub enum UpdateScreen {
    Running { steps: StepTracker, output: OutputBuffer, stashed: bool },
    Complete { success: bool, steps: StepTracker, output: OutputBuffer, stashed: bool },
}

/// An output line was appended, cleaned of escape sequences; the steps and
/// the screen's state stayed as they were.
pub open spec fn output_appended(s: UpdateScreen, t: UpdateScreen, line: Seq<char>) -> bool {
    &&& t.wf()
    &&& t.is_running() == s.is_running()
    &&& t.steps_of() == s.steps_of()
    &&& t.output_cap() == s.output_cap()
    &&& t.output_view().len() > 0
    &&& t.output_view().last()@ == strip_csi(line)
    &&& t.output_view() == keep_last(s.output_view().push(t.output_view().last()), s.output_cap())
}

/// Only the steps may have changed, and only on a running screen.
pub open spec fn steps_only(s: UpdateScreen, t: UpdateScreen) -> bool {
    &&& t.is_running() == s.is_running()
    &&& t.output_view() == s.output_view()
    &&& t.output_cap() == s.output_cap()
    &&& t.was_stashed() == s.was_stashed()
    &&& (!s.is_running() ==> t == s)
}

/// The cursor moved on by one (or stayed at the end) and the error is kept.
pub open spec fn step_advanced(a: StepTracker, b: StepTracker) -> bool {
    &&& b.cursor() == if a.cursor() < a.steps_view().len() {
        a.cursor() + 1
    } else {
        a.cursor()
    }
    &&& b.error_view() == a.error_view()
}

impl UpdateScreen {
    pub open spec fn wf(&self) -> bool {
        match self {
            UpdateScreen::Running { steps, output, .. } => steps.wf() && output.wf(),
            UpdateScreen::Complete { steps, output, .. } => steps.wf() && output.wf(),
        }
    }

    pub open spec fn is_running(&self) -> bool {
        self is Running
    }

    pub open spec fn succeeded(&self) -> bool {
        match self {
            UpdateScreen::Complete { success, .. } => *success,
            _ => false,
        }
    }

    pub open spec fn was_stashed(&self) -> bool {
        match self {
            UpdateScreen::Running { stashed, .. } => *stashed,
            UpdateScreen::Complete { stashed, .. } => *stashed,
        }
    }

    pub open spec fn steps_of(&self) -> StepTracker {
        match self {
            UpdateScreen::Running { steps, .. } => *steps,
            UpdateScreen::Complete { steps, .. } => *steps,
        }
    }

    pub open spec fn output_view(&self) -> Seq<String> {
        match self {
            UpdateScreen::Running { output, .. } => output.view(),
            UpdateScreen::Complete { output, .. } => output.view(),
        }
    }

    pub open spec fn output_cap(&self) -> nat {
        match self {
            UpdateScreen::Running { output, .. } => output.cap(),
            UpdateScreen::Complete { output, .. } => output.cap(),
        }
    }

    /// A running screen with the given steps, nothing stashed.
    pub fn start(steps: StepTracker, stashed: bool) -> (r: UpdateScreen)
        requires
            steps.wf(),
        ensures
            r.wf(),
            r.is_running(),
            r.was_stashed() == stashed,
            r.output_view().len() == 0,
    {
        UpdateScreen::Running { steps, output: OutputBuffer::new(), stashed }
    }

    /// Append one line of command output, without its escape sequences.
    pub fn append_output(&mut self, line: &str)
        requires
            old(self).wf(),
        ensures
            final(self).wf(),
            final(self).output_cap() == old(self).output_cap(),
            final(self).output_view().len() > 0,
            final(self).output_view() == keep_last(
                old(self).output_view().push(final(self).output_view().last()),
                old(self).output_cap(),
            ),
            final(self).output_view().last()@ == strip_csi(line@),
            old(self).is_running() <==> final(self).is_running(),
            final(self).steps_of() == old(self).steps_of(),
            final(self).was_stashed() == old(self).was_stashed(),
            !old(self).is_running() ==> final(self).succeeded() == old(self).succeeded(),
    {
        let clean = strip_ansi_codes(line);
        match self {
            UpdateScreen::Running { output, .. } => {
                output.push_line(clean);
            },
            UpdateScreen::Complete { output, .. } => {
                output.push_line(clean);
            },
        }
    }

    /// Apply one status message. Output lines go to the buffer; step
    /// messages update the steps while running; `Done` and `Cancelled` turn a
    /// running screen into a complete one that keeps the steps and output
    /// (with a closing line when cancelled, and `extra` appended on `Done`).
    pub fn handle_command_message(&mut self, msg: CommandMessage, extra: Vec<String>)
        requires
            old(self).wf(),
        ensures
            final(self).wf(),
            match msg {
                CommandMessage::Stdout(line) => output_appended(*old(self), *final(self), line@),
                CommandMessage::Stderr(line) => output_appended(*old(self), *final(self), line@),
                CommandMessage::StepComplete { step } => steps_only(*old(self), *final(self))
                    && (old(self).is_running() ==> step_advanced(old(self).steps_of(), final(self).steps_of())),
                CommandMessage::StepSkipped { step } => steps_only(*old(self), *final(self))
                    && (old(self).is_running() ==> step_advanced(old(self).steps_of(), final(self).steps_of())),
                CommandMessage::StepFailed { step, error } => steps_only(*old(self), *final(self))
                    && (old(self).is_running() ==> final(self).steps_of().error_view() == Some(
                    error.summary@,
                ) && final(self).steps_of().cursor() == old(self).steps_of().cursor()),
                CommandMessage::Done { success } => old(self).is_running() ==> (!final(self).is_running()
                    && final(self).succeeded() == success && final(self).steps_of() == old(
                    self,
                ).steps_of()),
                CommandMessage::Cancelled => old(self).is_running() ==> (!final(self).is_running()
                    && !final(self).succeeded() && final(self).steps_of() == old(self).steps_of()),
                _ => *final(self) == *old(self),
            },
            !old(self).is_running() ==> *final(self) == *old(self) || msg is Stdout || msg is Stderr,
    {
        match msg {
            CommandMessage::Stdout(line) => self.append_output(line.as_str()),
            CommandMessage::Stderr(line) => self.append_output(line.as_str()),
            CommandMessage::StepComplete { step } => {
                if let UpdateScreen::Running { steps, .. } = self {
                    steps.mark_step_complete(step.as_str());
                }
            },
            CommandMessage::StepFailed { step, error } => {
                if let UpdateScreen::Running { steps, .. } = self {
                    steps.mark_step_failed(step.as_str(), error);
                }
            },
            CommandMessage::StepSkipped { step } => {
                if let UpdateScreen::Running { steps, .. } = self {
                    steps.mark_step_skipped(step.as_str());
                }
            },
            CommandMessage::Done { success } => self.handle_command_done(success, extra),
            CommandMessage::Cancelled => self.handle_command_cancelled(),
            _ => {},
        }
    }

    /// The run ended: a running screen becomes complete, keeping its steps
    /// and its output followed by `extra` (the stash restore report).
    pub fn handle_command_done(&mut self, success: bool, extra: Vec<String>)
        requires
            old(self).wf(),
        ensures
            final(self).wf(),
            old(self).is_running() ==> !final(self).is_running() && final(self).succeeded()
                == success && final(self).was_stashed() == old(self).was_stashed()
                && final(self).steps_of() == old(self).steps_of() && final(self).output_cap()
                == old(self).output_cap() && (extra@.len() == 0 ==> final(self).output_view()
                == old(self).output_view()) && (final(self).output_view().len() == old(
                self,
            ).output_cap() || final(self).output_view().len() == old(self).output_view().len()
                + extra@.len()),
            !old(self).is_running() ==> *final(self) == *old(self),
    {
        let mut replaced = UpdateScreen::Running {
            steps: StepTracker::new(&Vec::new()),
            output: OutputBuffer::new(),
            stashed: false,
        };
        std::mem::swap(self, &mut replaced);
        *self = match replaced {
            UpdateScreen::Running { steps, output, stashed } => {
                let mut output = output;
                let mut i: usize = 0;
                let ghost start = output;
                while i < extra.len()
                    invariant
                        output.wf(),
                        i <= extra@.len(),
                        output.cap() == start.cap(),
                        i == 0 ==> output.view() == start.view(),
                        output.view().len() == output.cap() || output.view().len()
                            == start.view().len() + i,
                    decreases extra@.len() - i,
                {
                    output.push_line(extra[i].clone());
                    i = i + 1;
                }
                UpdateScreen::Complete { success, steps, output, stashed }
            },
            done => done,
        };
    }

    /// The run was cancelled: a running screen notes it and becomes complete
    /// and unsuccessful, keeping its steps and output.
    pub fn handle_command_cancelled(&mut self)
        requires
            old(self).wf(),
        ensures
            final(self).wf(),
            old(self).is_running() ==> !final(self).is_running() && !final(self).succeeded()
                && final(self).was_stashed() == old(self).was_stashed()
                && final(self).steps_of() == old(self).steps_of()
                && final(self).output_view() == keep_last(
                old(self).output_view().push(final(self).output_view().last()),
                old(self).output_cap(),
            ) && final(self).output_view().last()@ == "Operation cancelled by user."@,
            !old(self).is_running() ==> *final(self) == *old(self),
    {
        let mut replaced = UpdateScreen::Running {
            steps: StepTracker::new(&Vec::new()),
            output: OutputBuffer::new(),
            stashed: false,
        };
        std::mem::swap(self, &mut replaced);
        *self = match replaced {
            UpdateScreen::Running { steps, output, stashed } => {
                let mut output = output;
                output.push_line(String::from_str("Operation cancelled by user."));
                UpdateScreen::Complete { success: false, steps, output, stashed }
            },
            done => done,
        };
    }
}

} // verus!
