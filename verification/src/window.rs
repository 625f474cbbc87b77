//! The command log and the window state around it: an append-only sequence of
//! command/result lines, each optionally still awaiting its task's result over
//! a one-shot channel. `submit` appends a pending line and hands the caller
//! the task to run off the rendering thread; `poll_open_requests`, called once
//! per redraw, promotes every completed task's result into its line without
//! blocking.

use vstd::prelude::*;
use vstd::string::*;
use crate::command::is_blank;
use crate::command::blank;
use crate::task::Task;
use crate::task::make_channel;
use crate::task::try_recv_message;

verus! {

/// The persisted view preference: render with a light theme instead of the
/// dark one.
#[derive(Clone, Copy, Debug, PartialEq, Eq, Structural)]
pub struct TextCommandWindowConfig {
    pub light_mode: bool,
}

impl Default for TextCommandWindowConfig {
    /// The dark theme is the starting point.
    fn default() -> (r: Self)
        ensures
            !r.light_mode,
    {
        TextCommandWindowConfig { light_mode: false }
    }
}

/// One line of the console log: the command as typed, the text shown as its
/// result, and, while the result is still being computed, the receiving end
/// of the task's one-shot channel.
pub struct TextLineData {
    pub command: String,
    pub result: String,
    pub rx_channel: Option<std::sync::mpsc::Receiver<String>>,
}

/// The mathematical content of one log line: its texts and whether a task is
/// still pending for it.
pub struct LogLine {
    pub command: Seq<char>,
    pub result: Seq<char>,
    pub pending: bool,
}

impl View for TextLineData {
    type V = LogLine;

    open spec fn view(&self) -> LogLine {
        LogLine {
            command: self.command@,
            result: self.result@,
            pending: self.rx_channel is Some,
        }
    }
}

/// The placeholder a line shows from submission until its task's result
/// arrives.
pub open spec fn processing_text() -> Seq<char> {
    "processing..."@
}

/// What one call of `poll_open_requests` may do to one line: leave it exactly
/// as it was, or — only for a line whose task was still pending — store the
/// delivered result and clear the pending state for good. The command text
/// never changes, and a line still pending afterwards is untouched.
pub open spec fn poll_step(before: LogLine, after: LogLine) -> bool {
    &&& after.command == before.command
    &&& (after == before || (before.pending && !after.pending))
}

/// The window state the view layer owns: the theme preference, the text of
/// the input box, and the log itself.
pub struct TextCommandWindow {
    pub config: TextCommandWindowConfig,
    pub main_entry_box: String,
    pub text_lines: Vec<TextLineData>,
}

impl TextCommandWindow {
    /// The log as a sequence of line snapshots, oldest first.
    pub open spec fn log_view(&self) -> Seq<LogLine> {
        self.text_lines@.map_values(|e: TextLineData| e@)
    }

    /// Every line whose task is still pending shows the placeholder text.
    /// Together with `poll_step`, which freezes a line once its pending state
    /// clears, this is what makes a result text written at most once.
    pub open spec fn wf(&self) -> bool {
        forall|i: int|
            0 <= i < self.log_view().len() ==> (#[trigger] self.log_view()[i].pending
                ==> self.log_view()[i].result == processing_text())
    }

    /// Appends a pending line for `command` and returns the task that will
    /// resolve it; the caller runs the task on a thread of its choosing. A
    /// blank command changes nothing and yields no task.
    pub fn submit(&mut self, command: String) -> (t: Option<Task>)
        ensures
            final(self).config == old(self).config,
            final(self).main_entry_box == old(self).main_entry_box,
            is_blank(command@) ==> t is None && final(self).log_view() == old(self).log_view(),
            !is_blank(command@) ==> {
                &&& t matches Some(task) && task@ == command@
                &&& final(self).log_view() == old(self).log_view().push(
                    LogLine { command: command@, result: processing_text(), pending: true },
                )
            },
            old(self).wf() ==> final(self).wf(),
    {
        if blank(command.as_str()) {
            return None;
        }
        let (result_tx, result_rx) = make_channel();
        let task_command = command.clone();
        self.text_lines.push(
            TextLineData {
                command,
                result: String::from_str("processing..."),
                rx_channel: Some(result_rx),
            },
        );
        proof {
            assert(self.log_view() =~= old(self).log_view().push(
                LogLine { command: task_command@, result: processing_text(), pending: true },
            ));
        }
        Some(Task::new(result_tx, task_command))
    }

    /// Appends a line that is already resolved and never had a task.
    pub fn push_resolved(&mut self, command: String, result: String)
        ensures
            final(self).config == old(self).config,
            final(self).main_entry_box == old(self).main_entry_box,
            final(self).log_view() == old(self).log_view().push(
                LogLine { command: command@, result: result@, pending: false },
            ),
            old(self).wf() ==> final(self).wf(),
    {
        let ghost line = LogLine { command: command@, result: result@, pending: false };
        self.text_lines.push(TextLineData { command, result, rx_channel: None });
        proof {
            assert(self.log_view() =~= old(self).log_view().push(line));
        }
    }

    /// Stores a delivered result in line `i`: the promotion step that
    /// `poll_open_requests` performs for each line whose task has completed.
    /// The line keeps its command, shows exactly the delivered text, and
    /// stops being pending for good; no other line, and no other part of the
    /// window, changes.
    pub fn resolve_line(&mut self, i: usize, text: String)
        requires
            i < old(self).text_lines@.len(),
        ensures
            final(self).config == old(self).config,
            final(self).main_entry_box == old(self).main_entry_box,
            final(self).text_lines@.len() == old(self).text_lines@.len(),
            forall|j: int|
                0 <= j < old(self).text_lines@.len() && j != i
                    ==> final(self).text_lines@[j] == old(self).text_lines@[j],
            final(self).log_view() == old(self).log_view().update(
                i as int,
                LogLine {
                    command: old(self).log_view()[i as int].command,
                    result: text@,
                    pending: false,
                },
            ),
            old(self).wf() ==> final(self).wf(),
    {
        let ghost line = LogLine {
            command: old(self).log_view()[i as int].command,
            result: text@,
            pending: false,
        };
        let kept_command = self.text_lines[i].command.clone();
        self.text_lines[i] = TextLineData {
            command: kept_command,
            result: text,
            rx_channel: None,
        };
        proof {
            assert(self.log_view() =~= old(self).log_view().update(i as int, line));
            if old(self).wf() {
                assert forall|k: int|
                    0 <= k < self.log_view().len() && #[trigger] self.log_view()[k].pending
                implies self.log_view()[k].result == processing_text() by {
                    assert(self.log_view()[k] == old(self).log_view()[k]);
                }
                assert(self.wf());
            }
        }
    }

    /// The non-blocking promotion step, safe at any frequency: checks every
    /// line still awaiting a task once, hands each result that has arrived to
    /// `resolve_line`, which stores it and clears that line's pending state;
    /// lines whose result has not arrived, and lines long resolved, stay
    /// exactly as they are.
    pub fn poll_open_requests(&mut self)
        ensures
            final(self).config == old(self).config,
            final(self).main_entry_box == old(self).main_entry_box,
            final(self).log_view().len() == old(self).log_view().len(),
            forall|i: int|
                0 <= i < old(self).log_view().len() ==> poll_step(
                    old(self).log_view()[i],
                    #[trigger] final(self).log_view()[i],
                ),
            old(self).wf() ==> final(self).wf(),
    {
        let n = self.text_lines.len();
        let mut i: usize = 0;
        while i < n
            invariant
                i <= n,
                n == self.text_lines@.len(),
                self.text_lines@.len() == old(self).text_lines@.len(),
                self.config == old(self).config,
                self.main_entry_box == old(self).main_entry_box,
                forall|j: int| i <= j < n ==> self.text_lines@[j] == old(self).text_lines@[j],
                forall|j: int|
                    0 <= j < i ==> poll_step(
                        old(self).text_lines@[j]@,
                        #[trigger] self.text_lines@[j]@,
                    ),
            decreases n - i,
        {
            let received: Option<String> = match &self.text_lines[i].rx_channel {
                Some(rx) => try_recv_message(rx),
                None => None,
            };
            if let Some(text) = received {
                proof {
                    assert(self.text_lines@[i as int]@.pending);
                }
                self.resolve_line(i, text);
                proof {
                    assert(self.text_lines@[i as int]@ == self.log_view()[i as int]);
                    assert(poll_step(
                        old(self).text_lines@[i as int]@,
                        self.text_lines@[i as int]@,
                    ));
                }
            }
            i += 1;
        }
        proof {
            if old(self).wf() {
                assert forall|k: int|
                    0 <= k < self.log_view().len() && #[trigger] self.log_view()[k].pending
                implies self.log_view()[k].result == processing_text() by {
                    assert(poll_step(old(self).text_lines@[k]@, self.text_lines@[k]@));
                    assert(old(self).log_view()[k].pending);
                }
                assert(self.wf());
            }
        }
    }

    /// Read-only access to the log for rendering, oldest line first.
    pub fn entries(&self) -> (r: &Vec<TextLineData>)
        ensures
            r@ == self.text_lines@,
    {
        &self.text_lines
    }
}

impl Default for TextCommandWindow {
    /// A fresh window: dark theme, empty input box, empty log.
    fn default() -> (r: Self)
        ensures
            r.log_view() == Seq::<LogLine>::empty(),
            r.main_entry_box@ == Seq::<char>::empty(),
            !r.config.light_mode,
            r.wf(),
    {
        let w = TextCommandWindow {
            config: TextCommandWindowConfig::default(),
            main_entry_box: String::new(),
            text_lines: Vec::new(),
        };
        proof {
            assert(w.log_view() =~= Seq::<LogLine>::empty());
        }
        w
    }
}

/// Polling never reorders, drops, or rewords commands: across any single
/// poll, the sequence of command texts in the log is unchanged, so the log
/// stays in submission order whatever order results arrive in.
pub proof fn lemma_poll_preserves_commands(before: Seq<LogLine>, after: Seq<LogLine>)
    requires
        before.len() == after.len(),
        forall|i: int| 0 <= i < before.len() ==> poll_step(before[i], #[trigger] after[i]),
    ensures
        after.map_values(|e: LogLine| e.command) == before.map_values(|e: LogLine| e.command),
{
    assert(after.map_values(|e: LogLine| e.command) =~= before.map_values(
        |e: LogLine| e.command,
    ));
}

/// A poll that finds nothing pending is a no-op: every line is left exactly
/// as it was.
pub proof fn lemma_poll_without_pending_is_noop(before: Seq<LogLine>, after: Seq<LogLine>)
    requires
        before.len() == after.len(),
        forall|i: int| 0 <= i < before.len() ==> poll_step(before[i], #[trigger] after[i]),
        forall|i: int| 0 <= i < before.len() ==> !(#[trigger] before[i]).pending,
    ensures
        after == before,
{
    assert(after =~= before);
}

/// A resolved line is frozen: once its pending state has cleared it never
/// comes back, and no later poll touches the line again — its result text is
/// written at most once, in the step that resolved it.
pub proof fn lemma_resolved_line_is_frozen(before: LogLine, after: LogLine)
    requires
        poll_step(before, after),
        !before.pending,
    ensures
        after == before,
        !after.pending,
{
}

} // verus!
