//! The task runner's verified half: a task owns the command text and the
//! sending end of a one-shot channel, computes the result, and attempts the
//! one-time delivery. The caller decides on which thread `run` executes; the
//! channel ends come from `std::sync::mpsc`, which Verus does not read, so the
//! calls into it stand behind trusted declarations here.

use vstd::prelude::*;
use crate::command::process_command;
use crate::command::processed_of;

verus! {

#[verifier::external_type_specification]
#[verifier::external_body]
#[verifier::reject_recursive_types(T)]
pub struct ExSender<T>(std::sync::mpsc::Sender<T>);

#[verifier::external_type_specification]
#[verifier::external_body]
#[verifier::reject_recursive_types(T)]
pub struct ExReceiver<T>(std::sync::mpsc::Receiver<T>);

/// Relies on std::sync::mpsc::channel: returns the sending and receiving end
/// of a fresh asynchronous channel; the receiver yields exactly the messages
/// the sender sends, oldest first.
#[verifier::external_body]
pub(crate) fn make_channel() -> (std::sync::mpsc::Sender<String>, std::sync::mpsc::Receiver<String>) {
    std::sync::mpsc::channel()
}

/// Relies on std::sync::mpsc::Sender::send: delivers the message unless the
/// receiving end has been dropped; that failure comes back as a value, never
/// as a panic, and `false` here means the message was not delivered.
#[verifier::external_body]
fn send_message(tx: &std::sync::mpsc::Sender<String>, message: String) -> (delivered: bool) {
    tx.send(message).is_ok()
}

/// Relies on std::sync::mpsc::Receiver::try_recv: never blocks or panics;
/// `Some` carries the oldest message that was sent and not yet received,
/// `None` means no message is waiting right now.
#[verifier::external_body]
pub(crate) fn try_recv_message(rx: &std::sync::mpsc::Receiver<String>) -> (r: Option<String>) {
    rx.try_recv().ok()
}

/// One background unit of work: computes the result for `command` and makes
/// the one-time delivery over `result_tx`. Its view is the command text.
pub struct Task {
    result_tx: std::sync::mpsc::Sender<String>,
    command: String,
}

impl View for Task {
    type V = Seq<char>;

    closed spec fn view(&self) -> Seq<char> {
        self.command@
    }
}

impl Task {
    /// Pairs a command with the channel end its result is owed on.
    pub(crate) fn new(result_tx: std::sync::mpsc::Sender<String>, command: String) -> (t: Task)
        ensures
            t@ == command@,
    {
        Task { result_tx, command }
    }

    /// Runs the task to completion on the calling thread: computes
    /// `processed_of` the command and attempts the one-time delivery. A
    /// failed delivery — the receiving end was dropped, its entry discarded —
    /// comes back as `false`; it never panics, so a worker thread running a
    /// task cannot crash on an abandoned handle.
    pub fn run(self) -> bool {
        let result = process_command(self.command);
        send_message(&self.result_tx, result)
    }
}

} // verus!
