//! The file-open command as a step function over states and events.
//!
//! One invocation is a single linear pass: present the dialog, resolve the
//! selection to a path, read the file, report the result. The shell that
//! hosts the command performs the action requested by [`next_action`] and
//! reports what happened as an [`Event`]; [`step`] then decides the next
//! state. The pass has three failure exits and one success exit, and a
//! completed command never changes again.

use vstd::prelude::*;

use crate::error::FileOpenError;
use crate::filter::{restricts_to_txt, text_file_filter, DialogFilter};

verus! {

/// What the shell observed after performing the requested action.
pub enum Event {
    /// The dialog was dismissed without a selection.
    DialogCancelled,
    /// The dialog closed with a file chosen; the shell holds the handle.
    FileChosen,
    /// The chosen handle resolved to this filesystem path.
    PathResolved(String),
    /// The chosen handle could not be converted into a usable path.
    PathUnresolvable,
    /// Reading the file as text produced this content.
    ReadSucceeded(String),
    /// Reading the file failed; the payload describes the I/O error.
    ReadFailed(String),
}

/// What the command asks the shell to do next.
pub enum Action {
    /// Present the modal file dialog, scoped to this filter, and report
    /// whether a file was chosen.
    PresentDialog(DialogFilter),
    /// Resolve the held selection handle to a path and report the outcome.
    ResolveSelection,
    /// Read the file at this path as text and report the outcome.
    ReadFile(String),
    /// The command is finished; its state carries the result.
    Finish,
}

/// The command's position in its single linear pass.
pub enum State {
    /// Waiting for the dialog's outcome.
    AwaitingSelection,
    /// A file was chosen; waiting for its path.
    AwaitingResolution,
    /// Waiting for the read of the file at this path.
    AwaitingRead(String),
    /// The pass is over, with the content read or a terminal failure.
    Completed(Result<String, FileOpenError>),
}

/// The state in which every invocation begins.
pub open spec fn initial_spec() -> State {
    State::AwaitingSelection
}

/// The state that follows `s` once the shell reports `e`.
///
/// An event that its state does not expect changes nothing; in particular a
/// completed command absorbs every further event.
pub open spec fn next_spec(s: State, e: Event) -> State {
    match (s, e) {
        (State::AwaitingSelection, Event::DialogCancelled) => State::Completed(
            Err(FileOpenError::NoSelection),
        ),
        (State::AwaitingSelection, Event::FileChosen) => State::AwaitingResolution,
        (State::AwaitingResolution, Event::PathResolved(path)) => State::AwaitingRead(path),
        (State::AwaitingResolution, Event::PathUnresolvable) => State::Completed(
            Err(FileOpenError::PathResolutionFailure),
        ),
        (State::AwaitingRead(_), Event::ReadSucceeded(content)) => State::Completed(Ok(content)),
        (State::AwaitingRead(_), Event::ReadFailed(description)) => State::Completed(
            Err(FileOpenError::ReadFailure(description)),
        ),
        (unexpected, _) => unexpected,
    }
}

/// The state reached from `s` after the shell reports `events`, oldest first.
pub open spec fn run_spec(s: State, events: Seq<Event>) -> State
    decreases events.len(),
{
    if events.len() == 0 {
        s
    } else {
        run_spec(next_spec(s, events[0]), events.skip(1))
    }
}

/// The state a fresh invocation of the command starts in.
pub fn initial() -> (s: State)
    ensures
        s == initial_spec(),
{
    State::AwaitingSelection
}

/// Advance the command by one observed event.
pub fn step(s: State, e: Event) -> (r: State)
    ensures
        r == next_spec(s, e),
{
    match (s, e) {
        (State::AwaitingSelection, Event::DialogCancelled) => State::Completed(
            Err(FileOpenError::NoSelection),
        ),
        (State::AwaitingSelection, Event::FileChosen) => State::AwaitingResolution,
        (State::AwaitingResolution, Event::PathResolved(path)) => State::AwaitingRead(path),
        (State::AwaitingResolution, Event::PathUnresolvable) => State::Completed(
            Err(FileOpenError::PathResolutionFailure),
        ),
        (State::AwaitingRead(_), Event::ReadSucceeded(content)) => State::Completed(Ok(content)),
        (State::AwaitingRead(_), Event::ReadFailed(description)) => State::Completed(
            Err(FileOpenError::ReadFailure(description)),
        ),
        (unexpected, _) => unexpected,
    }
}

/// The outside action the command requests in state `s`.
///
/// Only a reading state requests a read, and the dialog is only ever
/// requested with the fixed `txt` filter.
pub fn next_action(s: &State) -> (a: Action)
    ensures
        s is AwaitingSelection ==> (a matches Action::PresentDialog(f) && restricts_to_txt(f)),
        s is AwaitingResolution ==> a is ResolveSelection,
        s matches State::AwaitingRead(path) ==> a == Action::ReadFile(*path),
        s is Completed <==> a is Finish,
{
    match s {
        State::AwaitingSelection => Action::PresentDialog(text_file_filter()),
        State::AwaitingResolution => Action::ResolveSelection,
        State::AwaitingRead(path) => Action::ReadFile(path.clone()),
        State::Completed(_) => Action::Finish,
    }
}

/// A completed command is inert: no later event changes its result.
pub proof fn lemma_completed_inert(r: Result<String, FileOpenError>, events: Seq<Event>)
    ensures
        run_spec(State::Completed(r), events) == State::Completed(r),
    decreases events.len(),
{
    if events.len() > 0 {
        lemma_completed_inert(r, events.skip(1));
    }
}

/// Dismissing the dialog settles the command at once: after a cancellation
/// event, whatever the shell reports later, the command stands completed
/// with `NoSelection` — in particular it is never in a reading state, so it
/// never requests a read.
pub proof fn lemma_cancelled_run_never_reads(events: Seq<Event>)
    ensures
        run_spec(next_spec(initial_spec(), Event::DialogCancelled), events) == State::Completed(
            Err(FileOpenError::NoSelection),
        ),
        !(run_spec(next_spec(initial_spec(), Event::DialogCancelled), events) is AwaitingRead),
{
    lemma_completed_inert(Err(FileOpenError::NoSelection), events);
}

/// One successful pass returns exactly what was read: choosing a file,
/// resolving it to any path `path`, and reading content `content` completes
/// the command with `Ok(content)`.
pub proof fn lemma_successful_run_returns_content(path: String, content: String)
    ensures
        run_spec(
            initial_spec(),
            seq![Event::FileChosen, Event::PathResolved(path), Event::ReadSucceeded(content)],
        ) == State::Completed(Ok(content)),
{
    let events = seq![
        Event::FileChosen,
        Event::PathResolved(path),
        Event::ReadSucceeded(content),
    ];
    let after_choice = seq![Event::PathResolved(path), Event::ReadSucceeded(content)];
    let after_path = seq![Event::ReadSucceeded(content)];
    assert(events.skip(1) =~= after_choice);
    assert(after_choice.skip(1) =~= after_path);
    assert(after_path.skip(1) =~= Seq::<Event>::empty());
    assert(run_spec(State::Completed(Ok(content)), Seq::<Event>::empty()) == State::Completed(
        Ok(content),
    ));
    assert(run_spec(State::AwaitingRead(path), after_path) == State::Completed(Ok(content)));
    assert(run_spec(State::AwaitingResolution, after_choice) == State::Completed(Ok(content)));
}

/// Repeated successful calls against the same unchanged file return
/// identical content: two complete passes whose reads yield the same
/// content complete with identical results, whatever paths were resolved.
pub proof fn lemma_repeated_success_identical(path1: String, path2: String, content: String)
    ensures
        run_spec(
            initial_spec(),
            seq![Event::FileChosen, Event::PathResolved(path1), Event::ReadSucceeded(content)],
        ) == run_spec(
            initial_spec(),
            seq![Event::FileChosen, Event::PathResolved(path2), Event::ReadSucceeded(content)],
        ),
{
    lemma_successful_run_returns_content(path1, content);
    lemma_successful_run_returns_content(path2, content);
}

/// A failed read is reported verbatim: a pass whose read fails with
/// description `description` completes with a `ReadFailure` carrying
/// exactly that description.
pub proof fn lemma_failed_read_reports_description(path: String, description: String)
    ensures
        run_spec(
            initial_spec(),
            seq![Event::FileChosen, Event::PathResolved(path), Event::ReadFailed(description)],
        ) == State::Completed(Err(FileOpenError::ReadFailure(description))),
{
    let events = seq![
        Event::FileChosen,
        Event::PathResolved(path),
        Event::ReadFailed(description),
    ];
    let failure = State::Completed(Err(FileOpenError::ReadFailure(description)));
    let after_choice = seq![Event::PathResolved(path), Event::ReadFailed(description)];
    let after_path = seq![Event::ReadFailed(description)];
    assert(events.skip(1) =~= after_choice);
    assert(after_choice.skip(1) =~= after_path);
    assert(after_path.skip(1) =~= Seq::<Event>::empty());
    assert(run_spec(failure, Seq::<Event>::empty()) == failure);
    assert(run_spec(State::AwaitingRead(path), after_path) == failure);
    assert(run_spec(State::AwaitingResolution, after_choice) == failure);
}

/// A selection that resolves to no usable path fails the pass with
/// `PathResolutionFailure`.
pub proof fn lemma_unresolvable_selection_fails(events: Seq<Event>)
    ensures
        run_spec(
            run_spec(initial_spec(), seq![Event::FileChosen, Event::PathUnresolvable]),
            events,
        ) == State::Completed(Err(FileOpenError::PathResolutionFailure)),
{
    let prefix = seq![Event::FileChosen, Event::PathUnresolvable];
    let failure = State::Completed(Err(FileOpenError::PathResolutionFailure));
    let rest = seq![Event::PathUnresolvable];
    assert(prefix.skip(1) =~= rest);
    assert(rest.skip(1) =~= Seq::<Event>::empty());
    assert(run_spec(failure, Seq::<Event>::empty()) == failure);
    assert(run_spec(State::AwaitingResolution, rest) == failure);
    assert(run_spec(initial_spec(), prefix) == failure);
    lemma_completed_inert(Err(FileOpenError::PathResolutionFailure), events);
}

} // verus!
