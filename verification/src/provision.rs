//! Where the tool keeps its files, and the steps that put the password helper
//! in place before anything else is done.

use crate::text::{contains_text, has_infix};
use vstd::prelude::*;
use vstd::string::StringExecFns;

verus! {

/// The directory in which the tool keeps its files: the directory of the
/// running program, or `fallback` where that directory lies in a debug build
/// tree.
pub open spec fn install_dir_of(exe_dir: Seq<char>, fallback: Seq<char>) -> Seq<char> {
    if has_infix(exe_dir, "/target/debug"@) {
        fallback
    } else {
        exe_dir
    }
}

/// The path of the password helper in an install directory.
pub open spec fn helper_place(install_dir: Seq<char>) -> Seq<char> {
    install_dir + "/sshpass"@
}

/// The path of the profile file in an install directory.
pub open spec fn config_place(install_dir: Seq<char>) -> Seq<char> {
    install_dir + "/sshConfig.toml"@
}

/// Picks the directory in which the tool keeps its files.
pub fn resolve_install_dir(exe_dir: String, fallback: String) -> (r: String)
    ensures
        r@ == install_dir_of(exe_dir@, fallback@),
{
    if contains_text(exe_dir.as_str(), "/target/debug") {
        fallback
    } else {
        exe_dir
    }
}

/// The path of the password helper in an install directory.
pub fn helper_path(install_dir: &str) -> (r: String)
    ensures
        r@ == helper_place(install_dir@),
{
    let mut path = String::from_str(install_dir);
    path.append("/sshpass");
    path
}

/// The path of the profile file in an install directory.
pub fn config_path(install_dir: &str) -> (r: String)
    ensures
        r@ == config_place(install_dir@),
{
    let mut path = String::from_str(install_dir);
    path.append("/sshConfig.toml");
    path
}

/// How far the installation of the helper has come.
#[derive(Debug, Clone, Copy, PartialEq, Eq, Structural)]
pub enum ProvisionState {
    /// Nothing is known yet: the helper's path is being looked at.
    Checking,
    /// The helper was absent and is being written.
    Writing,
    /// The helper was written and is being made executable.
    Marking,
    /// The helper is in place.
    Ready,
    /// The helper could not be put in place.
    Failed,
}

/// What happened to the step that was last asked for.
#[derive(Debug, Clone, Copy, PartialEq, Eq, Structural)]
pub enum ProvisionEvent {
    /// A file stands at the helper's path.
    Present,
    /// No file stands at the helper's path.
    Absent,
    /// The helper's bytes were written.
    Written,
    /// The helper's bytes could not be written.
    WriteFailed,
    /// The helper was made executable.
    Marked,
    /// The helper could not be made executable.
    MarkFailed,
}

/// What is to be done next.
#[derive(Debug, Clone, Copy, PartialEq, Eq, Structural)]
pub enum ProvisionAction {
    /// Write the helper's bytes to its path.
    WriteHelper,
    /// Make the helper executable.
    MarkExecutable,
    /// Go on with the request.
    Proceed,
    /// Report that the helper cannot be installed, and stop.
    Abort,
}

/// The state after an event. A helper that is present is left alone; one that
/// is absent is written, then made executable; a failure of either step, or
/// an event that answers no step asked for, ends in failure. The two final
/// states are left by no event.
pub open spec fn provision_next(state: ProvisionState, event: ProvisionEvent) -> ProvisionState {
    match (state, event) {
        (ProvisionState::Ready, _) => ProvisionState::Ready,
        (ProvisionState::Checking, ProvisionEvent::Present) => ProvisionState::Ready,
        (ProvisionState::Checking, ProvisionEvent::Absent) => ProvisionState::Writing,
        (ProvisionState::Writing, ProvisionEvent::Written) => ProvisionState::Marking,
        (ProvisionState::Marking, ProvisionEvent::Marked) => ProvisionState::Ready,
        _ => ProvisionState::Failed,
    }
}

/// What a state asks for. The first state asks for nothing but the look at
/// the helper's path, which is what starts the machine.
pub open spec fn provision_action(state: ProvisionState) -> ProvisionAction {
    match state {
        ProvisionState::Checking => ProvisionAction::Proceed,
        ProvisionState::Writing => ProvisionAction::WriteHelper,
        ProvisionState::Marking => ProvisionAction::MarkExecutable,
        ProvisionState::Ready => ProvisionAction::Proceed,
        ProvisionState::Failed => ProvisionAction::Abort,
    }
}

/// The state after a run of events.
pub open spec fn provision_run(state: ProvisionState, events: Seq<ProvisionEvent>) -> ProvisionState
    decreases events.len(),
{
    if events.len() == 0 {
        state
    } else {
        provision_next(provision_run(state, events.drop_last()), events.last())
    }
}

/// Takes one event: gives the next state and what to do in it.
pub fn provision_step(state: ProvisionState, event: ProvisionEvent) -> (r: (
    ProvisionState,
    ProvisionAction,
))
    ensures
        r.0 == provision_next(state, event),
        r.1 == provision_action(r.0),
{
    match (state, event) {
        (ProvisionState::Ready, _) => (ProvisionState::Ready, ProvisionAction::Proceed),
        (ProvisionState::Checking, ProvisionEvent::Present) => (
            ProvisionState::Ready,
            ProvisionAction::Proceed,
        ),
        (ProvisionState::Checking, ProvisionEvent::Absent) => (
            ProvisionState::Writing,
            ProvisionAction::WriteHelper,
        ),
        (ProvisionState::Writing, ProvisionEvent::Written) => (
            ProvisionState::Marking,
            ProvisionAction::MarkExecutable,
        ),
        (ProvisionState::Marking, ProvisionEvent::Marked) => (
            ProvisionState::Ready,
            ProvisionAction::Proceed,
        ),
        _ => (ProvisionState::Failed, ProvisionAction::Abort),
    }
}

/// A final state stays what it is, whatever follows.
pub proof fn lemma_provision_final(state: ProvisionState, events: Seq<ProvisionEvent>)
    requires
        state == ProvisionState::Ready || state == ProvisionState::Failed,
    ensures
        provision_run(state, events) == state,
    decreases events.len(),
{
    if events.len() > 0 {
        lemma_provision_final(state, events.drop_last());
    }
}

/// The state after the first event of a run, then the rest of it, is the
/// state after the whole run.
pub proof fn lemma_provision_run_first(state: ProvisionState, events: Seq<ProvisionEvent>)
    requires
        events.len() > 0,
    ensures
        provision_run(state, events) == provision_run(
            provision_next(state, events[0]),
            events.drop_first(),
        ),
    decreases events.len(),
{
    if events.len() == 1 {
        assert(events.drop_last() =~= Seq::<ProvisionEvent>::empty());
        assert(events.drop_first() =~= Seq::<ProvisionEvent>::empty());
    } else {
        lemma_provision_run_first(state, events.drop_last());
        assert(events.drop_last().drop_first() =~= events.drop_first().drop_last());
        assert(events.drop_last()[0] == events[0]);
    }
}

/// The helper is in place after a run of events exactly when the run opens
/// with the helper found present, or with it found absent, then written, then
/// made executable. So a helper that is present is never written again, and
/// no failure is passed over.
pub proof fn lemma_provision_outcome(events: Seq<ProvisionEvent>)
    ensures
        provision_run(ProvisionState::Checking, events) == ProvisionState::Ready <==> (events.len()
            >= 1 && events[0] == ProvisionEvent::Present) || (events.len() >= 3 && events[0]
            == ProvisionEvent::Absent && events[1] == ProvisionEvent::Written && events[2]
            == ProvisionEvent::Marked),
{
    if events.len() >= 1 {
        lemma_provision_run_first(ProvisionState::Checking, events);
        let rest1 = events.drop_first();
        let s1 = provision_next(ProvisionState::Checking, events[0]);
        if s1 == ProvisionState::Ready || s1 == ProvisionState::Failed {
            lemma_provision_final(s1, rest1);
        } else if rest1.len() >= 1 {
            lemma_provision_run_first(s1, rest1);
            let rest2 = rest1.drop_first();
            let s2 = provision_next(s1, rest1[0]);
            assert(rest1[0] == events[1]);
            if s2 == ProvisionState::Ready || s2 == ProvisionState::Failed {
                lemma_provision_final(s2, rest2);
            } else if rest2.len() >= 1 {
                lemma_provision_run_first(s2, rest2);
                let rest3 = rest2.drop_first();
                let s3 = provision_next(s2, rest2[0]);
                assert(rest2[0] == events[2]);
                assert(s3 == ProvisionState::Ready || s3 == ProvisionState::Failed);
                lemma_provision_final(s3, rest3);
            } else {
                assert(rest2 =~= Seq::<ProvisionEvent>::empty());
            }
        } else {
            assert(rest1 =~= Seq::<ProvisionEvent>::empty());
        }
    }
}

} // verus!
