//! The answers that the host gives when the guest polls a pending system call.
//!
//! A host future is polled on the guest's behalf; what the poll gave is handed
//! here as a [`HostPoll`] (the shape of `std::task::Poll`), with an error
//! already rendered as its message, and the answer is the guest's poll type.

use vstd::prelude::*;

verus! {

/// What polling a host future gave: still running, or done with a value.
#[derive(Debug, PartialEq, Eq)]
pub enum HostPoll<T> {
    Pending,
    Ready(T),
}

/// The guest's view of a pending load of its state.
#[derive(Debug, PartialEq, Eq)]
pub enum PollLoad {
    Pending,
    Ready(Result<Vec<u8>, String>),
}

/// The guest's view of a pending call to another application or session;
/// `R` is the guest's form of the call's result.
#[derive(Debug, PartialEq, Eq)]
pub enum PollCallResult<R> {
    Pending,
    Ready(Result<R, String>),
}

/// The answer to a poll of a state load, for what the host future gave.
pub open spec fn spec_poll_load(poll: HostPoll<Result<Vec<u8>, String>>) -> PollLoad {
    match poll {
        HostPoll::Pending => PollLoad::Pending,
        HostPoll::Ready(outcome) => PollLoad::Ready(outcome),
    }
}

/// The answer to a poll of a call, for what the host future gave.
pub open spec fn spec_poll_call<R>(poll: HostPoll<Result<R, String>>) -> PollCallResult<R> {
    match poll {
        HostPoll::Pending => PollCallResult::Pending,
        HostPoll::Ready(outcome) => PollCallResult::Ready(outcome),
    }
}

/// A load is answered as pending exactly while its host future is running.
pub proof fn law_load_pending_only_while_running(poll: HostPoll<Result<Vec<u8>, String>>)
    ensures
        (spec_poll_load(poll) is Pending) <==> (poll is Pending),
{
}

/// A finished load is answered with its outcome unchanged: the same bytes
/// where it read the state, the same message where it failed.
pub proof fn law_finished_load_keeps_its_outcome(outcome: Result<Vec<u8>, String>)
    ensures
        spec_poll_load(HostPoll::Ready(outcome)) == PollLoad::Ready(outcome),
        forall|bytes: Vec<u8>| outcome == Ok::<Vec<u8>, String>(bytes)
            ==> spec_poll_load(HostPoll::Ready(outcome)) == PollLoad::Ready(Ok(bytes)),
        forall|message: String| outcome == Err::<Vec<u8>, String>(message)
            ==> spec_poll_load(HostPoll::Ready(outcome)) == PollLoad::Ready(Err(message)),
{
}

/// A call is answered as pending exactly while its host future is running.
pub proof fn law_call_pending_only_while_running<R>(poll: HostPoll<Result<R, String>>)
    ensures
        (spec_poll_call(poll) is Pending) <==> (poll is Pending),
{
}

/// A finished call is answered with its outcome unchanged: the same result
/// where it succeeded, the same message where it failed.
pub proof fn law_finished_call_keeps_its_outcome<R>(outcome: Result<R, String>)
    ensures
        spec_poll_call(HostPoll::Ready(outcome)) == PollCallResult::Ready(outcome),
        forall|result: R| outcome == Ok::<R, String>(result)
            ==> spec_poll_call(HostPoll::Ready(outcome)) == PollCallResult::Ready(Ok(result)),
        forall|message: String| outcome == Err::<R, String>(message)
            ==> spec_poll_call(HostPoll::Ready(outcome)) == PollCallResult::<R>::Ready(Err(message)),
{
}

/// Answers a poll of a state load: pending while the host future runs, then
/// the loaded bytes or the error's message.
pub fn load_poll(poll: HostPoll<Result<Vec<u8>, String>>) -> (r: PollLoad)
    ensures
        r == spec_poll_load(poll),
        (r is Pending) <==> (poll is Pending),
        forall|outcome: Result<Vec<u8>, String>|
            poll == HostPoll::Ready(outcome) ==> r == PollLoad::Ready(outcome),
{
    match poll {
        HostPoll::Pending => PollLoad::Pending,
        HostPoll::Ready(Ok(bytes)) => PollLoad::Ready(Ok(bytes)),
        HostPoll::Ready(Err(message)) => PollLoad::Ready(Err(message)),
    }
}

/// Answers a poll of a load that also locks the state; it answers as
/// [`load_poll`] does.
pub fn load_and_lock_poll(poll: HostPoll<Result<Vec<u8>, String>>) -> (r: PollLoad)
    ensures
        r == spec_poll_load(poll),
        (r is Pending) <==> (poll is Pending),
        forall|outcome: Result<Vec<u8>, String>|
            poll == HostPoll::Ready(outcome) ==> r == PollLoad::Ready(outcome),
{
    load_poll(poll)
}

fn call_poll<R>(poll: HostPoll<Result<R, String>>) -> (r: PollCallResult<R>)
    ensures
        r == spec_poll_call(poll),
        (r is Pending) <==> (poll is Pending),
        forall|outcome: Result<R, String>|
            poll == HostPoll::Ready(outcome) ==> r == PollCallResult::Ready(outcome),
{
    match poll {
        HostPoll::Pending => PollCallResult::Pending,
        HostPoll::Ready(Ok(result)) => PollCallResult::Ready(Ok(result)),
        HostPoll::Ready(Err(message)) => PollCallResult::Ready(Err(message)),
    }
}

/// Answers a poll of a call to another application: pending while the host
/// future runs, then the call's result or the error's message.
pub fn try_call_application_poll<R>(poll: HostPoll<Result<R, String>>) -> (r: PollCallResult<R>)
    ensures
        r == spec_poll_call(poll),
        (r is Pending) <==> (poll is Pending),
        forall|outcome: Result<R, String>|
            poll == HostPoll::Ready(outcome) ==> r == PollCallResult::Ready(outcome),
{
    call_poll(poll)
}

/// Answers a poll of a call to a session, as [`try_call_application_poll`]
/// does.
pub fn try_call_session_poll<R>(poll: HostPoll<Result<R, String>>) -> (r: PollCallResult<R>)
    ensures
        r == spec_poll_call(poll),
        (r is Pending) <==> (poll is Pending),
        forall|outcome: Result<R, String>|
            poll == HostPoll::Ready(outcome) ==> r == PollCallResult::Ready(outcome),
{
    call_poll(poll)
}

} // verus!
