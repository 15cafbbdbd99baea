//! The decoding of what the looper's poll and file-descriptor calls return.
use vstd::prelude::*;

verus! {

/// The result of a poll of a looper.
#[derive(Copy, Clone, Debug, PartialEq, Eq, Structural)]
pub enum Poll {
    /// This looper was woken using `ForeignLooper::wake`.
    Wake,
    /// For `ThreadLooper::poll_once*`, an event was received and processed using a callback.
    Callback,
    /// For `ThreadLooper::poll_*_timeout`, the requested timeout was reached before any events.
    Timeout,
    /// An event was received: its identifier, the file descriptor and the events that occurred.
    Event { ident: i32, fd: i32, events: i32 },
}

/// The error of a looper call.
#[derive(Debug, Copy, Clone, PartialEq, Eq, Structural)]
pub struct LooperError;

/// The raw result of a poll that was woken.
pub const ALOOPER_POLL_WAKE: i32 = -1;

/// The raw result of a poll that ran a callback.
pub const ALOOPER_POLL_CALLBACK: i32 = -2;

/// The raw result of a poll that timed out.
pub const ALOOPER_POLL_TIMEOUT: i32 = -3;

/// The raw result of a poll that failed.
pub const ALOOPER_POLL_ERROR: i32 = -4;

/// The outcome that the raw result of a poll stands for, with the file descriptor and events
/// that the poll filled in.
pub open spec fn spec_poll_result(ret: i32, fd: i32, events: i32) -> Result<Poll, LooperError> {
    if ret == ALOOPER_POLL_WAKE {
        Ok(Poll::Wake)
    } else if ret == ALOOPER_POLL_CALLBACK {
        Ok(Poll::Callback)
    } else if ret == ALOOPER_POLL_TIMEOUT {
        Ok(Poll::Timeout)
    } else if ret == ALOOPER_POLL_ERROR {
        Err(LooperError)
    } else {
        Ok(Poll::Event { ident: ret, fd, events })
    }
}

/// Decodes the result of a single poll, which is one of the four poll codes or the
/// non-negative identifier of an event.
pub fn poll_once_result(ret: i32, fd: i32, events: i32) -> (r: Result<Poll, LooperError>)
    requires
        ret >= ALOOPER_POLL_ERROR,
    ensures
        r == spec_poll_result(ret, fd, events),
{
    if ret == ALOOPER_POLL_WAKE {
        Ok(Poll::Wake)
    } else if ret == ALOOPER_POLL_CALLBACK {
        Ok(Poll::Callback)
    } else if ret == ALOOPER_POLL_TIMEOUT {
        Ok(Poll::Timeout)
    } else if ret == ALOOPER_POLL_ERROR {
        Err(LooperError)
    } else {
        Ok(Poll::Event { ident: ret, fd, events })
    }
}

/// Decodes the result of polling until an event arrives, which never reports a callback.
pub fn poll_all_result(ret: i32, fd: i32, events: i32) -> (r: Result<Poll, LooperError>)
    requires
        ret >= ALOOPER_POLL_ERROR,
        ret != ALOOPER_POLL_CALLBACK,
    ensures
        r == spec_poll_result(ret, fd, events),
        !(r matches Ok(Poll::Callback)),
{
    poll_once_result(ret, fd, events)
}

/// Decodes the result of adding a file descriptor to a looper, which is `1` on success and `-1`
/// on failure.
pub fn add_fd_result(ret: i32) -> (r: Result<(), LooperError>)
    requires
        ret == 1 || ret == -1,
    ensures
        ret == 1 ==> r == Ok::<(), LooperError>(()),
        ret == -1 ==> r == Err::<(), LooperError>(LooperError),
{
    if ret == 1 {
        Ok(())
    } else {
        Err(LooperError)
    }
}

/// The timeout in milliseconds that a poll is given; it must fit the 32-bit argument.
pub fn timeout_ms(millis: u128) -> (r: i32)
    requires
        millis <= i32::MAX,
    ensures
        r == millis,
{
    millis as i32
}

/// The NDK's constants used here have the values that its headers give them.
pub proof fn lemma_ndk_constants()
    ensures
        ALOOPER_POLL_WAKE == -1,
        ALOOPER_POLL_CALLBACK == -2,
        ALOOPER_POLL_TIMEOUT == -3,
        ALOOPER_POLL_ERROR == -4,
{
}

/// A poll's raw result decodes by the NDK's codes: `-1` is a wake, `-2` a callback, `-3` a
/// timeout and `-4` an error, and a result that is not negative is an event with that identifier.
pub proof fn lemma_poll_codes(fd: i32, events: i32)
    ensures
        spec_poll_result(-1i32, fd, events) == Ok::<Poll, LooperError>(Poll::Wake),
        spec_poll_result(-2i32, fd, events) == Ok::<Poll, LooperError>(Poll::Callback),
        spec_poll_result(-3i32, fd, events) == Ok::<Poll, LooperError>(Poll::Timeout),
        spec_poll_result(-4i32, fd, events) == Err::<Poll, LooperError>(LooperError),
        forall|ret: i32|
            ret >= 0 ==> #[trigger] spec_poll_result(ret, fd, events) == Ok::<Poll, LooperError>(
                Poll::Event { ident: ret, fd, events },
            ),
{
}

} // verus!
