//! Histories: what holds of every sequence of lifecycle calls on one session.
//!
//! A session behind a lock sees its calls one after another, whatever the
//! threads that make them. A history is such a sequence from a fresh session
//! on. The functions here say which calls of a history can succeed, in terms of
//! the calls before them.

use vstd::prelude::*;
use crate::error::SessionError;
use crate::model::{
    after_initialize, after_start, after_stop, initialize_outcome, query_outcome, start_outcome,
    stop_outcome, ProvisioningView, SessionView,
};

verus! {

/// One lifecycle call, with what the outside world contributed to it.
pub enum Call<M, D> {
    Initialize { mtu: u16, provisioning: ProvisioningView<M, D> },
    Start,
    /// `delivered` says whether the shutdown signal could be queued.
    Stop { delivered: bool },
    Query,
}

/// Whether `call` succeeds on a session in state `s`.
pub open spec fn succeeds<M, D>(s: SessionView<M, D>, call: Call<M, D>) -> bool {
    match call {
        Call::Initialize { provisioning, .. } => initialize_outcome(s, provisioning) is Ok,
        Call::Start => start_outcome(s) is Ok,
        Call::Stop { delivered } => stop_outcome(s, delivered) is Ok,
        Call::Query => query_outcome(s) is Ok,
    }
}

/// The state `call` leaves a session in that was in state `s`.
pub open spec fn state_after_call<M, D>(s: SessionView<M, D>, call: Call<M, D>) -> SessionView<
    M,
    D,
> {
    match call {
        Call::Initialize { mtu, provisioning } => after_initialize(s, mtu, provisioning),
        Call::Start => after_start(s),
        Call::Stop { delivered } => after_stop(s, delivered),
        Call::Query => s,
    }
}

/// The state of a fresh session after the calls of `calls`, in order.
pub open spec fn state_after<M, D>(calls: Seq<Call<M, D>>) -> SessionView<M, D>
    decreases calls.len(),
{
    if calls.len() == 0 {
        SessionView::Uninitialized
    } else {
        state_after_call(state_after(calls.drop_last()), calls.last())
    }
}

/// Whether the call at position `i` of the history succeeds.
pub open spec fn succeeds_at<M, D>(calls: Seq<Call<M, D>>, i: int) -> bool {
    0 <= i < calls.len() && succeeds(state_after(calls.take(i)), calls[i])
}

/// The call at `i` is an `initialize` that succeeds.
pub open spec fn initialized_at<M, D>(calls: Seq<Call<M, D>>, i: int) -> bool {
    succeeds_at(calls, i) && calls[i] is Initialize
}

/// The call at `i` is a `start` that succeeds.
pub open spec fn started_at<M, D>(calls: Seq<Call<M, D>>, i: int) -> bool {
    succeeds_at(calls, i) && calls[i] is Start
}

/// The call at `i` is a `stop` that succeeds.
pub open spec fn stopped_at<M, D>(calls: Seq<Call<M, D>>, i: int) -> bool {
    succeeds_at(calls, i) && calls[i] is Stop
}

/// No `start` succeeds strictly between `from` and `to`.
pub open spec fn none_started_between<M, D>(calls: Seq<Call<M, D>>, from: int, to: int) -> bool {
    forall|k: int| from < k < to ==> !#[trigger] started_at(calls, k)
}

/// No `stop` succeeds strictly between `from` and `to`.
pub open spec fn none_stopped_between<M, D>(calls: Seq<Call<M, D>>, from: int, to: int) -> bool {
    forall|k: int| from < k < to ==> !#[trigger] stopped_at(calls, k)
}

/// The state a call finds is the state after the calls before it.
proof fn lemma_state_after_step<M, D>(calls: Seq<Call<M, D>>, n: int)
    requires
        0 < n <= calls.len(),
    ensures
        state_after(calls.take(n)) == state_after_call(
            state_after(calls.take(n - 1)),
            calls[n - 1],
        ),
{
    assert(calls.take(n).drop_last() =~= calls.take(n - 1));
}

/// A session is `Initialized` only after an `initialize` that succeeded and
/// with no successful `start` since.
proof fn lemma_initialized_since<M, D>(calls: Seq<Call<M, D>>, n: int)
    requires
        0 <= n <= calls.len(),
        state_after(calls.take(n)) is Initialized,
    ensures
        exists|j: int|
            j < n && #[trigger] initialized_at(calls, j) && none_started_between(calls, j, n),
    decreases n,
{
    if n > 0 {
        lemma_state_after_step(calls, n);
        if state_after(calls.take(n - 1)) is Initialized {
            lemma_initialized_since(calls, n - 1);
            let j = choose|j: int|
                j < n - 1 && #[trigger] initialized_at(calls, j) && none_started_between(
                    calls,
                    j,
                    n - 1,
                );
            assert(!started_at(calls, n - 1));
            assert(initialized_at(calls, j) && none_started_between(calls, j, n));
        } else {
            assert(initialized_at(calls, n - 1) && none_started_between(calls, n - 1, n));
        }
    }
}

/// A session is `Running` only after a `start` that succeeded and with no
/// successful `stop` since.
proof fn lemma_running_since<M, D>(calls: Seq<Call<M, D>>, n: int)
    requires
        0 <= n <= calls.len(),
        state_after(calls.take(n)) is Running,
    ensures
        exists|j: int|
            j < n && #[trigger] started_at(calls, j) && none_stopped_between(calls, j, n),
    decreases n,
{
    if n > 0 {
        lemma_state_after_step(calls, n);
        if state_after(calls.take(n - 1)) is Running {
            lemma_running_since(calls, n - 1);
            let j = choose|j: int|
                j < n - 1 && #[trigger] started_at(calls, j) && none_stopped_between(
                    calls,
                    j,
                    n - 1,
                );
            assert(!stopped_at(calls, n - 1));
            assert(started_at(calls, j) && none_stopped_between(calls, j, n));
        } else {
            assert(started_at(calls, n - 1) && none_stopped_between(calls, n - 1, n));
        }
    }
}

/// From a successful `initialize` on, a session is not `Uninitialized` for as
/// long as no `stop` succeeds.
proof fn lemma_occupied_until_stop<M, D>(calls: Seq<Call<M, D>>, i: int, n: int)
    requires
        initialized_at(calls, i),
        i < n <= calls.len(),
        none_stopped_between(calls, i, n),
    ensures
        !(state_after(calls.take(n)) is Uninitialized),
    decreases n,
{
    lemma_state_after_step(calls, n);
    if n > i + 1 {
        lemma_occupied_until_stop(calls, i, n - 1);
        assert(!stopped_at(calls, n - 1));
    }
}

/// A second `initialize` fails. After an `initialize` has succeeded, every
/// later `initialize` returns `AlreadyInitialized`, whatever its arguments,
/// until a `stop` succeeds.
pub proof fn law_initialize_once<M, D>(calls: Seq<Call<M, D>>, i: int, j: int)
    requires
        initialized_at(calls, i),
        i < j < calls.len(),
        calls[j] is Initialize,
        none_stopped_between(calls, i, j),
    ensures
        !succeeds_at(calls, j),
        initialize_outcome(state_after(calls.take(j)), calls[j]->provisioning) == Err::<
            (),
            SessionError,
        >(SessionError::AlreadyInitialized),
{
    lemma_occupied_until_stop(calls, i, j);
}

/// A `start` succeeds only if an `initialize` succeeded before it and no
/// `start` has succeeded since.
pub proof fn law_start_follows_initialize<M, D>(calls: Seq<Call<M, D>>, i: int)
    requires
        started_at(calls, i),
    ensures
        exists|j: int|
            j < i && #[trigger] initialized_at(calls, j) && none_started_between(calls, j, i),
{
    lemma_initialized_since(calls, i);
}

/// A `stop` succeeds only if a `start` succeeded before it and no `stop` has
/// succeeded since.
pub proof fn law_stop_follows_start<M, D>(calls: Seq<Call<M, D>>, i: int)
    requires
        stopped_at(calls, i),
    ensures
        exists|j: int|
            j < i && #[trigger] started_at(calls, j) && none_stopped_between(calls, j, i),
{
    lemma_running_since(calls, i);
}

/// A query returns the same just before and just after a successful `start`.
pub proof fn law_start_keeps_remote_address<M, D>(s: SessionView<M, D>)
    requires
        start_outcome(s) is Ok,
    ensures
        query_outcome(after_start(s)) == query_outcome(s),
{
}

/// Of any number of `initialize` calls that race for a fresh session, each with
/// arguments that would do, exactly one succeeds: the one that gets there
/// first. Every other one returns `AlreadyInitialized`.
pub proof fn law_one_initialize_wins<M, D>(calls: Seq<Call<M, D>>)
    requires
        calls.len() >= 1,
        forall|i: int|
            0 <= i < calls.len() ==> (#[trigger] calls[i]) is Initialize
                && calls[i]->provisioning.complete(),
    ensures
        initialized_at(calls, 0),
        forall|i: int|
            1 <= i < calls.len() ==> !succeeds_at(calls, i) && #[trigger] initialize_outcome(
                state_after(calls.take(i)),
                calls[i]->provisioning,
            ) == Err::<(), SessionError>(SessionError::AlreadyInitialized),
{
    assert(calls.take(0).len() == 0);
    assert(initialized_at(calls, 0));
    assert forall|i: int| 1 <= i < calls.len() implies !succeeds_at(calls, i)
        && #[trigger] initialize_outcome(state_after(calls.take(i)), calls[i]->provisioning)
        == Err::<(), SessionError>(SessionError::AlreadyInitialized) by {
        law_initialize_once(calls, 0, i);
    }
}

/// After a successful `stop` the session is `Uninitialized` again, and an
/// `initialize` with arguments that would do on a fresh session succeeds.
pub proof fn law_stop_permits_initialize<M, D>(
    s: SessionView<M, D>,
    mtu: u16,
    provisioning: ProvisioningView<M, D>,
)
    requires
        stop_outcome(s, true) is Ok,
        provisioning.complete(),
    ensures
        after_stop(s, true) is Uninitialized,
        initialize_outcome(after_stop(s, true), provisioning) is Ok,
        after_initialize(after_stop(s, true), mtu, provisioning) is Initialized,
{
}

} // verus!
