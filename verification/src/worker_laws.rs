//! What holds of every step of the quota worker.
use vstd::prelude::*;
use crate::models::ConnectionStatus;
use crate::service::{
    AwaitingView, EffectView, InputView, Outgoing, WorkerView, awaits_answer, current_generation,
    incoming_from_fields, initial_model, is_answer, json_line_fields, next_id, step_model,
    answer_time, later, refresh_interval_ms, FIRST_REQUEST_ID, INITIALIZE_REQUEST_ID,
};

verus! {

/// The worker's own consistency: a session belongs to the current generation and has
/// a request pending only after its handshake; a rescheduled refresh waits for an
/// answer; and what is awaited fits the session.
pub open spec fn worker_inv<S>(w: WorkerView<S>) -> bool {
    &&& (match w.session {
        Some(s) => s.generation == w.generation && (s.pending_request is Some ==> s.initialized),
        None => true,
    })
    &&& (w.reschedule ==> w.awaiting is Some)
    &&& (match w.awaiting {
        Some(AwaitingView::Locate) => w.session is None,
        Some(AwaitingView::Spawn { generation, .. }) => w.session is None && generation
            == w.generation,
        Some(AwaitingView::SendInitialized) => w.session is Some,
        Some(AwaitingView::SendRead { .. }) => match w.session {
            Some(s) => s.initialized && s.pending_request is None,
            None => false,
        },
        None => true,
    })
}

/// A fresh worker is consistent.
pub proof fn lemma_initial_inv<S>(platform: Seq<char>, settings: crate::models::AppSettingsView, now: u64)
    ensures
        worker_inv(initial_model::<S>(platform, settings, now)),
{
}

/// Every step keeps the worker consistent.
pub proof fn lemma_step_keeps_inv<S, P>(w: WorkerView<S>, i: InputView<S, P>)
    requires
        worker_inv(w),
    ensures
        worker_inv(step_model(w, i).0),
{
}

/// A quota snapshot, once read, is never dropped: failures and disconnects keep
/// the last valid values on show.
pub proof fn lemma_snapshot_kept<S, P>(w: WorkerView<S>, i: InputView<S, P>)
    requires
        w.frontend.snapshot is Some,
    ensures
        step_model(w, i).0.frontend.snapshot is Some,
{
}

/// The event is a line of the current session that carries a decoded quota result.
pub open spec fn is_quota_result_line<S, P>(w: WorkerView<S>, i: InputView<S, P>) -> bool {
    match i {
        InputView::Line { generation, line, snapshot, .. } => current_generation(w, generation)
            && match incoming_from_fields(json_line_fields(line), snapshot) {
            Some(m) => m.has_result && m.rate_limits is Some && m.rate_limits->0 is Ok,
            None => false,
        },
        _ => false,
    }
}

/// The snapshot changes only when a line of the current session carries a decoded
/// quota result.
pub proof fn lemma_snapshot_changes_only_on_result<S, P>(w: WorkerView<S>, i: InputView<S, P>)
    requires
        step_model(w, i).0.frontend.snapshot != w.frontend.snapshot,
    ensures
        w.awaiting is None,
        is_quota_result_line(w, i),
        step_model(w, i).0.frontend.connection.status == ConnectionStatus::Connected,
{
}

/// Once the executable in use is known it stays known.
pub proof fn lemma_executable_kept<S, P>(w: WorkerView<S>, i: InputView<S, P>)
    requires
        w.frontend.connection.executable is Some,
    ensures
        step_model(w, i).0.frontend.connection.executable is Some,
{
}

/// Output of an earlier App Server process changes nothing.
pub proof fn lemma_stale_output_ignored<S, P>(w: WorkerView<S>, i: InputView<S, P>)
    requires
        match i {
            InputView::Line { generation, .. } => !current_generation(w, generation),
            InputView::Stderr { generation, .. } => !current_generation(w, generation),
            InputView::Eof { generation, .. } => !current_generation(w, generation),
            _ => false,
        },
    ensures
        step_model(w, i).0 == w,
        step_model(w, i).1.len() == 0,
{
}

/// While an answer is awaited, every other event is dropped.
pub proof fn lemma_only_answers_while_awaiting<S, P>(w: WorkerView<S>, i: InputView<S, P>)
    requires
        w.awaiting is Some,
        !is_answer(i),
    ensures
        step_model(w, i).0 == w,
        step_model(w, i).1.len() == 0,
{
}

/// Only the last effect of a step may wait for an answer, and the worker waits
/// exactly when that last effect does.
pub proof fn lemma_effects_protocol<S, P>(w: WorkerView<S>, i: InputView<S, P>)
    requires
        worker_inv(w),
        w.awaiting is None || is_answer(i),
    ensures
        ({
            let (w2, e) = step_model(w, i);
            &&& forall|k: int| 0 <= k < e.len() - 1 ==> !awaits_answer(#[trigger] e[k])
            &&& (e.len() > 0 && awaits_answer(e.last())) ==> w2.awaiting is Some
            &&& (w2.awaiting is Some && w.awaiting is None) ==> e.len() > 0 && awaits_answer(
                e.last(),
            )
        }),
{
}

/// A quota request carries the worker's next request id, which then moves on by one;
/// no other step changes it.
pub proof fn lemma_request_ids<S, P>(w: WorkerView<S>, i: InputView<S, P>)
    ensures
        ({
            let (w2, e) = step_model(w, i);
            &&& forall|k: int|
                0 <= k < e.len() ==> (#[trigger] e[k] matches EffectView::Send(
                    Outgoing::ReadRateLimits { id },
                ) ==> id == w.next_request_id && w2.next_request_id == next_id(id))
            &&& (w2.next_request_id != w.next_request_id ==> exists|k: int|
                0 <= k < e.len() && e[k] == EffectView::<P>::Send(
                    Outgoing::ReadRateLimits { id: w.next_request_id },
                ))
        }),
{
    let (w2, e) = step_model(w, i);
    if w2.next_request_id != w.next_request_id {
        assert(e.len() > 0 && e.last() == EffectView::<P>::Send(
            Outgoing::ReadRateLimits { id: w.next_request_id },
        ));
        assert(e[e.len() - 1] == e.last());
    }
}

/// A request is pending and, if the event is the periodic check, not yet overdue.
pub open spec fn request_in_flight<S, P>(w: WorkerView<S>, i: InputView<S, P>) -> bool {
    match w.session {
        Some(s) => match s.pending_request {
            Some((_, deadline)) => match i {
                InputView::Tick { now } => now < deadline,
                _ => true,
            },
            None => false,
        },
        None => false,
    }
}

/// No quota request is sent while one is pending and has not timed out.
pub proof fn lemma_one_request_at_a_time<S, P>(w: WorkerView<S>, i: InputView<S, P>)
    requires
        worker_inv(w),
        request_in_flight(w, i),
    ensures
        forall|k: int|
            0 <= k < step_model(w, i).1.len() ==> !(#[trigger] step_model(w, i).1[k] matches EffectView::Send(
                Outgoing::ReadRateLimits { .. },
            )),
{
}

/// Disconnecting stops the session and shows the worker as disconnected.
pub proof fn lemma_disconnect<S, P>(w: WorkerView<S>)
    requires
        w.awaiting is None,
    ensures
        step_model(w, InputView::<S, P>::Disconnect).0.session is None,
        step_model(w, InputView::<S, P>::Disconnect).0.frontend.connection.status
            == ConnectionStatus::Disconnected,
{
}

/// The effect is a quota request.
pub open spec fn is_read<P>(e: EffectView<P>) -> bool {
    e matches EffectView::Send(Outgoing::ReadRateLimits { .. })
}

/// The id of a quota request.
pub open spec fn read_id<P>(e: EffectView<P>) -> i64 {
    match e {
        EffectView::Send(Outgoing::ReadRateLimits { id }) => id,
        _ => 0,
    }
}

/// The ids of the quota requests among `e`, in order.
pub open spec fn read_ids<P>(e: Seq<EffectView<P>>) -> Seq<i64>
    decreases e.len(),
{
    if e.len() == 0 {
        Seq::empty()
    } else if is_read(e.last()) {
        read_ids(e.drop_last()).push(read_id(e.last()))
    } else {
        read_ids(e.drop_last())
    }
}

/// A run of the worker from `w` through `inputs`: the state it ends in and the
/// ids of the quota requests it sent, in order.
pub open spec fn run_model<S, P>(w: WorkerView<S>, inputs: Seq<InputView<S, P>>) -> (WorkerView<S>, Seq<i64>)
    decreases inputs.len(),
{
    if inputs.len() == 0 {
        (w, Seq::empty())
    } else {
        let (w1, ids) = run_model(w, inputs.drop_last());
        let (w2, e) = step_model(w1, inputs.last());
        (w2, ids + read_ids(e))
    }
}

proof fn lemma_no_reads<P>(e: Seq<EffectView<P>>)
    requires
        forall|k: int| 0 <= k < e.len() ==> !is_read(#[trigger] e[k]),
    ensures
        read_ids(e) == Seq::<i64>::empty(),
    decreases e.len(),
{
    if e.len() > 0 {
        let d = e.drop_last();
        assert forall|k: int| 0 <= k < d.len() implies !is_read(#[trigger] d[k]) by {
            assert(d[k] == e[k]);
        }
        lemma_no_reads(d);
        assert(!is_read(e[e.len() - 1]));
    }
}

/// A step sends at most one quota request; it carries the worker's next id, which
/// then moves on by one, and after it the worker waits for that request to go out,
/// its session past the handshake and with no other request pending.
pub proof fn lemma_step_reads<S, P>(w: WorkerView<S>, i: InputView<S, P>)
    requires
        worker_inv(w),
    ensures
        ({
            let (w2, e) = step_model(w, i);
            ||| read_ids(e) == Seq::<i64>::empty() && w2.next_request_id == w.next_request_id
            ||| read_ids(e) == seq![w.next_request_id] && w2.next_request_id == next_id(
                w.next_request_id,
            ) && w2.awaiting == Some(AwaitingView::SendRead { id: w.next_request_id })
        }),
{
    let (w2, e) = step_model(w, i);
    if w.awaiting is Some && !is_answer(i) {
        lemma_only_answers_while_awaiting(w, i);
        assert(read_ids(e) =~= Seq::<i64>::empty());
    } else {
        lemma_effects_protocol(w, i);
        lemma_request_ids(w, i);
        lemma_step_keeps_inv(w, i);
        if e.len() == 0 {
            assert(read_ids(e) =~= Seq::<i64>::empty());
            if w2.next_request_id != w.next_request_id {
                let k = choose|k: int| 0 <= k < e.len() && e[k] == EffectView::<P>::Send(
                    Outgoing::ReadRateLimits { id: w.next_request_id },
                );
            }
        } else {
            let d = e.drop_last();
            assert forall|k: int| 0 <= k < d.len() implies !is_read(#[trigger] d[k]) by {
                assert(d[k] == e[k]);
                assert(!awaits_answer(e[k]));
            }
            lemma_no_reads(d);
            if is_read(e.last()) {
                assert(e.last() == e[e.len() - 1]);
                assert(read_ids(e) =~= seq![w.next_request_id]);
                assert(awaits_answer(e.last()));
                lemma_read_leaves_send_read(w, i);
            } else {
                assert(read_ids(e) =~= Seq::<i64>::empty());
                if w2.next_request_id != w.next_request_id {
                    let k = choose|k: int| 0 <= k < e.len() && e[k] == EffectView::<P>::Send(
                        Outgoing::ReadRateLimits { id: w.next_request_id },
                    );
                    assert(is_read(e[k]));
                    assert(k == e.len() - 1);
                }
            }
        }
    }
}

proof fn lemma_read_leaves_send_read<S, P>(w: WorkerView<S>, i: InputView<S, P>)
    requires
        worker_inv(w),
        step_model(w, i).1.len() > 0,
        is_read(step_model(w, i).1.last()),
    ensures
        step_model(w, i).0.awaiting == Some(
            AwaitingView::SendRead { id: read_id(step_model(w, i).1.last()) },
        ),
{
}

/// Over any run from a fresh worker, the quota requests carry the ids 10, 11, 12, …
/// in the order they are sent: never the handshake id, never one id twice, a failed
/// send included. The worker stays consistent throughout. (Runs shorter than the
/// `i64` range of ids.)
pub proof fn lemma_run_request_ids<S, P>(w0: WorkerView<S>, inputs: Seq<InputView<S, P>>)
    requires
        worker_inv(w0),
        w0.next_request_id == FIRST_REQUEST_ID,
        inputs.len() < i64::MAX - FIRST_REQUEST_ID,
    ensures
        ({
            let (w, ids) = run_model(w0, inputs);
            &&& worker_inv(w)
            &&& ids.len() <= inputs.len()
            &&& w.next_request_id == FIRST_REQUEST_ID + ids.len()
            &&& forall|k: int| 0 <= k < ids.len() ==> #[trigger] ids[k] == FIRST_REQUEST_ID + k
            &&& forall|k: int| 0 <= k < ids.len() ==> #[trigger] ids[k] != INITIALIZE_REQUEST_ID
        }),
    decreases inputs.len(),
{
    if inputs.len() > 0 {
        let (w1, ids1) = run_model(w0, inputs.drop_last());
        lemma_run_request_ids(w0, inputs.drop_last());
        lemma_step_reads(w1, inputs.last());
        lemma_step_keeps_inv(w1, inputs.last());
        let (w2, e) = step_model(w1, inputs.last());
        let ids = ids1 + read_ids(e);
        if read_ids(e).len() > 0 {
            assert(ids =~= ids1.push(w1.next_request_id));
        } else {
            assert(ids =~= ids1);
        }
    }
}

/// A periodic check that is not yet due sends nothing to the App Server.
pub proof fn lemma_tick_before_due_sends_nothing<S, P>(w: WorkerView<S>, t: u64)
    requires
        w.awaiting is None,
        t < w.next_auto_refresh,
    ensures
        forall|k: int|
            0 <= k < step_model(w, InputView::<S, P>::Tick { now: t }).1.len() ==> !(
            #[trigger] step_model(w, InputView::<S, P>::Tick { now: t }).1[k] is Send),
{
    let e = step_model(w, InputView::<S, P>::Tick { now: t }).1;
    assert forall|k: int| 0 <= k < e.len() implies !(#[trigger] e[k] is Send) by {
        assert(e[k] is Publish || e[k] is StopSession);
    }
}

/// An automatic quota read started by the periodic check at `t` pushes the next one
/// at least one refresh interval (30 s or more) past `t`: once its answer is in, the
/// next automatic refresh is due no earlier than that.
pub proof fn lemma_automatic_read_reschedules<S, P>(w: WorkerView<S>, t: u64, a: InputView<S, P>)
    requires
        w.awaiting is None,
        exists|k: int|
            0 <= k < step_model(w, InputView::<S, P>::Tick { now: t }).1.len() && (
            #[trigger] step_model(w, InputView::<S, P>::Tick { now: t }).1[k]) is Send,
        is_answer(a),
        answer_time(a) >= t,
        step_model(step_model(w, InputView::<S, P>::Tick { now: t }).0, a).0.awaiting is None,
    ensures
        step_model(step_model(w, InputView::<S, P>::Tick { now: t }).0, a).0.next_auto_refresh
            >= later(t, refresh_interval_ms(w.frontend.settings)),
        step_model(step_model(w, InputView::<S, P>::Tick { now: t }).0, a).0.next_auto_refresh
            == u64::MAX || step_model(step_model(w, InputView::<S, P>::Tick { now: t }).0, a).0.next_auto_refresh
            >= t + 30_000,
{
    let tick = InputView::<S, P>::Tick { now: t };
    let (w1, e1) = step_model(w, tick);
    if t < w.next_auto_refresh {
        lemma_tick_before_due_sends_nothing::<S, P>(w, t);
        assert(false);
    }
    assert(w1.reschedule && w1.awaiting is Some);
    assert(w1.frontend.settings == w.frontend.settings);
    let w2 = step_model(w1, a).0;
    assert(w2.frontend.settings == w.frontend.settings);
    crate::models::lemma_refresh_interval_clamped(w.frontend.settings.refresh_interval_secs);
}

} // verus!
