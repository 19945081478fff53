//! Properties of the multiplexer, stated over the abstract states of the
//! reader and the writer, and proved.
use vstd::prelude::*;

use crate::pending::{ids_unique, index_of, lemma_index_of, lemma_remove_unique, registered};
use crate::reader::{Dispatch, ReaderState, Response, WireMessage, BulbError};
use crate::writer::{WriterCall, WriterState};

verus! {

/// The sink that a message reaches when the reader dispatches it: the one
/// installed at that moment, for a notification; none otherwise.
pub open spec fn delivered_to<H, S>(st: ReaderState<H, S>, msg: WireMessage) -> Option<S> {
    match st.dispatch(msg) {
        (Dispatch::Notify(_), after) => after.sink,
        _ => None,
    }
}

proof fn lemma_after_removal<H>(p: Seq<(u64, H)>, i: int, j: int)
    requires
        ids_unique(p),
        0 <= i < p.len(),
        0 <= j < p.len(),
        i != j,
    ensures
        ids_unique(p.remove(i)),
        registered(p.remove(i), p[j].0),
        p.remove(i)[index_of(p.remove(i), p[j].0)] == p[j],
        index_of(p.remove(i), p[j].0) == (if j < i { j } else { j - 1 }),
{
    lemma_remove_unique(p, i);
    let k = if j < i { j } else { j - 1 };
    assert(p.remove(i)[k] == p[j]);
    lemma_index_of(p.remove(i), p[j].0, k);
}

/// Replies are matched by correlation id alone. For two different pending
/// requests, each outcome completes the handle registered under its own id,
/// whichever of the two replies arrives first, and both orders leave the same
/// table behind.
pub proof fn lemma_replies_match_ids<H, S>(
    st: ReaderState<H, S>,
    i: int,
    j: int,
    oi: Result<Response, BulbError>,
    oj: Result<Response, BulbError>,
)
    requires
        ids_unique(st.pending),
        0 <= i < st.pending.len(),
        0 <= j < st.pending.len(),
        i != j,
    ensures
        ({
            let (a, ha) = st.pending[i];
            let (b, hb) = st.pending[j];
            let (d1, s1) = st.reply(a, oi);
            let (d2, s2) = s1.reply(b, oj);
            let (e1, t1) = st.reply(b, oj);
            let (e2, t2) = t1.reply(a, oi);
            &&& d1 == Dispatch::<H>::Reply(ha, oi)
            &&& d2 == Dispatch::<H>::Reply(hb, oj)
            &&& e1 == Dispatch::<H>::Reply(hb, oj)
            &&& e2 == Dispatch::<H>::Reply(ha, oi)
            &&& s2 == t2
            &&& !registered(s2.pending, a) && !registered(s2.pending, b)
        }),
{
    let p = st.pending;
    lemma_index_of(p, p[i].0, i);
    lemma_index_of(p, p[j].0, j);
    lemma_after_removal(p, i, j);
    lemma_after_removal(p, j, i);
    let ki = if j < i { j } else { j - 1 };
    let kj = if i < j { i } else { i - 1 };
    lemma_remove_unique(p.remove(i), ki);
    lemma_remove_unique(p.remove(j), kj);
    assert(p.remove(i).remove(ki) =~= p.remove(j).remove(kj));
    lemma_remove_unique(p, i);
}

/// A reply matches the request whose id it carries: a result completes that
/// request's handle with the values, an error with the device's code and
/// message, and the id is no longer pending afterwards.
pub proof fn lemma_reply_completes_own_request<H, S>(
    st: ReaderState<H, S>,
    i: int,
    result: Vec<String>,
    code: i32,
    message: String,
)
    requires
        ids_unique(st.pending),
        0 <= i < st.pending.len(),
    ensures
        ({
            let (id, h) = st.pending[i];
            let (d, s) = st.dispatch(WireMessage::Result { id, result });
            &&& d == Dispatch::<H>::Reply(h, Ok(result))
            &&& !registered(s.pending, id)
        }),
        ({
            let (id, h) = st.pending[i];
            let (d, s) = st.dispatch(WireMessage::Error { id, code, message });
            &&& d == Dispatch::<H>::Reply(h, Err(BulbError::ErrResponse(code, message)))
            &&& !registered(s.pending, id)
        }),
{
    lemma_index_of(st.pending, st.pending[i].0, i);
    lemma_remove_unique(st.pending, i);
}

/// A notification that arrives while a request waits for its reply leaves the
/// whole inbound state as it was, so the reply that follows completes the
/// same handle with the same outcome.
pub proof fn lemma_notification_leaves_replies<H, S>(
    st: ReaderState<H, S>,
    method: String,
    params: serde_json::Map<String, serde_json::Value>,
    i: int,
    outcome: Result<Response, BulbError>,
)
    requires
        ids_unique(st.pending),
        0 <= i < st.pending.len(),
    ensures
        st.dispatch(WireMessage::Notification { method, params }).1 == st,
        st.dispatch(WireMessage::Notification { method, params }).1.reply(
            st.pending[i].0,
            outcome,
        ) == st.reply(st.pending[i].0, outcome),
        st.reply(st.pending[i].0, outcome).0 == Dispatch::<H>::Reply(st.pending[i].1, outcome),
{
    lemma_index_of(st.pending, st.pending[i].0, i);
}

/// Replacing the sink splits the notification stream between the two sinks:
/// one decoded before the replacement reaches the sink installed then, one
/// decoded after reaches the new sink, and each reaches at most one sink.
/// Dispatching never changes which sink is installed.
pub proof fn lemma_sink_replacement<H, S>(
    st: ReaderState<H, S>,
    sink: S,
    before: WireMessage,
    after: WireMessage,
)
    requires
        before is Notification,
        after is Notification,
    ensures
        st.dispatch(before).1.sink == st.sink,
        delivered_to(st, before) == st.sink,
        delivered_to(st.dispatch(before).1.replace_sink(sink), after) == Some(sink),
{
}

/// Teardown fails every caller still waiting: the handle of each pending
/// request is handed out, in order of registration, the table is left empty,
/// and no request can be registered afterwards.
pub proof fn lemma_teardown_hands_out_all<H, S>(st: ReaderState<H, S>, id: u64, handle: H)
    ensures
        st.teardown().0.len() == st.pending.len(),
        forall|k: int| 0 <= k < st.pending.len() ==> st.teardown().0[k] == st.pending[k].1,
        st.teardown().1.pending.len() == 0,
        st.teardown().1.register(id, handle) == (false, st.teardown().1),
{
}

proof fn lemma_issued_bounds(w: WriterState, calls: Seq<WriterCall>)
    ensures
        forall|k: int| 0 <= k < w.issued(calls).len() ==> w.counter < w.issued(calls)[k],
        forall|k: int|
            0 <= k < w.issued(calls).len() ==> w.issued(calls)[k] <= w.run(calls).counter,
        forall|k: int, l: int|
            0 <= k < l < w.issued(calls).len() ==> w.issued(calls)[k] < w.issued(calls)[l],
        w.counter <= w.run(calls).counter,
    decreases calls.len(),
{
    if calls.len() > 0 {
        let rest = calls.drop_first();
        match calls[0] {
            WriterCall::Invoke => match w.issue() {
                Some((id, w2)) => {
                    lemma_issued_bounds(w2, rest);
                    assert(w.run(calls) == w2.run(rest));
                    let s = w.issued(calls);
                    assert(s == seq![id] + w2.issued(rest));
                    assert forall|k: int, l: int| 0 <= k < l < s.len() implies s[k] < s[l] by {
                        if k > 0 {
                            assert(s[k] == w2.issued(rest)[k - 1]);
                        }
                        assert(s[l] == w2.issued(rest)[l - 1]);
                    }
                    assert forall|k: int| 0 <= k < s.len() implies w.counter < s[k] && s[k]
                        <= w.run(calls).counter by {
                        if k > 0 {
                            assert(s[k] == w2.issued(rest)[k - 1]);
                        }
                    }
                },
                None => {
                    lemma_issued_bounds(w, rest);
                    assert(w.issued(calls) == w.issued(rest));
                    assert(w.run(calls) == w.run(rest));
                },
            },
            WriterCall::SetGetResponse(b) => {
                let w2 = WriterState { get_response: b, ..w };
                lemma_issued_bounds(w2, rest);
                assert(w.issued(calls) == w2.issued(rest));
                assert(w.run(calls) == w2.run(rest));
            },
        }
    }
}

/// Correlation ids issued by one writer strictly increase over any sequence
/// of calls, fire-and-forget requests and mode switches included, so none
/// repeats; each exceeds every id issued before the sequence.
pub proof fn lemma_ids_strictly_increase(w: WriterState, calls: Seq<WriterCall>)
    ensures
        forall|k: int, l: int|
            0 <= k < l < w.issued(calls).len() ==> w.issued(calls)[k] < w.issued(calls)[l],
        forall|k: int| 0 <= k < w.issued(calls).len() ==> w.counter < w.issued(calls)[k],
{
    lemma_issued_bounds(w, calls);
}

/// A freshly issued id is never pending while every pending id was issued
/// earlier: registering it on an open connection succeeds.
pub proof fn lemma_fresh_id_registers<H, S>(w: WriterState, st: ReaderState<H, S>, handle: H)
    requires
        forall|k: int| 0 <= k < st.pending.len() ==> st.pending[k].0 <= w.counter,
        w.issue() is Some,
        !st.closed,
    ensures
        !registered(st.pending, w.issue().unwrap().0),
        st.register(w.issue().unwrap().0, handle).0,
{
}

} // verus!
