//! Protocol-wide guarantees, stated over whole runs of the engine.
//!
//! [`spec_run`] folds [`spec_step`](crate::node::spec_step) over a sequence
//! of incoming requests, collecting the emitted replies and stopping at the
//! first rejected request, exactly as the process terminates on its first
//! error. The proof functions here are the library's statements about such
//! runs; each is proved from the step function that the executable
//! dispatcher refines.

use vstd::prelude::*;

use crate::messages::{ReplyBodyView, ReplyView, RequestBodyView, RequestView};
use crate::node::{spec_step, NodeView};

verus! {

/// A whole run: the state after it, and every reply emitted, in order.
/// Processing stops at the first rejected request, with no reply for it.
/// `fresh_ids`, pointwise, stands for the identifier each step would hand a
/// `generate` request; it is as long as `reqs`.
pub open spec fn spec_run(
    s: NodeView,
    reqs: Seq<RequestView>,
    fresh_ids: Seq<Seq<char>>,
) -> (NodeView, Seq<ReplyView>)
    decreases reqs.len(),
{
    if reqs.len() == 0 {
        (s, Seq::empty())
    } else {
        let step = spec_step(s, reqs[0], fresh_ids[0]);
        match step.1 {
            None => (s, Seq::empty()),
            Some(rep) => {
                let rest = spec_run(step.0, reqs.drop_first(), fresh_ids.drop_first());
                (rest.0, seq![rep] + rest.1)
            },
        }
    }
}

/// The reply ids a run assigns, counted from an arbitrary starting value:
/// the i-th reply carries id `start + i`, and the counter afterwards equals
/// the start plus the number of replies emitted.
pub proof fn lemma_reply_ids_from(s: NodeView, reqs: Seq<RequestView>, fresh_ids: Seq<Seq<char>>)
    ensures
        spec_run(s, reqs, fresh_ids).0.next_msg_id == s.next_msg_id + spec_run(
            s,
            reqs,
            fresh_ids,
        ).1.len(),
        forall|i: int|
            0 <= i < spec_run(s, reqs, fresh_ids).1.len() ==> (#[trigger] spec_run(
                s,
                reqs,
                fresh_ids,
            ).1[i]).body.msg_id() == s.next_msg_id + i,
    decreases reqs.len(),
{
    if reqs.len() == 0 {
    } else {
        let step = spec_step(s, reqs[0], fresh_ids[0]);
        match step.1 {
            None => {},
            Some(rep) => {
                lemma_reply_ids_from(step.0, reqs.drop_first(), fresh_ids.drop_first());
                assert(rep.body.msg_id() == s.next_msg_id);
                assert(step.0.next_msg_id == s.next_msg_id + 1);
            },
        }
    }
}

/// Law: over a whole process lifetime — a run started with the counter at
/// zero — the assigned reply ids are exactly 0, 1, …, N−1, in emission
/// order: strictly increasing, gapless, starting at zero.
pub proof fn lemma_reply_ids_sequential(
    s: NodeView,
    reqs: Seq<RequestView>,
    fresh_ids: Seq<Seq<char>>,
)
    requires
        s.next_msg_id == 0,
    ensures
        forall|i: int|
            0 <= i < spec_run(s, reqs, fresh_ids).1.len() ==> (#[trigger] spec_run(
                s,
                reqs,
                fresh_ids,
            ).1[i]).body.msg_id() == i,
{
    lemma_reply_ids_from(s, reqs, fresh_ids);
}

/// Law: a run of broadcasts followed by one read. Whatever values are
/// broadcast — duplicates allowed — every request is answered, the log
/// afterwards is the old log extended by exactly those values in arrival
/// order, and the final reply returns that whole log: no sorting, no
/// deduplication, one appended entry per broadcast call.
pub proof fn lemma_broadcast_then_read(
    s: NodeView,
    reqs: Seq<RequestView>,
    fresh_ids: Seq<Seq<char>>,
    vs: Seq<i32>,
)
    requires
        s.initialized,
        reqs.len() == vs.len() + 1,
        forall|i: int|
            0 <= i < vs.len() ==> ((#[trigger] reqs[i]).body matches RequestBodyView::Broadcast {
                message,
                ..
            } && message == vs[i]),
        reqs[vs.len() as int].body is Read,
    ensures
        spec_run(s, reqs, fresh_ids).1.len() == reqs.len(),
        spec_run(s, reqs, fresh_ids).0.broadcasts == s.broadcasts + vs,
        (spec_run(s, reqs, fresh_ids).1.last().body matches ReplyBodyView::ReadOk {
            messages,
            ..
        } && messages == s.broadcasts + vs),
    decreases vs.len(),
{
    if vs.len() == 0 {
        assert(s.broadcasts + vs =~= s.broadcasts);
        assert(reqs[0].body is Read);
        let step = spec_step(s, reqs[0], fresh_ids[0]);
        assert(spec_run(step.0, reqs.drop_first(), fresh_ids.drop_first()).1 =~= Seq::<
            ReplyView,
        >::empty());
        assert(spec_run(s, reqs, fresh_ids).1 =~= seq![step.1->Some_0]);
    } else {
        let step = spec_step(s, reqs[0], fresh_ids[0]);
        let s1 = step.0;
        assert(s1.broadcasts == s.broadcasts.push(vs[0]));
        let reqs1 = reqs.drop_first();
        let vs1 = vs.drop_first();
        assert forall|i: int| 0 <= i < vs1.len() implies (#[trigger] reqs1[i]).body
            matches RequestBodyView::Broadcast { message, .. } && message == vs1[i] by {
            assert(reqs1[i] == reqs[i + 1]);
            assert(vs1[i] == vs[i + 1]);
        }
        assert(reqs1[vs1.len() as int].body is Read);
        lemma_broadcast_then_read(s1, reqs1, fresh_ids.drop_first(), vs1);
        assert(s1.broadcasts + vs1 =~= s.broadcasts + vs);
        let rest = spec_run(s1, reqs1, fresh_ids.drop_first());
        assert(spec_run(s, reqs, fresh_ids).1 == seq![step.1->Some_0] + rest.1);
        assert(spec_run(s, reqs, fresh_ids).1.last() == rest.1.last());
    }
}

/// Law: any request other than `init` delivered as the very first input to
/// a fresh node is rejected — the run emits no reply at all and the state
/// is left exactly as it was.
pub proof fn lemma_premature_first(s: NodeView, reqs: Seq<RequestView>, fresh_ids: Seq<Seq<char>>)
    requires
        !s.initialized,
        reqs.len() > 0,
        !(reqs[0].body is Init),
    ensures
        spec_run(s, reqs, fresh_ids).1 == Seq::<ReplyView>::empty(),
        spec_run(s, reqs, fresh_ids).0 == s,
{
}

} // verus!
