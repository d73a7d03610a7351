//! The WebSocket bridge's forwarding rule: each direction runs its own pump
//! that reads frames in order, asks its message handler for a verdict, and
//! forwards the (possibly rewritten) frame — or silently drops it when the
//! handler returned none. The two directions never share state.

use vstd::prelude::*;
use crate::model::Message;

verus! {

/// The frames one direction places on its peer sink, given the handler's
/// verdicts in frame order: every returned frame in order, dropped frames
/// left out.
pub open spec fn forwarded(verdicts: Seq<Option<Message>>) -> Seq<Message>
    decreases verdicts.len(),
{
    if verdicts.len() == 0 {
        Seq::empty()
    } else {
        forwarded(verdicts.drop_last()) + match verdicts.last() {
            Some(m) => seq![m],
            None => Seq::empty(),
        }
    }
}

/// Runs one direction's pump over a stretch of handler verdicts, in frame
/// order: the frames actually sent to the peer.
pub fn pump(verdicts: Vec<Option<Message>>) -> (sent: Vec<Message>)
    ensures
        sent@ == forwarded(verdicts@),
{
    let ghost all = verdicts@;
    let mut rest = verdicts;
    let mut sent: Vec<Message> = Vec::new();
    proof {
        assert(all.take(0) =~= Seq::<Option<Message>>::empty());
        assert(all.take(all.len() - rest@.len()) + rest@ =~= all);
    }
    while rest.len() > 0
        invariant
            rest@.len() <= all.len(),
            all.take(all.len() - rest@.len()) + rest@ == all,
            sent@ == forwarded(all.take(all.len() - rest@.len())),
        decreases rest.len(),
    {
        let ghost k = all.len() - rest@.len();
        let ghost prev = rest@;
        proof {
            assert(all[k] == rest@[0]);
            assert(all.take(k + 1).drop_last() =~= all.take(k));
            assert(all.take(k + 1).last() == all[k]);
        }
        let v = rest.remove(0);
        proof {
            assert(rest@ =~= prev.drop_first());
            assert(all.take(k + 1) + rest@ =~= all);
        }
        match v {
            Some(m) => {
                proof {
                    assert(forwarded(all.take(k)) + seq![all[k]->Some_0] =~= forwarded(
                        all.take(k),
                    ).push(all[k]->Some_0));
                }
                sent.push(m);
            },
            None => {
                proof {
                    assert(forwarded(all.take(k)) + Seq::<Message>::empty() =~= forwarded(
                        all.take(k),
                    ));
                }
            },
        }
    }
    proof {
        assert(all.take(all.len() as int) =~= all);
    }
    sent
}

/// A dropped frame is invisible on the peer sink: the pump's output with a
/// dropped verdict in the middle is exactly its output without it, so the
/// frames before and after it still forward, in order.
pub proof fn lemma_drop_invisible(before: Seq<Option<Message>>, after: Seq<Option<Message>>)
    ensures
        forwarded(before + seq![Option::<Message>::None] + after) == forwarded(before + after),
    decreases after.len(),
{
    if after.len() == 0 {
        assert((before + seq![Option::<Message>::None] + after).drop_last() =~= before);
        assert(before + after =~= before);
    } else {
        lemma_drop_invisible(before, after.drop_last());
        assert((before + seq![Option::<Message>::None] + after).drop_last() =~= (before
            + seq![Option::<Message>::None] + after.drop_last()));
        assert((before + after).drop_last() =~= before + after.drop_last());
        assert((before + seq![Option::<Message>::None] + after).last() == after.last());
        assert((before + after).last() == after.last());
    }
}

/// A forwarded frame goes out after everything already forwarded: the pump
/// keeps each direction's order.
pub proof fn lemma_forward_appends(verdicts: Seq<Option<Message>>, m: Message)
    ensures
        forwarded(verdicts.push(Some(m))) == forwarded(verdicts).push(m),
{
    assert(verdicts.push(Some(m)).drop_last() =~= verdicts);
    assert(forwarded(verdicts) + seq![m] =~= forwarded(verdicts).push(m));
}

/// What the bridge sends in each direction, given the verdicts the two
/// message handlers produced: the server-to-client and client-to-server
/// pumps each forward their own verdicts, and nothing else.
pub open spec fn bridge_outputs(
    server_to_client: Seq<Option<Message>>,
    client_to_server: Seq<Option<Message>>,
) -> (Seq<Message>, Seq<Message>) {
    (forwarded(server_to_client), forwarded(client_to_server))
}

/// The two directions are independent: replacing one direction's verdicts —
/// dropping or rewriting any of its frames — leaves the other direction's
/// forwarded frames, and their order, unchanged.
pub proof fn lemma_direction_independence(
    incoming_a: Seq<Option<Message>>,
    incoming_b: Seq<Option<Message>>,
    outgoing: Seq<Option<Message>>,
)
    ensures
        bridge_outputs(incoming_a, outgoing).1 == bridge_outputs(incoming_b, outgoing).1,
        bridge_outputs(outgoing, incoming_a).0 == bridge_outputs(outgoing, incoming_b).0,
{
}

} // verus!
