//! Properties of the supervisor that hold for all inputs.
use vstd::prelude::*;
use crate::protocol::{fields, marker, parse_spec, Parsed};
use crate::session::{
    next_status, step_actions, text_actions, ActionView, EventView, FrameView, OutView, Status,
};

verus! {

/// Whether the actions ask the notifier for anything.
pub open spec fn notifies(acts: Seq<ActionView>) -> bool {
    exists|i: int| 0 <= i < acts.len() && (#[trigger] acts[i]) is Notify
}

proof fn lemma_fields_single(a: Seq<char>)
    requires
        !a.contains(':'),
    ensures
        fields(a) == seq![a],
    decreases a.len(),
{
    if a.len() > 0 {
        assert(!a.drop_last().contains(':')) by {
            if a.drop_last().contains(':') {
                let i = choose|i: int| 0 <= i < a.drop_last().len() && a.drop_last()[i] == ':';
                assert(a[i] == ':');
            }
        }
        assert(a.last() != ':') by {
            assert(a[a.len() - 1] == a.last());
        }
        lemma_fields_single(a.drop_last());
        assert(a.drop_last().push(a.last()) =~= a);
        assert(fields(a) =~= seq![a]);
    } else {
        assert(a =~= Seq::<char>::empty());
    }
}

proof fn lemma_fields_join(a: Seq<char>, b: Seq<char>)
    ensures
        fields(a + seq![':'] + b) == fields(a) + fields(b),
    decreases b.len(),
{
    crate::protocol::lemma_fields_len(a);
    let t = a + seq![':'] + b;
    if b.len() == 0 {
        assert(t.drop_last() =~= a);
        assert(fields(b) =~= seq![Seq::<char>::empty()]);
        assert(fields(t) =~= fields(a) + fields(b));
    } else {
        lemma_fields_join(a, b.drop_last());
        crate::protocol::lemma_fields_len(b.drop_last());
        assert(t.drop_last() =~= a + seq![':'] + b.drop_last());
        assert(t.last() == b.last());
        assert(fields(t) =~= fields(a) + fields(b));
    }
}

/// A message `CURRENT_SERVER_STATE:<n>:<flag>` prints `<n> online` (with the
/// queue notice when the flag is the literal `true`), and asks the notifier for
/// something exactly when the flag is the literal `true`.
pub proof fn law_server_state_message(n: Seq<char>, flag: Seq<char>)
    requires
        !n.contains(':'),
        !flag.contains(':'),
    ensures
        ({
            let acts = text_actions(marker() + seq![':'] + n + seq![':'] + flag);
            &&& acts[2] == ActionView::Print(
                n + if flag == "true"@ {
                    " online - someone in queue!\n"@
                } else {
                    " online\n"@
                },
            )
            &&& (notifies(acts) <==> flag == "true"@)
        }),
{
    let t = marker() + seq![':'] + n + seq![':'] + flag;
    reveal_strlit("CURRENT_SERVER_STATE");
    assert(!marker().contains(':'));
    lemma_fields_single(marker());
    lemma_fields_single(n);
    lemma_fields_single(flag);
    lemma_fields_join(marker(), n);
    lemma_fields_join(marker() + seq![':'] + n, flag);
    assert(fields(t) =~= seq![marker(), n, flag]);
    assert(marker().is_prefix_of(t)) by {
        assert(t.subrange(0, marker().len() as int) =~= marker());
    }
    assert(parse_spec(t) == Parsed::ServerState { online: n, queued: flag == "true"@ });
    let acts = text_actions(t);
    if flag == "true"@ {
        assert(acts[3] is Notify);
    } else {
        assert(forall|i: int| 0 <= i < acts.len() ==> !(#[trigger] acts[i] is Notify));
    }
}

/// A text that does not start with the marker is printed as it is, and asks
/// the notifier for nothing.
pub proof fn law_plain_text_echoed(t: Seq<char>)
    requires
        !marker().is_prefix_of(t),
    ensures
        text_actions(t)[2] == ActionView::Print(t + "\n"@),
        !notifies(text_actions(t)),
{
    let acts = text_actions(t);
    assert(forall|i: int| 0 <= i < acts.len() ==> !(#[trigger] acts[i] is Notify));
}

/// A text with the marker but fewer than three fields is reported as
/// malformed and dropped: nothing is sent and the notifier is not asked.
pub proof fn law_malformed_dropped(t: Seq<char>)
    requires
        marker().is_prefix_of(t),
        fields(t).len() < 3,
    ensures
        text_actions(t)[2] == ActionView::Print("malformed server state message\n"@),
        !notifies(text_actions(t)),
        forall|i: int| 0 <= i < text_actions(t).len() ==> !(#[trigger] text_actions(t)[i] is Send),
{
    let acts = text_actions(t);
    assert(forall|i: int| 0 <= i < acts.len() ==> !(#[trigger] acts[i] is Notify));
}

/// In a connected session a ping is answered by exactly one pong with the same
/// payload, and by nothing else.
pub proof fn law_ping_answered(p: Seq<u8>)
    ensures
        step_actions(Status::Connected, EventView::Frame(FrameView::Ping(p)))
            == seq![ActionView::Send(OutView::Pong(p))],
{
}

/// Each heartbeat tick of a connected session sends exactly one ping with an
/// empty payload; a tick of a session that is not connected sends nothing.
/// A tick never changes the status.
pub proof fn law_heartbeat(s: Status)
    ensures
        step_actions(s, EventView::Tick) == if s == Status::Connected {
            seq![ActionView::Send(OutView::Ping(Seq::<u8>::empty()))]
        } else {
            Seq::<ActionView>::empty()
        },
        next_status(s, EventView::Tick) == s,
{
    assert(seq![ActionView::Send(OutView::Ping(seq![]))] =~= seq![
        ActionView::Send(OutView::Ping(Seq::<u8>::empty())),
    ]);
}

/// When the stream ends, a new connection is asked for; until it is made,
/// ticks, frames and commands do nothing; once it is made the session is
/// connected again.
pub proof fn law_disconnect_reconnects(s: Status, f: FrameView, line: Seq<char>)
    ensures
        ({
            let down = next_status(s, EventView::StreamEnded);
            &&& step_actions(s, EventView::StreamEnded).last() == ActionView::Reconnect
            &&& step_actions(down, EventView::Tick).len() == 0
            &&& step_actions(down, EventView::Frame(f)).len() == 0
            &&& step_actions(down, EventView::Command(line)).len() == 0
            &&& next_status(down, EventView::Connected) == Status::Connected
        }),
{
}

} // verus!
