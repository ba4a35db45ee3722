//! The print intercept: guest output is queued on the host instead of being
//! written to the process's own streams.

use vstd::prelude::*;

verus! {

/// One unit of captured guest output.
#[derive(Debug)]
pub struct StdioMsg {
    pub msg: String,
    pub is_err: bool,
}

/// A captured message as a mathematical value.
pub struct StdioMsgView {
    pub msg: Seq<char>,
    pub is_err: bool,
}

impl View for StdioMsg {
    type V = StdioMsgView;

    open spec fn view(&self) -> StdioMsgView {
        StdioMsgView { msg: self.msg@, is_err: self.is_err }
    }
}

/// The views of a run of messages, in the same order.
pub open spec fn messages_view(messages: Seq<StdioMsg>) -> Seq<StdioMsgView> {
    messages.map_values(|m: StdioMsg| m@)
}

/// The host end of the print intercept: an unbounded first-in first-out
/// queue of the messages that the guest has emitted and nobody has collected.
pub struct HostBridge {
    queued: Vec<StdioMsg>,
}

impl View for HostBridge {
    type V = Seq<StdioMsgView>;

    closed spec fn view(&self) -> Seq<StdioMsgView> {
        messages_view(self.queued@)
    }
}

impl HostBridge {
    /// A bridge with nothing queued.
    pub fn new() -> (bridge: HostBridge)
        ensures
            bridge@ == Seq::<StdioMsgView>::empty(),
    {
        let bridge = HostBridge { queued: Vec::new() };
        assert(bridge@ =~= Seq::<StdioMsgView>::empty());
        bridge
    }

    /// Queues one message behind all that are waiting.
    pub fn send(&mut self, message: StdioMsg)
        ensures
            final(self)@ == old(self)@.push(message@),
    {
        self.queued.push(message);
        assert(self@ =~= old(self)@.push(message@));
    }

    /// Takes everything that is queued, oldest first, and leaves the queue
    /// empty. Never waits for more.
    pub fn drain(&mut self) -> (collected: Vec<StdioMsg>)
        ensures
            messages_view(collected@) == old(self)@,
            final(self)@ == Seq::<StdioMsgView>::empty(),
    {
        let mut collected: Vec<StdioMsg> = Vec::new();
        std::mem::swap(&mut self.queued, &mut collected);
        assert(self@ =~= Seq::<StdioMsgView>::empty());
        collected
    }

    /// How many messages are waiting.
    pub fn pending(&self) -> (count: usize)
        ensures
            count == self@.len(),
    {
        self.queued.len()
    }
}

/// The print primitive handed to the guest: queues `msg`, flagged as error
/// output or not, on the host's bridge, text and flag as they are. The
/// process's own streams are never touched.
pub fn op_print(state: &mut HostBridge, msg: &str, is_err: bool)
    ensures
        final(state)@ == old(state)@.push(StdioMsgView { msg: msg@, is_err }),
{
    state.send(StdioMsg { msg: msg.to_owned(), is_err });
}

/// One thing that can happen to a bridge: the guest prints, or the host
/// collects what is queued.
pub enum BridgeOp {
    Print(StdioMsgView),
    Poll,
}

/// The messages printed by a run of operations, in the order of printing.
pub open spec fn printed(ops: Seq<BridgeOp>) -> Seq<StdioMsgView>
    decreases ops.len(),
{
    if ops.len() == 0 {
        Seq::empty()
    } else {
        match ops.last() {
            BridgeOp::Print(message) => printed(ops.drop_last()).push(message),
            BridgeOp::Poll => printed(ops.drop_last()),
        }
    }
}

/// What is still queued after a run of operations on a bridge that held
/// `queued` before it.
pub open spec fn queued_after(queued: Seq<StdioMsgView>, ops: Seq<BridgeOp>) -> Seq<StdioMsgView>
    decreases ops.len(),
{
    if ops.len() == 0 {
        queued
    } else {
        match ops.last() {
            BridgeOp::Print(message) => queued_after(queued, ops.drop_last()).push(message),
            BridgeOp::Poll => Seq::empty(),
        }
    }
}

/// Everything that the polls of a run of operations have handed out, one
/// poll's yield after the other.
pub open spec fn delivered(queued: Seq<StdioMsgView>, ops: Seq<BridgeOp>) -> Seq<StdioMsgView>
    decreases ops.len(),
{
    if ops.len() == 0 {
        Seq::empty()
    } else {
        match ops.last() {
            BridgeOp::Print(_) => delivered(queued, ops.drop_last()),
            BridgeOp::Poll => delivered(queued, ops.drop_last()) + queued_after(
                queued,
                ops.drop_last(),
            ),
        }
    }
}

/// However polls are spread among the prints, what they hand out, followed
/// by what is still queued, is exactly what was queued at the start followed
/// by every printed message in the order of printing. So no message is lost,
/// none is handed out twice, and none overtakes another.
pub proof fn lemma_polls_keep_order(queued: Seq<StdioMsgView>, ops: Seq<BridgeOp>)
    ensures
        delivered(queued, ops) + queued_after(queued, ops) == queued + printed(ops),
    decreases ops.len(),
{
    if ops.len() == 0 {
        assert(delivered(queued, ops) + queued_after(queued, ops) =~= queued + printed(ops));
    } else {
        let head = ops.drop_last();
        lemma_polls_keep_order(queued, head);
        match ops.last() {
            BridgeOp::Print(message) => {
                assert(delivered(queued, ops) + queued_after(queued, ops) =~= (delivered(
                    queued,
                    head,
                ) + queued_after(queued, head)).push(message));
                assert(queued + printed(ops) =~= (queued + printed(head)).push(message));
            },
            BridgeOp::Poll => {
                assert(delivered(queued, ops) + queued_after(queued, ops) =~= delivered(
                    queued,
                    head,
                ) + queued_after(queued, head));
            },
        }
    }
}

} // verus!
