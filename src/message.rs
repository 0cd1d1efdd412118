use std::collections::VecDeque;
use vstd::prelude::*;

verus! {

/// A fully prepared network packet together with the identifier of the
/// fragment it carries. The scheduler never looks inside either: the packet
/// is forwarded, the identifier is handed to retransmission tracking.
pub struct RealMessage<P, I> {
    pub mix_packet: P,
    pub fragment_id: I,
}

impl<P, I> RealMessage<P, I> {
    pub fn new(mix_packet: P, fragment_id: I) -> (r: Self)
        ensures
            r.mix_packet == mix_packet,
            r.fragment_id == fragment_id,
    {
        RealMessage { mix_packet, fragment_id }
    }
}

/// Outcome of one scheduling decision.
pub enum StreamMessage<P, I> {
    /// Nothing real is ready: a loop cover packet has to be synthesised.
    Cover,
    /// A real message to be forwarded.
    Real(RealMessage<P, I>),
}

/// What the intake channel yields when the scheduler asks it for a batch
/// without waiting.
pub enum IntakePoll<P, I> {
    /// Every sender is gone: no real message can arrive any more.
    Closed,
    /// The channel is open but holds no batch right now.
    Pending,
    /// The next batch, in submission order. Never empty.
    Batch(Vec<RealMessage<P, I>>),
}

/// What the emission step hands to the outside world.
pub enum Emission<P, I> {
    /// Build one loop cover packet addressed to ourselves, with these mean
    /// per-hop delays (nanoseconds), and send it as a batch of one.
    Cover { average_ack_delay: u64, average_packet_delay: u64 },
    /// Notify retransmission tracking of each identifier, in order, then send
    /// all packets downstream as one batch.
    Real { notifications: Vec<I>, packets: Vec<P> },
}

/// Identifiers of a sequence of real messages, in order.
pub open spec fn fragment_ids<P, I>(msgs: Seq<RealMessage<P, I>>) -> Seq<I> {
    msgs.map_values(|m: RealMessage<P, I>| m.fragment_id)
}

/// Packets of a sequence of real messages, in order.
pub open spec fn mix_packets<P, I>(msgs: Seq<RealMessage<P, I>>) -> Seq<P> {
    msgs.map_values(|m: RealMessage<P, I>| m.mix_packet)
}

/// Moves the items of `v` into a double-ended queue, keeping their order.
pub fn into_queue<T>(v: Vec<T>) -> (q: VecDeque<T>)
    ensures
        q@ == v@,
{
    let ghost all = v@;
    let mut rest = v;
    let mut q: VecDeque<T> = VecDeque::new();
    while rest.len() > 0
        invariant
            rest@ + q@ == all,
        decreases rest.len(),
    {
        let ghost before = rest@;
        let x = rest.pop().unwrap();
        q.push_front(x);
        assert(rest@ + q@ =~= before + (q@.drop_first()));
    }
    assert(rest@ + q@ =~= q@);
    q
}

} // verus!
