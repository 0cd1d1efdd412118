use crate::config::Config;
use crate::message::{
    fragment_ids, into_queue, mix_packets, Emission, IntakePoll, RealMessage, StreamMessage,
};
use std::collections::VecDeque;
use vstd::prelude::*;

verus! {

/// The observable state of the scheduler.
pub struct OutQueueState<P, I> {
    pub config: Config,
    /// Instant (nanoseconds on the session clock) of the next emission.
    pub deadline: nat,
    /// Real messages already taken from intake and not yet emitted, front first.
    pub pending: Seq<RealMessage<P, I>>,
}

/// Result of a timer check.
pub enum Tick<P, I> {
    /// The deadline has not been reached yet.
    NotDue,
    /// The deadline was reached and a buffered real message is to be emitted.
    Real(RealMessage<P, I>),
    /// The deadline was reached and nothing is buffered: intake must be asked
    /// (without waiting) and its answer given to `on_intake`.
    PollIntake,
}

/// The decision that the intake's answer leads to when nothing is buffered:
/// `None` ends the scheduler.
pub open spec fn decide_from_intake<P, I>(poll: IntakePoll<P, I>) -> Option<StreamMessage<P, I>> {
    match poll {
        IntakePoll::Closed => None,
        IntakePoll::Pending => Some(StreamMessage::Cover),
        IntakePoll::Batch(b) => Some(StreamMessage::Real(b@[0])),
    }
}

/// What stays buffered after the intake's answer has been acted on.
pub open spec fn pending_after_intake<P, I>(poll: IntakePoll<P, I>) -> Seq<RealMessage<P, I>> {
    match poll {
        IntakePoll::Batch(b) => b@.drop_first(),
        _ => Seq::empty(),
    }
}

/// The identifiers that emitting a decision notifies: one for a real message,
/// none for cover.
pub open spec fn notified<P, I>(m: StreamMessage<P, I>) -> Seq<I> {
    match m {
        StreamMessage::Cover => Seq::empty(),
        StreamMessage::Real(r) => seq![r.fragment_id],
    }
}

/// An answer that intake may give: a delivered batch is never empty.
pub open spec fn intake_poll_valid<P, I>(poll: IntakePoll<P, I>) -> bool {
    poll matches IntakePoll::Batch(b) ==> b@.len() > 0
}

/// Poisson-paced scheduler of outgoing packets: decides, at each deadline,
/// whether a buffered real message, the first of a newly arrived batch, or a
/// loop cover packet goes out.
pub struct OutQueueControl<P, I> {
    config: Config,
    next_deadline: u64,
    received_buffer: VecDeque<RealMessage<P, I>>,
}

impl<P, I> View for OutQueueControl<P, I> {
    type V = OutQueueState<P, I>;

    closed spec fn view(&self) -> OutQueueState<P, I> {
        OutQueueState {
            config: self.config,
            deadline: self.next_deadline as nat,
            pending: self.received_buffer@,
        }
    }
}

impl<P, I> OutQueueControl<P, I> {
    /// A scheduler with an immediate deadline and nothing buffered.
    pub fn new(config: Config) -> (r: Self)
        ensures
            r@.config == config,
            r@.deadline == 0,
            r@.pending == Seq::<RealMessage<P, I>>::empty(),
    {
        OutQueueControl { config, next_deadline: 0, received_buffer: VecDeque::new() }
    }

    pub fn config(&self) -> (r: &Config)
        ensures
            *r == self@.config,
    {
        &self.config
    }

    pub fn deadline(&self) -> (r: u64)
        ensures
            r == self@.deadline,
    {
        self.next_deadline
    }

    pub fn pending_len(&self) -> (r: usize)
        ensures
            r == self@.pending.len(),
    {
        self.received_buffer.len()
    }

    /// Arms the timer at the start of shaped operation: the first deadline is
    /// `initial_delay` after `now`.
    pub fn start_shaped(&mut self, now: u64, initial_delay: u64)
        requires
            now + initial_delay <= u64::MAX,
        ensures
            final(self)@.deadline == now + initial_delay,
            final(self)@.config == old(self)@.config,
            final(self)@.pending == old(self)@.pending,
    {
        self.next_deadline = now + initial_delay;
    }

    /// Timer step. Once `now` has reached the deadline, the next deadline is
    /// the current one plus `sample` (whatever `now` is, so late processing
    /// never shifts the schedule), and the front of the buffer, if any, is
    /// handed out.
    pub fn poll_next(&mut self, now: u64, sample: u64) -> (r: Tick<P, I>)
        requires
            now < old(self)@.deadline || old(self)@.deadline + sample <= u64::MAX,
        ensures
            final(self)@.config == old(self)@.config,
            now < old(self)@.deadline ==> r is NotDue && final(self)@ == old(self)@,
            now >= old(self)@.deadline ==> {
                &&& final(self)@.deadline == old(self)@.deadline + sample
                &&& if old(self)@.pending.len() > 0 {
                    &&& r == Tick::Real(old(self)@.pending[0])
                    &&& final(self)@.pending == old(self)@.pending.drop_first()
                } else {
                    &&& r is PollIntake
                    &&& final(self)@.pending == old(self)@.pending
                }
            },
    {
        if now < self.next_deadline {
            return Tick::NotDue;
        }
        self.next_deadline = self.next_deadline + sample;
        match self.received_buffer.pop_front() {
            Some(m) => Tick::Real(m),
            None => Tick::PollIntake,
        }
    }

    /// Acts on intake's answer when nothing is buffered: a closed channel ends
    /// the scheduler (`None`); no batch means cover traffic; a batch is
    /// emitted from its first message on, the rest kept in order.
    pub fn on_intake(&mut self, intake: IntakePoll<P, I>) -> (r: Option<StreamMessage<P, I>>)
        requires
            old(self)@.pending.len() == 0,
            intake_poll_valid(intake),
        ensures
            r == decide_from_intake(intake),
            final(self)@.pending == pending_after_intake(intake),
            final(self)@.deadline == old(self)@.deadline,
            final(self)@.config == old(self)@.config,
    {
        match intake {
            IntakePoll::Closed => None,
            IntakePoll::Pending => Some(StreamMessage::Cover),
            IntakePoll::Batch(batch) => {
                let ghost b = batch@;
                let mut q = into_queue(batch);
                let first = q.pop_front().unwrap();
                self.received_buffer = q;
                assert(self.received_buffer@ =~= b.drop_first());
                Some(StreamMessage::Real(first))
            },
        }
    }

    /// Emission step of shaped operation: a cover decision asks for a loop
    /// cover packet built with the configured per-hop delays; a real one
    /// notifies its identifier and sends its packet alone.
    pub fn on_message(&self, next_message: StreamMessage<P, I>) -> (r: Emission<P, I>)
        ensures
            match next_message {
                StreamMessage::Cover => r == Emission::<P, I>::Cover {
                    average_ack_delay: self@.config.average_ack_delay,
                    average_packet_delay: self@.config.average_packet_delay,
                },
                StreamMessage::Real(m) => r matches Emission::Real { notifications, packets }
                    && packets@ == seq![m.mix_packet],
            },
            r matches Emission::Real { notifications, .. } ==> notifications@ == notified(
                next_message,
            ),
    {
        match next_message {
            StreamMessage::Cover => Emission::Cover {
                average_ack_delay: self.config.average_ack_delay,
                average_packet_delay: self.config.average_packet_delay,
            },
            StreamMessage::Real(m) => {
                let mut notifications: Vec<I> = Vec::new();
                let mut packets: Vec<P> = Vec::new();
                notifications.push(m.fragment_id);
                packets.push(m.mix_packet);
                assert(notifications@ =~= seq![m.fragment_id]);
                assert(packets@ =~= seq![m.mix_packet]);
                Emission::Real { notifications, packets }
            },
        }
    }

    /// Emission step of unshaped operation: every message of the batch is
    /// notified, in order, and all packets go downstream as one batch.
    pub fn on_batch_received(&self, real_messages: Vec<RealMessage<P, I>>) -> (r: Emission<P, I>)
        ensures
            r matches Emission::Real { notifications, packets }
                && notifications@ == fragment_ids(real_messages@)
                && packets@ == mix_packets(real_messages@),
    {
        let ghost all = real_messages@;
        let mut queue = into_queue(real_messages);
        let mut notifications: Vec<I> = Vec::new();
        let mut packets: Vec<P> = Vec::new();
        let ghost mut done: int = 0;
        while queue.len() > 0
            invariant
                0 <= done <= all.len(),
                queue@ == all.subrange(done, all.len() as int),
                notifications@ == fragment_ids(all.subrange(0, done)),
                packets@ == mix_packets(all.subrange(0, done)),
            decreases queue@.len(),
        {
            let m = queue.pop_front().unwrap();
            notifications.push(m.fragment_id);
            packets.push(m.mix_packet);
            proof {
                assert(all.subrange(0, done + 1) =~= all.subrange(0, done).push(m));
                done = done + 1;
            }
        }
        assert(all.subrange(0, done) =~= all);
        Emission::Real { notifications, packets }
    }
}

} // verus!
