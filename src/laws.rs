use crate::message::{IntakePoll, RealMessage, StreamMessage};
use crate::message::fragment_ids;
use crate::out_queue::{decide_from_intake, intake_poll_valid, notified, pending_after_intake};
use vstd::prelude::*;

verus! {

/// Every batch that intake hands out is non-empty.
pub open spec fn intake_polls_valid<P, I>(polls: Seq<IntakePoll<P, I>>) -> bool {
    forall|i: int| 0 <= i < polls.len() ==> #[trigger] intake_poll_valid(polls[i])
}

/// The decisions of shaped operation, tick after tick, starting with `pending`
/// buffered, where `polls` are intake's successive answers. Intake is asked
/// only on a tick where nothing is buffered; the run stops when intake
/// reports closure or has no answer left.
pub open spec fn shaped_run<P, I>(
    pending: Seq<RealMessage<P, I>>,
    polls: Seq<IntakePoll<P, I>>,
) -> Seq<StreamMessage<P, I>>
    decreases polls.len(), pending.len(),
{
    if pending.len() > 0 {
        seq![StreamMessage::Real(pending[0])] + shaped_run(pending.drop_first(), polls)
    } else if polls.len() == 0 {
        Seq::empty()
    } else {
        match decide_from_intake(polls[0]) {
            None => Seq::empty(),
            Some(m) => seq![m] + shaped_run(pending_after_intake(polls[0]), polls.drop_first()),
        }
    }
}

/// The real messages among a sequence of decisions, in order.
pub open spec fn real_messages<P, I>(s: Seq<StreamMessage<P, I>>) -> Seq<RealMessage<P, I>>
    decreases s.len(),
{
    if s.len() == 0 {
        Seq::empty()
    } else {
        let rest = real_messages(s.drop_first());
        match s[0] {
            StreamMessage::Real(m) => seq![m] + rest,
            StreamMessage::Cover => rest,
        }
    }
}

/// The concatenation, in delivery order, of the batches intake hands out
/// before it reports closure.
pub open spec fn delivered<P, I>(polls: Seq<IntakePoll<P, I>>) -> Seq<RealMessage<P, I>>
    decreases polls.len(),
{
    if polls.len() == 0 {
        Seq::empty()
    } else {
        match polls[0] {
            IntakePoll::Closed => Seq::empty(),
            IntakePoll::Pending => delivered(polls.drop_first()),
            IntakePoll::Batch(b) => b@ + delivered(polls.drop_first()),
        }
    }
}

/// The identifiers notified while emitting a sequence of decisions, in order.
pub open spec fn notifications<P, I>(s: Seq<StreamMessage<P, I>>) -> Seq<I>
    decreases s.len(),
{
    if s.len() == 0 {
        Seq::empty()
    } else {
        notified(s[0]) + notifications(s.drop_first())
    }
}

/// One notification per real message: emitting any sequence of decisions
/// notifies exactly the identifiers of its real messages, once each and in
/// emission order, and nothing for cover decisions.
pub proof fn lemma_one_notification_per_real<P, I>(s: Seq<StreamMessage<P, I>>)
    ensures
        notifications(s) == fragment_ids(real_messages(s)),
    decreases s.len(),
{
    if s.len() > 0 {
        lemma_one_notification_per_real(s.drop_first());
        let rest = real_messages(s.drop_first());
        match s[0] {
            StreamMessage::Real(m) => {
                assert(fragment_ids(seq![m] + rest) =~= seq![m.fragment_id] + fragment_ids(rest));
            },
            StreamMessage::Cover => {
                assert(notified(s[0]) + notifications(s.drop_first()) =~= notifications(
                    s.drop_first(),
                ));
            },
        }
    } else {
        assert(fragment_ids(real_messages(s)) =~= Seq::<I>::empty());
    }
}

/// Every decision is a cover decision.
pub open spec fn all_cover<P, I>(s: Seq<StreamMessage<P, I>>) -> bool {
    forall|i: int| 0 <= i < s.len() ==> #[trigger] s[i] is Cover
}

/// Order preservation and no loss: the real messages that shaped operation
/// emits are exactly what was buffered followed by every delivered batch,
/// each once, in delivery order and item by item within a batch.
pub proof fn lemma_real_order_preserved<P, I>(
    pending: Seq<RealMessage<P, I>>,
    polls: Seq<IntakePoll<P, I>>,
)
    requires
        intake_polls_valid(polls),
    ensures
        real_messages(shaped_run(pending, polls)) == pending + delivered(polls),
    decreases polls.len(), pending.len(),
{
    let run = shaped_run(pending, polls);
    if pending.len() > 0 {
        let m = StreamMessage::Real(pending[0]);
        lemma_real_order_preserved(pending.drop_first(), polls);
        assert(run == seq![m] + shaped_run(pending.drop_first(), polls));
        assert(run.drop_first() =~= shaped_run(pending.drop_first(), polls));
        assert(real_messages(run) == seq![pending[0]] + real_messages(run.drop_first()));
        assert(pending =~= seq![pending[0]] + pending.drop_first());
        assert(pending + delivered(polls) =~= seq![pending[0]] + (pending.drop_first()
            + delivered(polls)));
    } else if polls.len() == 0 {
        assert(pending + delivered(polls) =~= Seq::<RealMessage<P, I>>::empty());
    } else {
        let rest = polls.drop_first();
        assert(intake_poll_valid(polls[0]));
        assert(intake_polls_valid(rest)) by {
            assert forall|i: int| 0 <= i < rest.len() implies #[trigger] intake_poll_valid(
                rest[i],
            ) by {
                assert(intake_poll_valid(polls[i + 1]));
            }
        }
        match polls[0] {
            IntakePoll::Closed => {
                assert(pending + delivered(polls) =~= Seq::<RealMessage<P, I>>::empty());
            },
            IntakePoll::Pending => {
                let m = StreamMessage::<P, I>::Cover;
                lemma_real_order_preserved(pending, rest);
                assert(pending =~= pending_after_intake(polls[0]));
                assert(run == seq![m] + shaped_run(pending, rest));
                assert(run.drop_first() =~= shaped_run(pending, rest));
                assert(real_messages(run) == real_messages(run.drop_first()));
            },
            IntakePoll::Batch(b) => {
                let m = StreamMessage::Real(b@[0]);
                lemma_real_order_preserved(b@.drop_first(), rest);
                assert(run == seq![m] + shaped_run(b@.drop_first(), rest));
                assert(run.drop_first() =~= shaped_run(b@.drop_first(), rest));
                assert(real_messages(run) == seq![b@[0]] + real_messages(run.drop_first()));
                assert(b@ =~= seq![b@[0]] + b@.drop_first());
                assert(pending + delivered(polls) =~= seq![b@[0]] + (b@.drop_first() + delivered(
                    rest,
                )));
            },
        }
    }
}

/// Cover fill: with nothing buffered and intake holding no batch for `n`
/// consecutive ticks, shaped operation makes exactly `n` decisions, all of
/// them cover decisions.
pub proof fn lemma_cover_fill<P, I>(polls: Seq<IntakePoll<P, I>>)
    requires
        forall|i: int| 0 <= i < polls.len() ==> #[trigger] polls[i] is Pending,
    ensures
        shaped_run(Seq::<RealMessage<P, I>>::empty(), polls).len() == polls.len(),
        all_cover(shaped_run(Seq::<RealMessage<P, I>>::empty(), polls)),
    decreases polls.len(),
{
    if polls.len() > 0 {
        let rest = polls.drop_first();
        assert(polls[0] is Pending);
        assert forall|i: int| 0 <= i < rest.len() implies #[trigger] rest[i] is Pending by {
            assert(polls[i + 1] is Pending);
        }
        lemma_cover_fill(rest);
        assert(pending_after_intake(polls[0]) =~= Seq::<RealMessage<P, I>>::empty());
        let run = shaped_run(Seq::<RealMessage<P, I>>::empty(), polls);
        let tail = shaped_run(Seq::<RealMessage<P, I>>::empty(), rest);
        assert(run == seq![StreamMessage::<P, I>::Cover] + tail);
        assert forall|i: int| 0 <= i < run.len() implies #[trigger] run[i] is Cover by {
            if i > 0 {
                assert(run[i] == tail[i - 1]);
            }
        }
    }
}

/// Termination: once intake reports closure, shaped operation emits what was
/// still buffered, in order, and nothing else, whatever would have come after.
pub proof fn lemma_closure_terminates<P, I>(
    pending: Seq<RealMessage<P, I>>,
    polls: Seq<IntakePoll<P, I>>,
)
    requires
        polls.len() > 0,
        polls[0] is Closed,
    ensures
        shaped_run(pending, polls) == pending.map_values(
            |m: RealMessage<P, I>| StreamMessage::Real(m),
        ),
    decreases pending.len(),
{
    if pending.len() > 0 {
        lemma_closure_terminates(pending.drop_first(), polls);
    }
    assert(shaped_run(pending, polls) =~= pending.map_values(
        |m: RealMessage<P, I>| StreamMessage::Real(m),
    ));
}

/// The deadline after each sample in turn has been added to the previous one.
pub open spec fn deadline_after(deadline0: nat, samples: Seq<nat>) -> nat
    decreases samples.len(),
{
    if samples.len() == 0 {
        deadline0
    } else {
        deadline_after(deadline0, samples.drop_last()) + samples.last()
    }
}

/// The sum of a sequence of intervals.
pub open spec fn total(samples: Seq<nat>) -> nat
    decreases samples.len(),
{
    if samples.len() == 0 {
        0
    } else {
        samples[0] + total(samples.drop_first())
    }
}

proof fn lemma_total_push(samples: Seq<nat>, x: nat)
    ensures
        total(samples.push(x)) == total(samples) + x,
    decreases samples.len(),
{
    if samples.len() > 0 {
        lemma_total_push(samples.drop_first(), x);
        assert(samples.push(x)[0] == samples[0]);
        assert(samples.push(x).drop_first() =~= samples.drop_first().push(x));
    } else {
        assert(samples.push(x).drop_first() =~= Seq::<nat>::empty());
        assert(samples.push(x)[0] == x);
        assert(total(Seq::<nat>::empty()) == 0);
    }
}

/// Drift-freedom: deadlines accumulate from the previous deadline, so after
/// any run of samples the deadline is the first one plus their sum exactly.
pub proof fn lemma_deadlines_accumulate(deadline0: nat, samples: Seq<nat>)
    ensures
        deadline_after(deadline0, samples) == deadline0 + total(samples),
    decreases samples.len(),
{
    if samples.len() > 0 {
        lemma_deadlines_accumulate(deadline0, samples.drop_last());
        lemma_total_push(samples.drop_last(), samples.last());
        assert(samples.drop_last().push(samples.last()) =~= samples);
    }
}

} // verus!
