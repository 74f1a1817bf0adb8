//! The consumer of a batch of stream records: it holds the events of the
//! batch, in their order, until they are taken for processing.

use vstd::prelude::*;
use std::collections::VecDeque;
use crate::ingest::UserAction;
use crate::pipeline::events::{Consumed, Created, Event, EventId};
use crate::pipeline::stream::StreamError;

verus! {

/// The events that a load of `decoded` queues, in order: the events of the
/// records before the first one that failed to decode, each now in the
/// `Consumed` state.
pub open spec fn accepted_events(decoded: Seq<Result<Event<UserAction, Created>, String>>) -> Seq<
    Event<UserAction, Consumed>,
>
    decreases decoded.len(),
{
    if decoded.len() == 0 {
        Seq::empty()
    } else {
        match decoded[0] {
            Ok(event) => seq![event.in_state::<Consumed>()] + accepted_events(decoded.drop_first()),
            Err(_) => Seq::empty(),
        }
    }
}

/// Why the first record that failed to decode failed, if one did.
pub open spec fn first_decode_error(decoded: Seq<Result<Event<UserAction, Created>, String>>) -> Option<
    Seq<char>,
>
    decreases decoded.len(),
{
    if decoded.len() == 0 {
        None
    } else {
        match decoded[0] {
            Ok(_) => first_decode_error(decoded.drop_first()),
            Err(reason) => Some(reason@),
        }
    }
}

/// Holds the events of a batch of stream records until they are consumed,
/// first in, first out.
#[derive(Debug)]
pub struct KinesisBatchConsumer {
    pending: VecDeque<Event<UserAction, Consumed>>,
}

impl View for KinesisBatchConsumer {
    type V = Seq<Event<UserAction, Consumed>>;

    closed spec fn view(&self) -> Seq<Event<UserAction, Consumed>> {
        self.pending@
    }
}

impl KinesisBatchConsumer {
    /// A consumer with nothing pending.
    pub fn new() -> (r: Self)
        ensures
            r@ == Seq::<Event<UserAction, Consumed>>::empty(),
    {
        KinesisBatchConsumer { pending: VecDeque::new() }
    }

    /// Queues the events of a batch, given as what decoding each record
    /// gave: each event is queued in the `Consumed` state, in order, up to the
    /// first record that failed to decode; that record's failure is returned
    /// as a `ConsumeError`, and the records after it are left alone.
    pub fn load(&mut self, decoded: Vec<Result<Event<UserAction, Created>, String>>) -> (r: Result<
        (),
        StreamError,
    >)
        ensures
            final(self)@ == old(self)@ + accepted_events(decoded@),
            match first_decode_error(decoded@) {
                None => r is Ok,
                Some(reason) => r matches Err(StreamError::ConsumeError(e)) && e@ == reason,
            },
    {
        let ghost start = self.pending@;
        let ghost all = decoded@;
        let mut rest: Vec<Result<Event<UserAction, Created>, String>> = Vec::new();
        let mut source = decoded;
        while source.len() > 0
            invariant
                source@ + rest@.reverse() == all,
            decreases source@.len(),
        {
            let ghost before = source@;
            let ghost reversed = rest@.reverse();
            let item = source.pop().unwrap();
            rest.push(item);
            proof {
                assert(rest@.reverse() =~= seq![item] + reversed);
                assert(before =~= source@.push(item));
                assert(source@ + rest@.reverse() =~= before + reversed);
            }
        }
        assert(rest@.reverse() =~= all);
        while rest.len() > 0
            invariant
                start == old(self)@,
                all == decoded@,
                start + accepted_events(all) == self.pending@ + accepted_events(rest@.reverse()),
                first_decode_error(all) == first_decode_error(rest@.reverse()),
            decreases rest@.len(),
        {
            let ghost before = rest@.reverse();
            let item = rest.pop().unwrap();
            proof {
                assert(before[0] == item);
                assert(before.drop_first() =~= rest@.reverse());
            }
            match item {
                Ok(event) => {
                    let consumed: Event<UserAction, Consumed> = event.transition();
                    let ghost queued = self.pending@;
                    self.pending.push_back(consumed);
                    proof {
                        let tail = accepted_events(rest@.reverse());
                        assert(queued + (seq![consumed] + tail) =~= queued.push(consumed) + tail);
                    }
                },
                Err(reason) => {
                    proof {
                        assert(accepted_events(before) =~= Seq::empty());
                        assert(self.pending@ + Seq::empty() =~= self.pending@);
                    }
                    return Err(StreamError::ConsumeError(reason));
                },
            }
        }
        proof {
            assert(rest@.reverse() =~= Seq::empty());
            assert(self.pending@ + Seq::empty() =~= self.pending@);
        }
        Ok(())
    }

    /// Takes the event that has waited longest, if any is pending; this
    /// never fails.
    pub fn consume(&mut self) -> (r: Result<Option<Event<UserAction, Consumed>>, StreamError>)
        ensures
            old(self)@.len() == 0 ==> (r matches Ok(None) && final(self)@ == old(self)@),
            old(self)@.len() > 0 ==> (r matches Ok(Some(event)) && event == old(self)@[0]
                && final(self)@ == old(self)@.drop_first()),
    {
        let next = self.pending.pop_front();
        proof {
            if old(self)@.len() > 0 {
                assert(self.pending@ =~= old(self)@.drop_first());
            }
        }
        Ok(next)
    }

    /// Acknowledges that the event `event_id` was processed; there is
    /// nothing to record, so this never fails.
    pub fn ack(&self, _event_id: &EventId) -> (r: Result<(), StreamError>)
        ensures
            r is Ok,
    {
        Ok(())
    }
}

impl Default for KinesisBatchConsumer {
    fn default() -> (r: Self)
        ensures
            r@ == Seq::<Event<UserAction, Consumed>>::empty(),
    {
        Self::new()
    }
}

/// Events leave the consumer in the order in which they were loaded: after
/// a batch is loaded behind the events already pending, the first event out
/// is the oldest pending one (or the batch's first, if none was pending), and
/// once the older events are consumed, what remains is the batch, in order.
pub proof fn law_first_in_first_out(
    pending: Seq<Event<UserAction, Consumed>>,
    batch: Seq<Event<UserAction, Consumed>>,
)
    requires
        pending.len() + batch.len() > 0,
    ensures
        (pending + batch)[0] == (if pending.len() > 0 { pending[0] } else { batch[0] }),
        (pending + batch).skip(pending.len() as int) == batch,
{
    assert((pending + batch).skip(pending.len() as int) =~= batch);
}

} // verus!
