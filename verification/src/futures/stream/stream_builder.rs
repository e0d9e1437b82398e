//! A builder of streams: items sent to it before it is built make the stream.
use vstd::prelude::*;

use std::sync::mpsc::{Receiver, Sender};

use super::channel::{channel, clone_sender, send_value, Inbox, Received, StreamPoll};

verus! {

/// A sender of items for an `StreamBuilder`.
#[verifier::reject_recursive_types(T)]
pub struct StreamSender<T> {
    sender: Sender<Option<T>>,
}

impl<T> StreamSender<T> {
    /// Sends an item to the stream.
    ///
    /// Where the stream is gone, the item is handed back.
    pub fn send(&self, item: T) -> (r: Result<(), T>)
        ensures
            r matches Err(v) ==> v == item,
    {
        let ghost given = item;
        match send_value(&self.sender, Some(item)) {
            Ok(()) => Ok(()),
            Err(v) => match v {
                Some(x) => Err(x),
                None => {
                    // A failed send hands back what was given: an item.
                    assert(v == Some(given));
                    Ok(())
                },
            },
        }
    }

    /// Marks the end of the stream: what is sent after it is not part of it.
    /// Tells whether the mark was delivered.
    fn finish(&self) -> bool {
        match send_value(&self.sender, None) {
            Ok(()) => true,
            Err(_) => false,
        }
    }
}

impl<T> Clone for StreamSender<T> {
    fn clone(&self) -> Self {
        StreamSender { sender: clone_sender(&self.sender) }
    }
}

/// A stream builder for creating `Stream`s.
#[verifier::reject_recursive_types(T)]
pub struct StreamBuilder<T> {
    sender: StreamSender<T>,
    receiver: Inbox<Option<T>>,
}

/// The stream that a builder built.
#[verifier::reject_recursive_types(T)]
pub struct BuiltStream<T> {
    receiver: Inbox<Option<T>>,
    done: bool,
}

/// One step of a built stream: a finished stream stays finished; otherwise
/// an item is handed on, the end mark finishes the stream, an empty channel
/// gives nothing yet, and a channel cut before the end mark is reported.
pub open spec fn built_step<T>(done: bool, received: Received<Option<T>>) -> (bool, StreamPoll<T>) {
    if done {
        (true, StreamPoll::Done)
    } else {
        match received {
            Received::Item(Some(v)) => (false, StreamPoll::Item(v)),
            Received::Item(None) => (true, StreamPoll::Done),
            Received::Empty => (false, StreamPoll::Pending),
            Received::Disconnected => (false, StreamPoll::Disconnected),
        }
    }
}

/// One step of a built stream, given whether it is finished and what the
/// channel gave: the new state and what the poll gives.
pub fn next_built_step<T>(done: bool, received: Received<Option<T>>) -> (r: (bool, StreamPoll<T>))
    ensures
        r == built_step(done, received),
{
    if done {
        return (true, StreamPoll::Done);
    }
    match received {
        Received::Item(Some(v)) => (false, StreamPoll::Item(v)),
        Received::Item(None) => (true, StreamPoll::Done),
        Received::Empty => (false, StreamPoll::Pending),
        Received::Disconnected => (false, StreamPoll::Disconnected),
    }
}

impl<T> StreamBuilder<T> {
    /// The receiving half of the builder's channel.
    pub closed spec fn receiver_spec(&self) -> Receiver<Option<T>> {
        self.receiver.receiver()
    }

    /// What the channel has given so far, in order.
    pub closed spec fn taken(&self) -> Seq<Received<Option<T>>> {
        self.receiver.taken()
    }

    /// Creates a `Stream` using the items sent to the stream builder.
    ///
    /// The items sent before this call make the stream; those sent after it
    /// are not part of it.
    pub fn build(self) -> (s: BuiltStream<T>)
        ensures
            !s.is_done_spec(),
            s.receiver_spec() == self.receiver_spec(),
            s.taken() == self.taken(),
    {
        let _ = self.sender.finish();
        BuiltStream { receiver: self.receiver, done: false }
    }
}

impl<T> BuiltStream<T> {
    /// The receiving half of the channel the stream takes its items from.
    pub closed spec fn receiver_spec(&self) -> Receiver<Option<T>> {
        self.receiver.receiver()
    }

    /// What the channel has given the stream so far, in order.
    pub closed spec fn taken(&self) -> Seq<Received<Option<T>>> {
        self.receiver.taken()
    }

    /// Whether the stream has ended.
    pub closed spec fn is_done_spec(&self) -> bool {
        self.done
    }

    /// Whether the stream has ended.
    pub fn is_done(&self) -> (b: bool)
        ensures
            b == self.is_done_spec(),
    {
        self.done
    }

    /// Polls the stream for its next item.
    ///
    /// A finished stream gives its end again, and stays finished; an open
    /// one takes one thing from the channel and steps as `built_step` says:
    /// an item it took is the item it gives, and the end mark ends it.
    pub fn poll_next(&mut self) -> (p: StreamPoll<T>)
        ensures
            final(self).receiver_spec() == old(self).receiver_spec(),
            old(self).is_done_spec() ==> final(self).is_done_spec() && p is Done,
            exists|received: Received<Option<T>>|
                built_step(old(self).is_done_spec(), received) == (final(self).is_done_spec(), p),
            old(self).is_done_spec() ==> final(self).taken() == old(self).taken(),
            !old(self).is_done_spec() ==> final(self).taken().len() == old(self).taken().len() + 1
                && final(self).taken().drop_last() == old(self).taken() && built_step(
                false,
                final(self).taken().last(),
            ) == (final(self).is_done_spec(), p),
            !old(self).is_done_spec() ==> (final(self).taken().last() matches Received::Item(
                Some(v),
            ) ==> p == StreamPoll::Item(v) && !final(self).is_done_spec()),
            !old(self).is_done_spec() ==> (final(self).taken().last() == Received::<
                Option<T>,
            >::Item(None) ==> p is Done && final(self).is_done_spec()),
    {
        if self.done {
            let ghost any: Received<Option<T>> = Received::Empty;
            let p = StreamPoll::Done;
            assert(built_step(self.is_done_spec(), any) == (self.is_done_spec(), p));
            return p;
        }
        let received = self.receiver.receive();
        let ghost seen = received;
        let (done, p) = next_built_step(false, received);
        self.done = done;
        assert(built_step(old(self).is_done_spec(), seen) == (self.is_done_spec(), p));
        assert(self.taken().drop_last() =~= old(self).taken());
        p
    }
}

/// Creates a builder for a `Stream` with a `sender` and `builder`.
pub fn stream_builder<T>() -> (StreamSender<T>, StreamBuilder<T>) {
    let (sender, receiver) = channel();
    let builder = StreamBuilder {
        sender: StreamSender { sender: clone_sender(&sender) },
        receiver: Inbox::new(receiver),
    };
    (StreamSender { sender }, builder)
}

/// What a built stream gives, poll after poll, when the channel gives
/// `received` in turn and the stream starts finished or not as `done` says.
pub open spec fn built_run<T>(done: bool, received: Seq<Received<Option<T>>>) -> Seq<StreamPoll<T>>
    decreases received.len(),
{
    if received.len() == 0 {
        Seq::empty()
    } else {
        let (d, p) = built_step(done, received[0]);
        seq![p] + built_run(d, received.drop_first())
    }
}

/// What a finished stream gives: its end, at every poll.
pub open spec fn all_done<T>(n: nat) -> Seq<StreamPoll<T>> {
    Seq::new(n, |i: int| StreamPoll::Done)
}

/// A finished stream stays finished: every later poll gives its end.
pub proof fn law_finished_stream_stays_finished<T>(received: Seq<Received<Option<T>>>)
    ensures
        built_run(true, received) == all_done::<T>(received.len()),
    decreases received.len(),
{
    if received.len() > 0 {
        law_finished_stream_stays_finished(received.drop_first());
        assert(built_run(true, received) =~= all_done::<T>(received.len()));
    } else {
        assert(built_run(true, received) =~= all_done::<T>(0));
    }
}

/// The items sent before the stream was built come out in the order they
/// were sent; then the stream ends, and nothing that comes after the end
/// mark is part of it.
pub proof fn law_built_stream_gives_items_then_ends<T>(
    items: Seq<T>,
    after: Seq<Received<Option<T>>>,
)
    ensures
        built_run(
            false,
            items.map_values(|v: T| Received::Item(Some(v))) + seq![Received::Item(None)] + after,
        ) == items.map_values(|v: T| StreamPoll::Item(v)) + seq![StreamPoll::Done]
            + all_done::<T>(after.len()),
    decreases items.len(),
{
    let msgs = items.map_values(|v: T| Received::Item(Some(v))) + seq![Received::<Option<T>>::Item(None)] + after;
    let outs = items.map_values(|v: T| StreamPoll::Item(v)) + seq![StreamPoll::<T>::Done]
        + all_done::<T>(after.len());
    if items.len() == 0 {
        assert(msgs.drop_first() =~= after);
        law_finished_stream_stays_finished(after);
        assert(built_run(false, msgs) =~= outs);
    } else {
        let rest = items.drop_first();
        law_built_stream_gives_items_then_ends(rest, after);
        let rest_msgs = rest.map_values(|v: T| Received::Item(Some(v))) + seq![Received::<Option<T>>::Item(None)] + after;
        assert(msgs.drop_first() =~= rest_msgs);
        assert(msgs[0] == Received::<Option<T>>::Item(Some(items[0])));
        let rest_outs = rest.map_values(|v: T| StreamPoll::Item(v)) + seq![StreamPoll::<T>::Done]
            + all_done::<T>(after.len());
        assert(outs =~= seq![StreamPoll::Item(items[0])] + rest_outs);
        assert(built_run(false, msgs) =~= outs);
    }
}

} // verus!
