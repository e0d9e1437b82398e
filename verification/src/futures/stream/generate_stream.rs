//! A stream whose items a generator sends through a yielder.
use vstd::prelude::*;

use super::channel::{
    channel, choose_poll_action, lemma_poll_items_push, lemma_received_items_push, poll_action_of,
    poll_items, received_items, Inbox, PollAction, Received, StreamPoll,
};
use super::yielder::Yielder;

verus! {

/// The state of a generated stream: the generator until it is started, the
/// yielder it is given a copy of, the channel its items come out of,
/// whether it has finished, and what it has given so far.
#[verifier::reject_recursive_types(T)]
pub struct StreamGenerator<T, B> {
    builder: Option<B>,
    yielder: Yielder<T>,
    receiver: Inbox<T>,
    done: bool,
    given: Ghost<Seq<StreamPoll<T>>>,
}

/// What a poll of a generated stream gives: an item where one is waiting;
/// otherwise its end where the generator has finished (now or before), and
/// nothing yet where it has not.
pub open spec fn generator_step<T>(finished: bool, received: Received<T>) -> StreamPoll<T> {
    match received {
        Received::Item(v) => StreamPoll::Item(v),
        _ => if finished {
            StreamPoll::Done
        } else {
            StreamPoll::Pending
        },
    }
}

/// What a poll of a generated stream gives, given whether the generator has
/// finished and what the channel gave.
pub fn next_generated<T>(finished: bool, received: Received<T>) -> (p: StreamPoll<T>)
    ensures
        p == generator_step(finished, received),
{
    match received {
        Received::Item(v) => StreamPoll::Item(v),
        _ => if finished {
            StreamPoll::Done
        } else {
            StreamPoll::Pending
        },
    }
}

/// Creates a stream using the provided function to generate the values.
pub fn generate_stream<T, B>(builder: B) -> (s: StreamGenerator<T, B>)
    ensures
        s.has_builder(),
        !s.is_done_spec(),
        s.taken() == Seq::<Received<T>>::empty(),
        s.given() == Seq::<StreamPoll<T>>::empty(),
        s.hands_on_all(),
{
    StreamGenerator::new(builder)
}

impl<T, B> StreamGenerator<T, B> {
    /// Whether the generator has not been started yet.
    pub closed spec fn has_builder(&self) -> bool {
        self.builder is Some
    }

    /// Whether the generator has finished.
    pub closed spec fn is_done_spec(&self) -> bool {
        self.done
    }

    /// What the channel has given this stream so far, in order.
    pub closed spec fn taken(&self) -> Seq<Received<T>> {
        self.receiver.taken()
    }

    /// What this stream has given at each poll that reached the channel, in
    /// order.
    pub closed spec fn given(&self) -> Seq<StreamPoll<T>> {
        self.given@
    }

    /// Every item taken from the channel has been given, in the order it was
    /// taken, and no other item.
    pub open spec fn hands_on_all(&self) -> bool {
        poll_items(self.given()) == received_items(self.taken())
    }

    /// A stream that `builder` will generate once it is started.
    pub fn new(builder: B) -> (s: Self)
        ensures
            s.has_builder(),
            !s.is_done_spec(),
            s.taken() == Seq::<Received<T>>::empty(),
            s.given() == Seq::<StreamPoll<T>>::empty(),
            s.hands_on_all(),
    {
        let (sender, receiver) = channel();
        let yielder = Yielder::new(sender);
        let s = StreamGenerator {
            builder: Some(builder),
            yielder,
            receiver: Inbox::new(receiver),
            done: false,
            given: Ghost(Seq::empty()),
        };
        assert(poll_items(s.given()) =~= received_items(s.taken()));
        s
    }

    /// Whether the generator has finished.
    pub fn is_done(&self) -> (b: bool)
        ensures
            b == self.is_done_spec(),
    {
        self.done
    }

    /// What the next poll does: drain a finished stream, start the
    /// generator the first time, or poll the generator it started.
    pub fn next_action(&self) -> (a: PollAction)
        ensures
            a == poll_action_of(self.is_done_spec(), self.has_builder()),
    {
        choose_poll_action(self.done, self.has_builder_exec())
    }

    /// Whether the generator has not been started yet.
    fn has_builder_exec(&self) -> (b: bool)
        ensures
            b == self.has_builder(),
    {
        self.builder.is_some()
    }

    /// Hands out the generator with a yielder to send its items through; it
    /// is not there to hand out again.
    pub fn start(&mut self) -> (r: (B, Yielder<T>))
        requires
            old(self).has_builder(),
        ensures
            !final(self).has_builder(),
            final(self).is_done_spec() == old(self).is_done_spec(),
            final(self).taken() == old(self).taken(),
            final(self).given() == old(self).given(),
    {
        let b = self.builder.take().unwrap();
        (b, self.yielder.clone())
    }

    /// Hands out the generator, with a yielder to send its items through,
    /// the first time; nothing after that.
    pub fn take_builder(&mut self) -> (r: Option<(B, Yielder<T>)>)
        ensures
            r is Some <==> old(self).has_builder(),
            !final(self).has_builder(),
            final(self).is_done_spec() == old(self).is_done_spec(),
            final(self).taken() == old(self).taken(),
            final(self).given() == old(self).given(),
    {
        match self.builder.take() {
            Some(b) => Some((b, self.yielder.clone())),
            None => None,
        }
    }

    /// Polls a finished stream: the items still waiting, then its end.
    ///
    /// Each poll takes one thing from the channel: an item it took is the
    /// item it gives; where there was none, it gives the end.
    pub fn poll_finished(&mut self) -> (p: StreamPoll<T>)
        requires
            old(self).is_done_spec(),
        ensures
            final(self).is_done_spec(),
            final(self).has_builder() == old(self).has_builder(),
            exists|received: Received<T>| p == generator_step(true, received),
            final(self).taken().len() == old(self).taken().len() + 1,
            final(self).taken().drop_last() == old(self).taken(),
            final(self).taken().last() matches Received::Item(v) ==> p == StreamPoll::Item(v),
            !(final(self).taken().last() is Item) ==> p == StreamPoll::<T>::Done,
            final(self).given() == old(self).given().push(p),
            old(self).hands_on_all() ==> final(self).hands_on_all(),
    {
        let p = self.take_next(true);
        p
    }

    /// Records a poll of the generator that finished it or not as `ready`
    /// says, and gives what the stream gives: an item where one is waiting,
    /// otherwise its end or nothing yet.
    ///
    /// Each poll takes one thing from the channel: an item it took is the
    /// item it gives, whether the generator has finished or not; where there
    /// was none, it gives the end if the generator has finished and nothing
    /// yet if it has not.
    pub fn after_poll(&mut self, ready: bool) -> (p: StreamPoll<T>)
        requires
            !old(self).is_done_spec(),
        ensures
            final(self).is_done_spec() == ready,
            final(self).has_builder() == old(self).has_builder(),
            exists|received: Received<T>| p == generator_step(ready, received),
            final(self).taken().len() == old(self).taken().len() + 1,
            final(self).taken().drop_last() == old(self).taken(),
            final(self).taken().last() matches Received::Item(v) ==> p == StreamPoll::Item(v),
            !(final(self).taken().last() is Item) ==> p == (if ready {
                StreamPoll::<T>::Done
            } else {
                StreamPoll::<T>::Pending
            }),
            final(self).given() == old(self).given().push(p),
            old(self).hands_on_all() ==> final(self).hands_on_all(),
    {
        self.done = ready;
        let p = self.take_next(ready);
        p
    }

    /// Takes one thing from the channel and gives what the stream gives for
    /// it, recording both.
    fn take_next(&mut self, finished: bool) -> (p: StreamPoll<T>)
        ensures
            final(self).is_done_spec() == old(self).is_done_spec(),
            final(self).has_builder() == old(self).has_builder(),
            final(self).taken().len() == old(self).taken().len() + 1,
            final(self).taken().drop_last() == old(self).taken(),
            p == generator_step(finished, final(self).taken().last()),
            final(self).given() == old(self).given().push(p),
            old(self).hands_on_all() ==> final(self).hands_on_all(),
    {
        let received = self.receiver.receive();
        let ghost seen = received;
        let p = next_generated(finished, received);
        proof {
            assert(self.taken().drop_last() =~= old(self).taken());
            lemma_received_items_push(old(self).taken(), seen);
            lemma_poll_items_push(old(self).given(), p);
            self.given@ = self.given@.push(p);
        }
        p
    }
}

/// Once its generator has finished, a generated stream is never pending
/// again: each poll gives an item or its end.
pub proof fn law_finished_generator_never_pending<T>(received: Received<T>)
    ensures
        !(generator_step(true, received) is Pending),
        generator_step(true, received) is Done <==> !(received is Item),
{
}

/// An item that is waiting is handed on, whether the generator has finished
/// or not.
pub proof fn law_waiting_item_comes_first<T>(finished: bool, v: T)
    ensures
        generator_step(finished, Received::Item(v)) == StreamPoll::Item(v),
{
}

/// What a generated stream gives at a run of polls, when the generator has
/// finished or not as `finished` says at each and the channel gives
/// `received` in turn.
pub open spec fn generated_run<T>(finished: Seq<bool>, received: Seq<Received<T>>) -> Seq<
    StreamPoll<T>,
> {
    Seq::new(received.len(), |i: int| generator_step(finished[i], received[i]))
}

/// Over any run of polls, finished or not, the items a generated stream
/// gives are exactly the items the channel gave it, in the same order: none
/// is dropped, repeated or made up, also at polls where the generator has
/// not finished.
pub proof fn law_generated_stream_hands_on_every_item<T>(
    finished: Seq<bool>,
    received: Seq<Received<T>>,
)
    requires
        finished.len() == received.len(),
    ensures
        poll_items(generated_run(finished, received)) == received_items(received),
    decreases received.len(),
{
    if received.len() > 0 {
        let f = finished.drop_last();
        let r = received.drop_last();
        law_generated_stream_hands_on_every_item(f, r);
        assert(generated_run(finished, received).drop_last() =~= generated_run(f, r));
    } else {
        assert(poll_items(generated_run(finished, received)) =~= received_items(received));
    }
}

/// What a generated stream gives, poll after poll, from the poll at which its
/// generator finishes on, when the channel gives `received` in turn.
pub open spec fn finished_run<T>(received: Seq<Received<T>>) -> Seq<StreamPoll<T>> {
    received.map_values(|r: Received<T>| generator_step(true, r))
}

/// Whether the channel gives nothing more: no item in `received`.
pub open spec fn nothing_waiting<T>(received: Seq<Received<T>>) -> bool {
    forall|i: int| 0 <= i < received.len() ==> !(#[trigger] received[i] is Item)
}

/// From the poll at which the generator finishes on, the items it sent that
/// are still waiting come out in the order they were sent, each once, and
/// then the stream gives its end at every later poll.
pub proof fn law_generated_stream_items_then_end<T>(items: Seq<T>, after: Seq<Received<T>>)
    requires
        nothing_waiting(after),
    ensures
        finished_run(items.map_values(|v: T| Received::Item(v)) + after) == items.map_values(
            |v: T| StreamPoll::Item(v),
        ) + Seq::new(after.len(), |i: int| StreamPoll::<T>::Done),
{
    let msgs = items.map_values(|v: T| Received::Item(v)) + after;
    let outs = items.map_values(|v: T| StreamPoll::Item(v)) + Seq::new(
        after.len(),
        |i: int| StreamPoll::<T>::Done,
    );
    assert forall|i: int| 0 <= i < msgs.len() implies #[trigger] finished_run(msgs)[i]
        == outs[i] by {
        if i < items.len() {
            assert(msgs[i] == Received::Item(items[i]));
        } else {
            assert(msgs[i] == after[i - items.len()]);
            assert(!(after[i - items.len()] is Item));
        }
    }
    assert(finished_run(msgs) =~= outs);
}

} // verus!
