//! A stream whose generator may fail: its items, then its error, if any.
use vstd::prelude::*;

use super::channel::{
    channel, choose_poll_action, lemma_received_items_push, poll_action_of, received_items, Inbox,
    PollAction, Received, StreamPoll,
};
use super::yielder::Yielder;

verus! {

/// The state of a generated stream that may fail: the generator and its
/// yielder until it is started, the channel its items come out of, whether
/// it has finished, the error it finished with, until that is given, and
/// what it has given so far.
#[verifier::reject_recursive_types(T)]
pub struct StreamGenerator<T, E, B> {
    builder: Option<B>,
    yielder: Option<Yielder<T>>,
    receiver: Inbox<T>,
    done: bool,
    error: Option<E>,
    given: Ghost<Seq<StreamPoll<Result<T, E>>>>,
}

/// The items (not the errors) among what a fallible stream gave, in order.
pub open spec fn ok_items<T, E>(ps: Seq<StreamPoll<Result<T, E>>>) -> Seq<T>
    decreases ps.len(),
{
    if ps.len() == 0 {
        Seq::empty()
    } else {
        ok_items(ps.drop_last()) + match ps.last() {
            StreamPoll::Item(Ok(v)) => seq![v],
            _ => Seq::empty(),
        }
    }
}

/// One more poll adds its item, if it gave one, at the end.
pub proof fn lemma_ok_items_push<T, E>(
    ps: Seq<StreamPoll<Result<T, E>>>,
    p: StreamPoll<Result<T, E>>,
)
    ensures
        ok_items(ps.push(p)) == ok_items(ps) + match p {
            StreamPoll::Item(Ok(v)) => seq![v],
            _ => Seq::empty(),
        },
{
    assert(ps.push(p).drop_last() =~= ps);
}

/// A poll of a finished stream: an item where one is waiting; otherwise the
/// error it finished with, once; otherwise its end. Also the error that is
/// left to give.
pub open spec fn finished_step<T, E>(error: Option<E>, received: Received<T>) -> (
    Option<E>,
    StreamPoll<Result<T, E>>,
) {
    match received {
        Received::Item(v) => (error, StreamPoll::Item(Ok(v))),
        _ => match error {
            Some(e) => (None, StreamPoll::Item(Err(e))),
            None => (None, StreamPoll::Done),
        },
    }
}

/// The error a generator finished with, if any.
pub open spec fn error_of<E>(result: Result<(), E>) -> Option<E> {
    match result {
        Ok(()) => None,
        Err(e) => Some(e),
    }
}

/// A poll at which the generator finished with `result`: as a poll of a
/// finished stream whose error is the one it finished with. An item that is
/// waiting is given first and the error kept; otherwise the error is given
/// at this poll, and where there is none, the end.
pub open spec fn ready_step<T, E>(result: Result<(), E>, received: Received<T>) -> (
    Option<E>,
    StreamPoll<Result<T, E>>,
) {
    finished_step(error_of(result), received)
}

/// A poll of a finished stream, given the error left to give and what the
/// channel gave.
pub fn next_finished<T, E>(error: Option<E>, received: Received<T>) -> (r: (
    Option<E>,
    StreamPoll<Result<T, E>>,
))
    ensures
        r == finished_step(error, received),
{
    match received {
        Received::Item(v) => (error, StreamPoll::Item(Ok(v))),
        _ => match error {
            Some(e) => (None, StreamPoll::Item(Err(e))),
            None => (None, StreamPoll::Done),
        },
    }
}

/// A poll at which the generator finished, given its result and what the
/// channel gave.
pub fn next_ready<T, E>(result: Result<(), E>, received: Received<T>) -> (r: (
    Option<E>,
    StreamPoll<Result<T, E>>,
))
    ensures
        r == ready_step(result, received),
{
    let error = match result {
        Ok(()) => None,
        Err(e) => Some(e),
    };
    next_finished(error, received)
}

/// Creates a stream that may return on error using the provided function to
/// generate the values.
pub fn generate_try_stream<T, E, B>(builder: B) -> (s: StreamGenerator<T, E, B>)
    ensures
        s.has_builder(),
        !s.is_done_spec(),
        s.pending_error() is None,
        s.taken() == Seq::<Received<T>>::empty(),
        s.given() == Seq::<StreamPoll<Result<T, E>>>::empty(),
        s.hands_on_all(),
{
    StreamGenerator::new(builder)
}

impl<T, E, B> StreamGenerator<T, E, B> {
    /// Whether the generator has not been started yet.
    pub closed spec fn has_builder(&self) -> bool {
        self.builder is Some && self.yielder is Some
    }

    /// Whether the generator has finished.
    pub closed spec fn is_done_spec(&self) -> bool {
        self.done
    }

    /// The error the generator finished with, until it is given.
    pub closed spec fn pending_error(&self) -> Option<E> {
        self.error
    }

    /// What the channel has given this stream so far, in order.
    pub closed spec fn taken(&self) -> Seq<Received<T>> {
        self.receiver.taken()
    }

    /// What this stream has given at each poll, in order.
    pub closed spec fn given(&self) -> Seq<StreamPoll<Result<T, E>>> {
        self.given@
    }

    /// Every item taken from the channel has been given, in the order it was
    /// taken, and no other item.
    pub open spec fn hands_on_all(&self) -> bool {
        ok_items(self.given()) == received_items(self.taken())
    }

    /// A stream that `builder` will generate once it is started.
    pub fn new(builder: B) -> (s: Self)
        ensures
            s.has_builder(),
            !s.is_done_spec(),
            s.pending_error() is None,
            s.taken() == Seq::<Received<T>>::empty(),
            s.given() == Seq::<StreamPoll<Result<T, E>>>::empty(),
            s.hands_on_all(),
    {
        let (sender, receiver) = channel();
        let yielder = Some(Yielder::new(sender));
        let s = StreamGenerator {
            builder: Some(builder),
            yielder,
            receiver: Inbox::new(receiver),
            done: false,
            error: None,
            given: Ghost(Seq::empty()),
        };
        assert(ok_items(s.given()) =~= received_items(s.taken()));
        s
    }

    /// Whether the generator has finished.
    pub fn is_done(&self) -> (b: bool)
        ensures
            b == self.is_done_spec(),
    {
        self.done
    }

    /// What the next poll does: drain a finished stream, start the
    /// generator the first time, or poll the generator it started.
    pub fn next_action(&self) -> (a: PollAction)
        ensures
            a == poll_action_of(self.is_done_spec(), self.has_builder()),
    {
        choose_poll_action(self.done, self.has_builder_exec())
    }

    /// Whether the generator has not been started yet.
    fn has_builder_exec(&self) -> (b: bool)
        ensures
            b == self.has_builder(),
    {
        self.builder.is_some() && self.yielder.is_some()
    }

    /// Hands out the generator with a yielder to send its items through; it
    /// is not there to hand out again.
    pub fn start(&mut self) -> (r: (B, Yielder<T>))
        requires
            old(self).has_builder(),
        ensures
            !final(self).has_builder(),
            final(self).is_done_spec() == old(self).is_done_spec(),
            final(self).pending_error() == old(self).pending_error(),
            final(self).taken() == old(self).taken(),
            final(self).given() == old(self).given(),
    {
        let b = self.builder.take().unwrap();
        let y = self.yielder.take().unwrap();
        (b, y)
    }

    /// Hands out the generator with the yielder, the first time; nothing
    /// after that. The stream keeps no yielder of its own.
    pub fn take_builder(&mut self) -> (r: Option<(B, Yielder<T>)>)
        ensures
            r is Some <==> old(self).has_builder(),
            !final(self).has_builder(),
            final(self).is_done_spec() == old(self).is_done_spec(),
            final(self).pending_error() == old(self).pending_error(),
            final(self).taken() == old(self).taken(),
            final(self).given() == old(self).given(),
    {
        match self.builder.take() {
            Some(b) => match self.yielder.take() {
                Some(y) => Some((b, y)),
                None => None,
            },
            None => {
                self.yielder = None;
                None
            },
        }
    }

    /// Polls a finished stream: the items still waiting, then the error it
    /// finished with, if any, then its end.
    ///
    /// Each poll takes one thing from the channel: an item it took is the
    /// item it gives, and the error waits; where there was none, it gives the
    /// error if one is left, and otherwise the end.
    pub fn poll_finished(&mut self) -> (p: StreamPoll<Result<T, E>>)
        requires
            old(self).is_done_spec(),
        ensures
            final(self).is_done_spec(),
            final(self).has_builder() == old(self).has_builder(),
            exists|received: Received<T>|
                finished_step(old(self).pending_error(), received) == (
                    final(self).pending_error(),
                    p,
                ),
            final(self).taken().len() == old(self).taken().len() + 1,
            final(self).taken().drop_last() == old(self).taken(),
            final(self).taken().last() matches Received::Item(v) ==> p == StreamPoll::<
                Result<T, E>,
            >::Item(Ok(v)) && final(self).pending_error() == old(self).pending_error(),
            !(final(self).taken().last() is Item) ==> final(self).pending_error() is None && p == (
            match old(self).pending_error() {
                Some(e) => StreamPoll::<Result<T, E>>::Item(Err(e)),
                None => StreamPoll::<Result<T, E>>::Done,
            }),
            final(self).given() == old(self).given().push(p),
            old(self).hands_on_all() ==> final(self).hands_on_all(),
    {
        let error = self.error.take();
        let (left, p) = self.take_next(error);
        self.error = left;
        p
    }

    /// Records that the generator finished with `result`, and gives what the
    /// stream gives at that poll.
    ///
    /// The poll takes one thing from the channel, whatever the result: an
    /// item it took is the item it gives, and the error, if any, waits;
    /// where there was none, it gives the error, if any, and otherwise the
    /// end.
    pub fn after_ready(&mut self, result: Result<(), E>) -> (p: StreamPoll<Result<T, E>>)
        requires
            !old(self).is_done_spec(),
        ensures
            final(self).is_done_spec(),
            final(self).has_builder() == old(self).has_builder(),
            exists|received: Received<T>|
                ready_step(result, received) == (final(self).pending_error(), p),
            final(self).taken().len() == old(self).taken().len() + 1,
            final(self).taken().drop_last() == old(self).taken(),
            final(self).taken().last() matches Received::Item(v) ==> p == StreamPoll::<
                Result<T, E>,
            >::Item(Ok(v)) && final(self).pending_error() == error_of(result),
            !(final(self).taken().last() is Item) ==> final(self).pending_error() is None && p == (
            match result {
                Err(e) => StreamPoll::<Result<T, E>>::Item(Err(e)),
                Ok(()) => StreamPoll::<Result<T, E>>::Done,
            }),
            final(self).given() == old(self).given().push(p),
            old(self).hands_on_all() ==> final(self).hands_on_all(),
    {
        self.done = true;
        let ghost res = result;
        let error = match result {
            Ok(()) => None,
            Err(e) => Some(e),
        };
        assert(error == error_of(res));
        let (left, p) = self.take_next(error);
        self.error = left;
        assert(ready_step(res, self.taken().last()) == (self.pending_error(), p));
        p
    }

    /// Takes one thing from the channel and gives what a finished stream
    /// with `error` left to give gives for it, recording both.
    fn take_next(&mut self, error: Option<E>) -> (r: (Option<E>, StreamPoll<Result<T, E>>))
        ensures
            final(self).is_done_spec() == old(self).is_done_spec(),
            final(self).has_builder() == old(self).has_builder(),
            final(self).pending_error() == old(self).pending_error(),
            final(self).taken().len() == old(self).taken().len() + 1,
            final(self).taken().drop_last() == old(self).taken(),
            r == finished_step(error, final(self).taken().last()),
            final(self).given() == old(self).given().push(r.1),
            old(self).hands_on_all() ==> final(self).hands_on_all(),
    {
        let received = self.receiver.receive();
        let ghost seen = received;
        let r = next_finished(error, received);
        proof {
            assert(self.taken().drop_last() =~= old(self).taken());
            lemma_received_items_push(old(self).taken(), seen);
            lemma_ok_items_push(old(self).given(), r.1);
            self.given@ = self.given@.push(r.1);
        }
        r
    }

    /// Records a poll at which the generator has not finished: the stream
    /// gives nothing yet, and takes nothing from the channel.
    pub fn after_pending(&mut self) -> (p: StreamPoll<Result<T, E>>)
        requires
            !old(self).is_done_spec(),
        ensures
            !final(self).is_done_spec(),
            final(self).has_builder() == old(self).has_builder(),
            final(self).pending_error() == old(self).pending_error(),
            p is Pending,
            final(self).taken() == old(self).taken(),
            final(self).given() == old(self).given().push(p),
            old(self).hands_on_all() ==> final(self).hands_on_all(),
    {
        let p = StreamPoll::Pending;
        proof {
            lemma_ok_items_push(old(self).given(), p);
            self.given@ = self.given@.push(p);
        }
        p
    }
}

/// The error a generator finished with is given once, after the items that
/// were waiting, and the stream ends after it.
pub proof fn law_error_given_once_then_end<T, E>(e: E, r1: Received<T>, r2: Received<T>)
    requires
        !(r1 is Item),
        !(r2 is Item),
    ensures
        finished_step(Some(e), r1) == (None::<E>, StreamPoll::<Result<T, E>>::Item(Err(e))),
        finished_step(None::<E>, r2) == (None::<E>, StreamPoll::<Result<T, E>>::Done),
{
}

/// A waiting item comes before the error: giving it keeps the error.
pub proof fn law_items_before_error<T, E>(error: Option<E>, v: T)
    ensures
        finished_step(error, Received::Item(v)) == (error, StreamPoll::<Result<T, E>>::Item(Ok(v))),
{
}

/// A finished stream is never pending again.
pub proof fn law_finished_try_stream_never_pending<T, E>(
    error: Option<E>,
    result: Result<(), E>,
    received: Received<T>,
)
    ensures
        !(finished_step(error, received).1 is Pending),
        !(ready_step(result, received).1 is Pending),
{
}

/// What a finished fallible stream gives, poll after poll, when the channel
/// gives `received` in turn and `error` is left to give.
pub open spec fn try_finished_run<T, E>(error: Option<E>, received: Seq<Received<T>>) -> Seq<
    StreamPoll<Result<T, E>>,
>
    decreases received.len(),
{
    if received.len() == 0 {
        Seq::empty()
    } else {
        let (left, p) = finished_step(error, received[0]);
        seq![p] + try_finished_run(left, received.drop_first())
    }
}

/// Whether the channel gives nothing more: no item in `received`.
pub open spec fn no_items<T>(received: Seq<Received<T>>) -> bool {
    forall|i: int| 0 <= i < received.len() ==> !(#[trigger] received[i] is Item)
}

/// The end, at each of `n` polls.
pub open spec fn ends<T, E>(n: nat) -> Seq<StreamPoll<Result<T, E>>> {
    Seq::new(n, |i: int| StreamPoll::Done)
}

/// A finished stream with no error left and nothing waiting gives its end
/// at every poll.
proof fn lemma_empty_finished_run<T, E>(received: Seq<Received<T>>)
    requires
        no_items(received),
    ensures
        try_finished_run(None::<E>, received) == ends::<T, E>(received.len()),
    decreases received.len(),
{
    if received.len() > 0 {
        assert(no_items(received.drop_first())) by {
            assert forall|i: int| 0 <= i < received.drop_first().len() implies !(
            #[trigger] received.drop_first()[i] is Item) by {
                assert(received.drop_first()[i] == received[i + 1]);
            }
        }
        assert(!(received[0] is Item));
        lemma_empty_finished_run::<T, E>(received.drop_first());
        assert(try_finished_run(None::<E>, received) =~= ends::<T, E>(received.len()));
    } else {
        assert(try_finished_run(None::<E>, received) =~= ends::<T, E>(0));
    }
}

/// From the poll at which the generator finishes on: the items still
/// waiting come out in order, then the error it finished with, once, if any,
/// then the end at every later poll.
pub proof fn law_try_stream_items_then_error_then_end<T, E>(
    items: Seq<T>,
    result: Result<(), E>,
    after: Seq<Received<T>>,
)
    requires
        after.len() > 0,
        no_items(after),
    ensures
        try_finished_run(error_of(result), items.map_values(|v: T| Received::Item(v)) + after)
            == items.map_values(|v: T| StreamPoll::<Result<T, E>>::Item(Ok(v))) + (match result {
            Ok(()) => ends::<T, E>(after.len()),
            Err(e) => seq![StreamPoll::Item(Err(e))] + ends::<T, E>((after.len() - 1) as nat),
        }),
        ready_step::<T, E>(result, (items.map_values(|v: T| Received::Item(v)) + after)[0])
            == finished_step(
            error_of(result),
            (items.map_values(|v: T| Received::Item(v)) + after)[0],
        ),
    decreases items.len(),
{
    let msgs = items.map_values(|v: T| Received::Item(v)) + after;
    if items.len() == 0 {
        assert(msgs =~= after);
        assert(!(after[0] is Item));
        assert(no_items(after.drop_first())) by {
            assert forall|i: int| 0 <= i < after.drop_first().len() implies !(
            #[trigger] after.drop_first()[i] is Item) by {
                assert(after.drop_first()[i] == after[i + 1]);
            }
        }
        lemma_empty_finished_run::<T, E>(after.drop_first());
        match result {
            Ok(()) => {
                assert(try_finished_run(error_of(result), msgs) =~= items.map_values(
                    |v: T| StreamPoll::<Result<T, E>>::Item(Ok(v)),
                ) + ends::<T, E>(after.len()));
            },
            Err(e) => {
                assert(try_finished_run(error_of(result), msgs) =~= items.map_values(
                    |v: T| StreamPoll::<Result<T, E>>::Item(Ok(v)),
                ) + (seq![StreamPoll::Item(Err(e))] + ends::<T, E>((after.len() - 1) as nat)));
            },
        }
    } else {
        let rest = items.drop_first();
        law_try_stream_items_then_error_then_end::<T, E>(rest, result, after);
        let rest_msgs = rest.map_values(|v: T| Received::Item(v)) + after;
        assert(msgs.drop_first() =~= rest_msgs);
        assert(msgs[0] == Received::Item(items[0]));
        let tail_out = match result {
            Ok(()) => ends::<T, E>(after.len()),
            Err(e) => seq![StreamPoll::Item(Err(e))] + ends::<T, E>((after.len() - 1) as nat),
        };
        assert(items.map_values(|v: T| StreamPoll::<Result<T, E>>::Item(Ok(v))) + tail_out
            =~= seq![StreamPoll::<Result<T, E>>::Item(Ok(items[0]))] + (rest.map_values(
            |v: T| StreamPoll::<Result<T, E>>::Item(Ok(v)),
        ) + tail_out));
    }
}

/// Over any run of polls at which the channel gives `received` in turn and
/// the errors in `errors` are left to give, the items the stream gives are
/// exactly the items the channel gave it, in the same order: none is
/// dropped, repeated or made up, whatever error is waiting.
pub proof fn law_try_stream_hands_on_every_item<T, E>(
    errors: Seq<Option<E>>,
    received: Seq<Received<T>>,
)
    requires
        errors.len() == received.len(),
    ensures
        ok_items(
            Seq::new(received.len(), |i: int| finished_step(errors[i], received[i]).1),
        ) == received_items(received),
    decreases received.len(),
{
    let run = Seq::new(received.len(), |i: int| finished_step(errors[i], received[i]).1);
    if received.len() > 0 {
        let es = errors.drop_last();
        let rs = received.drop_last();
        law_try_stream_hands_on_every_item(es, rs);
        assert(run.drop_last() =~= Seq::new(rs.len(), |i: int| finished_step(es[i], rs[i]).1));
    } else {
        assert(ok_items(run) =~= received_items(received));
    }
}

/// Where the generator finishes with an error and nothing is waiting, that
/// poll gives the error and the next gives the end.
pub proof fn law_error_at_finish<T, E>(e: E, r1: Received<T>, r2: Received<T>)
    requires
        !(r1 is Item),
        !(r2 is Item),
    ensures
        ready_step(Err::<(), E>(e), r1) == (None::<E>, StreamPoll::<Result<T, E>>::Item(Err(e))),
        finished_step(None::<E>, r2) == (None::<E>, StreamPoll::<Result<T, E>>::Done),
{
}

} // verus!
