//! The channel that the items of a stream travel through
//! (`std::sync::mpsc`), and what one poll of a stream gives.
use vstd::prelude::*;

use std::sync::mpsc::{Receiver, Sender};

verus! {

/// The sending half of a channel.
#[verifier::external_type_specification]
#[verifier::external_body]
#[verifier::reject_recursive_types(T)]
pub struct ExSender<T>(Sender<T>);

/// The receiving half of a channel.
#[verifier::external_type_specification]
#[verifier::external_body]
#[verifier::reject_recursive_types(T)]
pub struct ExReceiver<T>(Receiver<T>);

/// What one attempt to receive without waiting gives: an item, nothing yet,
/// or word that every sender is gone and nothing is left.
pub enum Received<T> {
    Item(T),
    Empty,
    Disconnected,
}

/// What one poll of a stream gives: an item, the end of the stream, nothing
/// yet, or word that the channel behind it was cut before the end.
pub enum StreamPoll<T> {
    Item(T),
    Done,
    Pending,
    Disconnected,
}

/// What the next poll of a generated stream does: take what is left of a
/// finished stream, start the generator (the first poll), or poll the
/// generator it started.
#[derive(Clone, Copy, Debug, PartialEq, Eq, Structural)]
pub enum PollAction {
    Drain,
    Start,
    Resume,
}

/// The next poll drains a finished stream, starts a generator that has not
/// been started, and otherwise polls the one it started.
pub open spec fn poll_action_of(done: bool, has_builder: bool) -> PollAction {
    if done {
        PollAction::Drain
    } else if has_builder {
        PollAction::Start
    } else {
        PollAction::Resume
    }
}

/// The next poll chosen from whether the stream is finished and whether its
/// generator is still to be started.
pub fn choose_poll_action(done: bool, has_builder: bool) -> (a: PollAction)
    ensures
        a == poll_action_of(done, has_builder),
{
    if done {
        PollAction::Drain
    } else if has_builder {
        PollAction::Start
    } else {
        PollAction::Resume
    }
}

/// The generator is started at most once: a poll that starts it leaves
/// nothing to start, and a finished stream is only drained, so a finished
/// generator is never polled or started again.
pub proof fn law_generator_started_once(done: bool, has_builder: bool, next_done: bool)
    ensures
        poll_action_of(done, has_builder) is Start ==> !done && has_builder,
        !(poll_action_of(next_done, false) is Start),
        poll_action_of(true, has_builder) is Drain,
{
}

/// The receiving half of a channel, with a record of everything it has given:
/// each attempt to receive adds what it gave, and nothing else changes the
/// record.
#[verifier::reject_recursive_types(T)]
pub struct Inbox<T> {
    receiver: Receiver<T>,
    taken: Ghost<Seq<Received<T>>>,
}

impl<T> Inbox<T> {
    /// What the channel has given so far, in order: items, and each time it
    /// had nothing to give.
    pub closed spec fn taken(&self) -> Seq<Received<T>> {
        self.taken@
    }

    /// The receiving half of the channel.
    pub closed spec fn receiver(&self) -> Receiver<T> {
        self.receiver
    }

    /// The receiving half `receiver`, with nothing taken from it yet.
    pub fn new(receiver: Receiver<T>) -> (i: Self)
        ensures
            i.taken() == Seq::<Received<T>>::empty(),
            i.receiver() == receiver,
    {
        Inbox { receiver, taken: Ghost(Seq::empty()) }
    }

    /// Receives a value if one is waiting; the record gains what came back.
    pub fn receive(&mut self) -> (r: Received<T>)
        ensures
            final(self).taken() == old(self).taken().push(r),
            final(self).receiver() == old(self).receiver(),
    {
        let r = try_receive(&self.receiver);
        proof {
            self.taken = Ghost(self.taken@.push(r));
        }
        r
    }
}

/// The items among what a channel gave, in the order it gave them.
pub open spec fn received_items<T>(rs: Seq<Received<T>>) -> Seq<T>
    decreases rs.len(),
{
    if rs.len() == 0 {
        Seq::empty()
    } else {
        received_items(rs.drop_last()) + match rs.last() {
            Received::Item(v) => seq![v],
            _ => Seq::empty(),
        }
    }
}

/// One more thing given adds its item, if it is one, at the end.
pub proof fn lemma_received_items_push<T>(rs: Seq<Received<T>>, r: Received<T>)
    ensures
        received_items(rs.push(r)) == received_items(rs) + match r {
            Received::Item(v) => seq![v],
            _ => Seq::empty(),
        },
{
    assert(rs.push(r).drop_last() =~= rs);
}

/// The items among what a stream gave, in the order it gave them.
pub open spec fn poll_items<T>(ps: Seq<StreamPoll<T>>) -> Seq<T>
    decreases ps.len(),
{
    if ps.len() == 0 {
        Seq::empty()
    } else {
        poll_items(ps.drop_last()) + match ps.last() {
            StreamPoll::Item(v) => seq![v],
            _ => Seq::empty(),
        }
    }
}

/// One more poll adds its item, if it gave one, at the end.
pub proof fn lemma_poll_items_push<T>(ps: Seq<StreamPoll<T>>, p: StreamPoll<T>)
    ensures
        poll_items(ps.push(p)) == poll_items(ps) + match p {
            StreamPoll::Item(v) => seq![v],
            _ => Seq::empty(),
        },
{
    assert(ps.push(p).drop_last() =~= ps);
}

/// Creates a channel (`std::sync::mpsc::channel`).
///
/// Nothing is claimed of the two halves beyond their types.
#[verifier::external_body]
pub(crate) fn channel<T>() -> (Sender<T>, Receiver<T>) {
    std::sync::mpsc::channel()
}

/// Another sender into the same channel (`Sender::clone`).
///
/// Nothing is claimed of the result beyond its type.
#[verifier::external_body]
pub(crate) fn clone_sender<T>(s: &Sender<T>) -> Sender<T> {
    s.clone()
}

/// Sends a value into the channel (`Sender::send`).
///
/// Whether it succeeds depends on whether the receiver is still there; the
/// documentation says that a failed send hands the value back, and that is
/// all this contract claims.
#[verifier::external_body]
pub(crate) fn send_value<T>(s: &Sender<T>, value: T) -> (r: Result<(), T>)
    ensures
        r matches Err(v) ==> v == value,
{
    match s.send(value) {
        Ok(()) => Ok(()),
        Err(e) => Err(e.0),
    }
}

/// Receives a value if one is waiting (`Receiver::try_recv`).
///
/// What comes back depends on what was sent and on the senders that are
/// left: nothing is claimed of it.
#[verifier::external_body]
pub(crate) fn try_receive<T>(r: &Receiver<T>) -> Received<T> {
    match r.try_recv() {
        Ok(v) => Received::Item(v),
        Err(std::sync::mpsc::TryRecvError::Empty) => Received::Empty,
        Err(std::sync::mpsc::TryRecvError::Disconnected) => Received::Disconnected,
    }
}

} // verus!
