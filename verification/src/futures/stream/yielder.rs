//! The handle that a stream generator sends its items through.
use vstd::prelude::*;

use std::sync::mpsc::Sender;

use super::channel::{clone_sender, send_value};

verus! {

/// Generates values for a stream.
#[verifier::reject_recursive_types(T)]
pub struct Yielder<T> {
    sender: Sender<T>,
}

impl<T> Clone for Yielder<T> {
    fn clone(&self) -> Self {
        Yielder { sender: clone_sender(&self.sender) }
    }
}

impl<T> Yielder<T> {
    /// The sender this yielder sends its values through.
    pub closed spec fn sender(&self) -> Sender<T> {
        self.sender
    }

    /// A yielder that sends its values through `sender`.
    pub fn new(sender: Sender<T>) -> (y: Self)
        ensures
            y.sender() == sender,
    {
        Yielder { sender }
    }

    /// Sends a value to the stream.
    ///
    /// Where the stream is gone, the value is handed back.
    pub fn yield_one(&self, item: T) -> (r: Result<(), T>)
        ensures
            r matches Err(v) ==> v == item,
    {
        send_value(&self.sender, item)
    }

    /// Sends a list of values to the stream, in order.
    ///
    /// Where the stream is gone, the sending stops and the value that could
    /// not be sent is handed back, with the number of values sent before it.
    pub fn yield_all(&self, items: Vec<T>) -> (r: Result<(), (usize, T)>)
        ensures
            items@.len() == 0 ==> r is Ok,
            r matches Err((n, v)) ==> n < items@.len() && v == items@[n as int],
    {
        let ghost all = items@;
        let total = items.len();
        let mut pending = items;
        let mut rest: Vec<T> = Vec::new();
        // Take the items from the back so that they can be sent from the front.
        while pending.len() > 0
            invariant
                all.len() == total,
                all.len() == pending@.len() + rest@.len(),
                forall|i: int| 0 <= i < pending@.len() ==> pending@[i] == all[i],
                forall|j: int|
                    0 <= j < rest@.len() ==> rest@[j] == all[all.len() - 1 - j],
            decreases pending.len(),
        {
            let x = pending.pop().unwrap();
            rest.push(x);
        }
        let mut sent: usize = 0;
        // The values handed to the channel so far, each accepted by it.
        let ghost mut delivered: Seq<T> = Seq::empty();
        while rest.len() > 0
            invariant
                all == items@,
                all.len() == total,
                all.len() == sent + rest@.len(),
                delivered == all.take(sent as int),
                forall|j: int|
                    0 <= j < rest@.len() ==> rest@[j] == all[all.len() - 1 - j],
            decreases rest.len(),
        {
            let x = rest.pop().unwrap();
            assert(x == all[sent as int]);
            let ghost value = x;
            match send_value(&self.sender, x) {
                Ok(()) => {},
                Err(v) => {
                    assert(delivered == all.take(sent as int));
                    return Err((sent, v));
                },
            }
            proof {
                delivered = delivered.push(value);
                assert(delivered =~= all.take(sent + 1));
            }
            sent = sent + 1;
        }
        // Every value of the list was accepted, in order, before `Ok`.
        assert(delivered =~= all);
        Ok(())
    }
}

} // verus!
