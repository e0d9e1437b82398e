use mediator::futures::stream::channel::PollAction;
use mediator::futures::stream::channel::{Received, StreamPoll};
use mediator::futures::stream::generate_stream::{generate_stream, next_generated};
use mediator::futures::stream::generate_try_stream::{generate_try_stream, next_finished, next_ready};
use mediator::futures::stream::stream_builder::{next_built_step, stream_builder};
use mediator::futures::stream::Yielder;

fn item<T>(p: StreamPoll<T>) -> Option<T> {
    match p {
        StreamPoll::Item(v) => Some(v),
        StreamPoll::Done => None,
        StreamPoll::Pending => panic!("pending"),
        StreamPoll::Disconnected => panic!("Stream builder was disconnected"),
    }
}

#[test]
fn test_stream_builder() {
    let (sender, builder) = stream_builder::<i32>();

    let _ = sender.send(1);
    let _ = sender.send(2);
    let _ = sender.send(3);
    let _ = sender.send(4);

    let mut stream = builder.build();
    let _ = sender.send(5);

    assert_eq!(item(stream.poll_next()), Some(1));
    assert_eq!(item(stream.poll_next()), Some(2));
    assert_eq!(item(stream.poll_next()), Some(3));
    assert_eq!(item(stream.poll_next()), Some(4));
    assert_eq!(item(stream.poll_next()), None);
}

#[test]
fn test_stream_async_builder() {
    let (sender, builder) = stream_builder::<i32>();
    let _ = sender.send(1);
    let _ = sender.send(2);

    // The sender moves into a task that sends the last two items.
    let task = move || {
        let _ = sender.send(3);
        let _ = sender.send(4);
    };
    task();

    let mut stream = builder.build();

    assert_eq!(item(stream.poll_next()), Some(1));
    assert_eq!(item(stream.poll_next()), Some(2));
    assert_eq!(item(stream.poll_next()), Some(3));
    assert_eq!(item(stream.poll_next()), Some(4));
    assert_eq!(item(stream.poll_next()), None);
}

#[test]
fn built_stream_stays_finished() {
    let (sender, builder) = stream_builder::<u8>();
    let mut stream = builder.build();
    assert!(matches!(stream.poll_next(), StreamPoll::Done));
    assert!(stream.is_done());
    let _ = sender.send(9);
    assert!(matches!(stream.poll_next(), StreamPoll::Done));
}

#[test]
fn sender_hands_back_item_when_stream_is_gone() {
    let (sender, builder) = stream_builder::<u8>();
    drop(builder);
    assert_eq!(sender.send(7), Err(7));
}

#[test]
fn built_step_decisions() {
    assert!(matches!(next_built_step(false, Received::Item(Some(3))), (false, StreamPoll::Item(3))));
    assert!(matches!(next_built_step::<u8>(false, Received::Item(None)), (true, StreamPoll::Done)));
    assert!(matches!(next_built_step::<u8>(false, Received::Empty), (false, StreamPoll::Pending)));
    assert!(matches!(
        next_built_step::<u8>(false, Received::Disconnected),
        (false, StreamPoll::Disconnected)
    ));
    assert!(matches!(next_built_step(true, Received::Item(Some(3))), (true, StreamPoll::Done)));
}

#[test]
fn yielder_sends_in_order() {
    let (tx, rx) = std::sync::mpsc::channel::<u32>();
    let y = Yielder::new(tx);
    assert_eq!(y.yield_one(1), Ok(()));
    assert_eq!(y.yield_all(vec![2, 3, 4]), Ok(()));
    let y2 = y.clone();
    assert_eq!(y2.yield_one(5), Ok(()));
    let got: Vec<u32> = rx.try_iter().collect();
    assert_eq!(got, vec![1, 2, 3, 4, 5]);
    drop(rx);
    assert_eq!(y.yield_one(6), Err(6));
    assert_eq!(y.yield_all(vec![7, 8]), Err((0, 7)));
}

#[test]
fn generated_stream_gives_items_then_ends() {
    let mut s = generate_stream(|y: Yielder<u64>| {
        for i in 0..4 {
            y.yield_one(i).unwrap();
        }
    });
    assert!(!s.is_done());
    let (builder, yielder) = s.take_builder().unwrap();
    assert!(s.take_builder().is_none());
    builder(yielder);
    // The generator finished at the first poll.
    let mut got = vec![item(s.after_poll(true)).unwrap()];
    loop {
        match item(s.poll_finished()) {
            Some(v) => got.push(v),
            None => break,
        }
    }
    assert_eq!(got, vec![0, 1, 2, 3]);
    assert!(matches!(s.poll_finished(), StreamPoll::Done));
}

#[test]
fn generated_stream_pending_until_ready() {
    let mut s = generate_stream::<u8, ()>(());
    assert!(matches!(s.after_poll(false), StreamPoll::Pending));
    assert!(!s.is_done());
    assert!(matches!(s.after_poll(true), StreamPoll::Done));
    assert!(matches!(next_generated(false, Received::Item(1u8)), StreamPoll::Item(1)));
    assert!(matches!(next_generated::<u8>(false, Received::Empty), StreamPoll::Pending));
    assert!(matches!(next_generated::<u8>(true, Received::Disconnected), StreamPoll::Done));
}

#[test]
fn try_stream_gives_items_then_error_then_end() {
    let mut s = generate_try_stream(|y: Yielder<u8>| -> Result<(), String> {
        y.yield_one(1).unwrap();
        y.yield_one(2).unwrap();
        Err("boom".to_string())
    });
    let (builder, yielder) = s.take_builder().unwrap();
    assert!(s.take_builder().is_none());
    let result = builder(yielder);
    assert!(matches!(s.after_ready(result), StreamPoll::Item(Ok(1))));
    assert!(matches!(s.poll_finished(), StreamPoll::Item(Ok(2))));
    match s.poll_finished() {
        StreamPoll::Item(Err(e)) => assert_eq!(e, "boom"),
        _ => panic!("expected the error"),
    }
    assert!(matches!(s.poll_finished(), StreamPoll::Done));
}

#[test]
fn try_stream_decisions() {
    assert!(matches!(next_ready::<u8, u8>(Ok(()), Received::Empty), (None, StreamPoll::Done)));
    assert!(matches!(next_ready::<u8, u8>(Err(4), Received::Empty), (None, StreamPoll::Item(Err(4)))));
    assert!(matches!(next_ready::<u8, u8>(Err(4), Received::Item(1)), (Some(4), StreamPoll::Item(Ok(1)))));
    assert!(matches!(next_finished::<u8, u8>(Some(4), Received::Item(2)), (Some(4), StreamPoll::Item(Ok(2)))));
    assert!(matches!(next_finished::<u8, u8>(Some(4), Received::Disconnected), (None, StreamPoll::Item(Err(4)))));
    assert!(matches!(next_finished::<u8, u8>(None, Received::Empty), (None, StreamPoll::Done)));
    let mut s = generate_try_stream::<u8, u8, ()>(());
    assert!(matches!(s.after_pending(), StreamPoll::Pending));
    assert!(!s.is_done());
}

#[test]
fn try_stream_error_comes_before_end() {
    let mut s = generate_try_stream(|_y: Yielder<i32>| -> Result<(), &str> { Err("e") });
    let (builder, yielder) = s.take_builder().unwrap();
    let result = builder(yielder);
    match s.after_ready(result) {
        StreamPoll::Item(Err(e)) => assert_eq!(e, "e"),
        _ => panic!("expected the error at the finishing poll"),
    }
    assert!(matches!(s.poll_finished(), StreamPoll::Done));
    assert!(matches!(s.poll_finished(), StreamPoll::Done));
}

#[test]
fn generator_poll_actions() {
    let mut s = generate_stream(|y: Yielder<u8>| {
        y.yield_one(7).unwrap();
    });
    assert_eq!(s.next_action(), PollAction::Start);
    let (builder, yielder) = s.start();
    builder(yielder);
    assert_eq!(s.next_action(), PollAction::Resume);
    assert!(matches!(s.after_poll(true), StreamPoll::Item(7)));
    assert_eq!(s.next_action(), PollAction::Drain);
    assert!(matches!(s.poll_finished(), StreamPoll::Done));
    assert_eq!(s.next_action(), PollAction::Drain);

    let mut t = generate_try_stream::<u8, u8, ()>(());
    assert_eq!(t.next_action(), PollAction::Start);
    let _ = t.start();
    assert_eq!(t.next_action(), PollAction::Resume);
    assert!(t.take_builder().is_none());
}
