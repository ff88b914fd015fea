use futures::channel::oneshot;
use portforward::error::Error;
use portforward::port::{resolved, Port};
use portforward::session::{
    keeps_registered, open_ports, wire_ports, Completion, LOCAL_PIPE_CAPACITY, QUEUE_CAPACITY,
};
use std::sync::atomic::{AtomicUsize, Ordering};
use std::sync::Arc;
use std::task::{Wake, Waker};
use tokio::io::{AsyncReadExt, AsyncWriteExt};

struct Counter {
    woken: AtomicUsize,
}

impl Wake for Counter {
    fn wake(self: Arc<Self>) {
        self.woken.fetch_add(1, Ordering::SeqCst);
    }
}

fn counting_waker() -> (Arc<Counter>, Waker) {
    let counter = Arc::new(Counter { woken: AtomicUsize::new(0) });
    (counter.clone(), Waker::from(counter))
}

#[test]
fn port_hands_out_its_stream_once() {
    let (near, _far) = tokio::io::duplex(64);
    let (_tx, rx) = oneshot::channel::<String>();
    let mut port = Port::new(near, rx);
    assert!(port.stream().is_some());
    assert!(port.stream().is_none());
    assert!(port.stream().is_none());
}

#[test]
fn port_hands_out_its_error_signal_once() {
    let (near, _far) = tokio::io::duplex(64);
    let (_tx, rx) = oneshot::channel::<String>();
    let mut port = Port::new(near, rx);
    assert!(port.error().is_some());
    assert!(port.error().is_none());
    assert!(port.error().is_none());
}

#[test]
fn port_keeps_one_handle_when_the_other_is_taken() {
    let (near, _far) = tokio::io::duplex(64);
    let (_tx, rx) = oneshot::channel::<String>();
    let mut port = Port::new(near, rx);
    assert!(port.error().is_some());
    assert!(port.stream().is_some());
    assert!(port.error().is_none());
    assert!(port.stream().is_none());
}

#[test]
fn port_hands_out_the_handles_it_was_made_with() {
    let (near, mut far) = tokio::io::duplex(64);
    let (tx, rx) = oneshot::channel::<String>();
    let mut port = Port::new(near, rx);
    let mut stream = port.stream().unwrap();
    let mut error = port.error().unwrap();
    tx.send("broken".to_string()).unwrap();
    assert_eq!(error.try_recv(), Ok(Some("broken".to_string())));
    let got = futures::executor::block_on(async {
        far.write_all(b"ping").await.unwrap();
        let mut buf = [0u8; 4];
        stream.read_exact(&mut buf).await.unwrap();
        buf
    });
    assert_eq!(&got, b"ping");
}

#[test]
fn resolved_signal_tells_message_from_silence() {
    assert_eq!(resolved(Ok("pod unreachable".to_string())), Some("pod unreachable".to_string()));
    assert_eq!(resolved(Ok(String::new())), Some(String::new()));
    assert_eq!(resolved(Err(oneshot::Canceled)), None);
}

#[test]
fn error_signal_resolves_to_nothing_when_the_sender_goes_away() {
    let mut made = open_ports(1);
    let receiver = made.ports[0].error().unwrap();
    made.error_senders.clear();
    let outcome = futures::executor::block_on(receiver);
    assert_eq!(resolved(outcome), None);
}

#[test]
fn open_ports_makes_one_of_each_for_every_port() {
    for count in [0usize, 1, 2, 17] {
        let mut made = open_ports(count);
        assert_eq!(made.ports.len(), count);
        assert_eq!(made.error_senders.len(), count);
        assert_eq!(made.duplexes.len(), count);
        for port in made.ports.iter_mut() {
            assert!(port.stream().is_some());
            assert!(port.error().is_some());
            assert!(port.stream().is_none());
            assert!(port.error().is_none());
        }
        assert!(made.error_senders.iter().all(|slot| slot.is_some()));
    }
}

#[test]
fn open_ports_joins_each_port_to_its_own_pipe_and_signal() {
    let mut made = open_ports(3);
    let mut far = made.duplexes.remove(1);
    let mut near = made.ports[1].stream().unwrap();
    let mut error = made.ports[1].error().unwrap();
    let mut other = made.ports[2].error().unwrap();
    made.error_senders[1].take().unwrap().send("second".to_string()).unwrap();
    assert_eq!(error.try_recv(), Ok(Some("second".to_string())));
    assert_eq!(other.try_recv(), Ok(None));
    let (there, back) = futures::executor::block_on(async {
        near.write_all(b"to the pod").await.unwrap();
        let mut there = [0u8; 10];
        far.read_exact(&mut there).await.unwrap();
        far.write_all(b"from it").await.unwrap();
        let mut back = [0u8; 7];
        near.read_exact(&mut back).await.unwrap();
        (there, back)
    });
    assert_eq!(&there, b"to the pod");
    assert_eq!(&back, b"from it");
}

#[test]
fn local_pipe_holds_one_mebibyte() {
    assert_eq!(LOCAL_PIPE_CAPACITY, 1_048_576);
    let mut made = open_ports(1);
    let mut near = made.ports[0].stream().unwrap();
    let written = futures::executor::block_on(async {
        let block = vec![0u8; LOCAL_PIPE_CAPACITY + 1];
        near.write(&block).await.unwrap()
    });
    assert_eq!(written, LOCAL_PIPE_CAPACITY);
}

#[test]
fn completion_hands_out_an_outcome_that_is_there() {
    let (counter, waker) = counting_waker();
    let mut completion = Completion::new();
    completion.complete(Ok(()));
    assert!(matches!(completion.poll(&waker), Some(Ok(()))));
    assert_eq!(counter.woken.load(Ordering::SeqCst), 0);
}

#[test]
fn completion_hands_out_the_error_it_was_given() {
    let (_counter, waker) = counting_waker();
    let mut completion = Completion::new();
    completion.complete(Err(Error::InvalidPortMapping { actual: 9999, expected: 8080 }));
    assert!(matches!(
        completion.poll(&waker),
        Some(Err(Error::InvalidPortMapping { actual: 9999, expected: 8080 }))
    ));
}

#[test]
fn completion_hands_out_its_outcome_once() {
    let (_counter, waker) = counting_waker();
    let mut completion = Completion::new();
    completion.complete(Err(Error::InvalidInitialFrameSize));
    assert!(matches!(completion.poll(&waker), Some(Err(Error::InvalidInitialFrameSize))));
    assert!(completion.poll(&waker).is_none());
}

#[test]
fn completion_is_pending_until_the_outcome_comes() {
    let (counter, waker) = counting_waker();
    let mut completion = Completion::new();
    assert!(completion.poll(&waker).is_none());
    assert!(completion.poll(&waker).is_none());
    assert_eq!(counter.woken.load(Ordering::SeqCst), 0);
    completion.complete(Ok(()));
    assert!(matches!(completion.poll(&waker), Some(Ok(()))));
}

#[test]
fn completion_wakes_the_waiter_exactly_once() {
    let (counter, waker) = counting_waker();
    let mut completion = Completion::new();
    assert!(completion.poll(&waker).is_none());
    assert!(completion.poll(&waker).is_none());
    completion.complete(Ok(()));
    assert_eq!(counter.woken.load(Ordering::SeqCst), 1);
    assert!(matches!(completion.poll(&waker), Some(Ok(()))));
    assert_eq!(counter.woken.load(Ordering::SeqCst), 1);
}

#[test]
fn completion_wakes_the_one_who_asked_last() {
    let (first, first_waker) = counting_waker();
    let (second, second_waker) = counting_waker();
    let mut completion = Completion::new();
    assert!(completion.poll(&first_waker).is_none());
    assert!(completion.poll(&second_waker).is_none());
    completion.complete(Ok(()));
    assert_eq!(first.woken.load(Ordering::SeqCst), 0);
    assert_eq!(second.woken.load(Ordering::SeqCst), 1);
}

#[test]
fn completion_wakes_nobody_when_nobody_waits() {
    let mut completion = Completion::new();
    completion.complete(Ok(()));
    let (counter, waker) = counting_waker();
    assert!(matches!(completion.poll(&waker), Some(Ok(()))));
    assert_eq!(counter.woken.load(Ordering::SeqCst), 0);
}

#[test]
fn wire_ports_gives_port_i_the_channel_2i() {
    for count in [0usize, 1, 3, 128] {
        let made = open_ports(count);
        let wiring = wire_ports(made.duplexes).unwrap();
        assert_eq!(wiring.readers.len(), count);
        assert_eq!(wiring.writers.len(), count);
        for (i, (channel, _reader)) in wiring.readers.iter().enumerate() {
            assert_eq!(*channel as usize, 2 * i);
        }
    }
}

#[test]
fn wire_ports_has_no_room_for_more_than_128_ports() {
    assert!(wire_ports(open_ports(129).duplexes).is_none());
    assert!(wire_ports(open_ports(300).duplexes).is_none());
}

#[test]
fn wire_ports_keeps_each_pipe_in_its_place() {
    let mut made = open_ports(2);
    let mut first = made.ports[0].stream().unwrap();
    let mut second = made.ports[1].stream().unwrap();
    let mut wiring = wire_ports(made.duplexes).unwrap();
    let (channel, mut reader) = wiring.readers.remove(1);
    let mut writer = wiring.writers.remove(0);
    assert_eq!(channel, 2);
    let (up, down) = futures::executor::block_on(async {
        second.write_all(b"up").await.unwrap();
        let mut up = [0u8; 2];
        reader.read_exact(&mut up).await.unwrap();
        writer.write_all(b"down").await.unwrap();
        let mut down = [0u8; 4];
        first.read_exact(&mut down).await.unwrap();
        (up, down)
    });
    assert_eq!(&up, b"up");
    assert_eq!(&down, b"down");
}

#[test]
fn queue_holds_one_message() {
    assert_eq!(QUEUE_CAPACITY, 1);
}

#[test]
fn registered_waker_stays_only_if_it_wakes_the_same_task() {
    assert!(keeps_registered(true, true));
    assert!(!keeps_registered(true, false));
    assert!(!keeps_registered(false, true));
    assert!(!keeps_registered(false, false));
}

#[test]
fn completion_registers_the_first_who_asks() {
    let (counter, waker) = counting_waker();
    let mut completion = Completion::new();
    assert!(completion.poll(&waker).is_none());
    completion.complete(Err(Error::InvalidChannel(7)));
    assert_eq!(counter.woken.load(Ordering::SeqCst), 1);
    assert!(matches!(completion.poll(&waker), Some(Err(Error::InvalidChannel(7)))));
}

#[test]
fn completion_replaces_a_waker_for_another_task_each_time() {
    let (first, first_waker) = counting_waker();
    let (second, second_waker) = counting_waker();
    let (third, third_waker) = counting_waker();
    let mut completion = Completion::new();
    assert!(completion.poll(&first_waker).is_none());
    assert!(completion.poll(&second_waker).is_none());
    assert!(completion.poll(&third_waker).is_none());
    assert!(completion.poll(&third_waker).is_none());
    completion.complete(Ok(()));
    assert_eq!(first.woken.load(Ordering::SeqCst), 0);
    assert_eq!(second.woken.load(Ordering::SeqCst), 0);
    assert_eq!(third.woken.load(Ordering::SeqCst), 1);
}
