use futures::channel::mpsc::{unbounded, TryRecvError};
use knet::network::channel::{channel, send, was_accepted};
use knet::{
    ChannelClosed, InnerClient, InnerEvent, InnerServer, KnetTransform, Outbox, Receiver,
    WriteError,
};

#[derive(Debug, PartialEq, Clone, Copy)]
struct Word(u16);

impl KnetTransform for Word {
    fn serialize(&self) -> Vec<u8> {
        self.0.to_be_bytes().to_vec()
    }

    fn deserialize(&mut self, data: &[u8]) {
        *self = Self::from_raw(data);
    }

    fn get_size_of_payload() -> usize {
        1
    }

    fn get_size_of_data(_data: &[u8]) -> usize {
        1
    }

    fn from_raw(data: &[u8]) -> Self {
        Word(u16::from_be_bytes([data[0], data[1]]))
    }
}

fn drain(messages: &mut Receiver<InnerEvent<Word>>) -> Vec<(u8, Word)> {
    let mut out = Vec::new();
    while let Ok(event) = messages.try_recv() {
        match event {
            InnerEvent::Data(pair) => out.push(pair),
            _ => panic!("only values are queued"),
        }
    }
    out
}

fn server_with(peers: u8) -> (InnerServer<Word>, Vec<Receiver<InnerEvent<Word>>>) {
    let mut server = InnerServer::new();
    let mut queues = Vec::new();
    for id in 0..peers {
        queues.push(server.register(id).expect("the slot is free"));
    }
    (server, queues)
}

#[test]
fn write_all_reaches_every_live_peer_once() {
    let (mut server, mut queues) = server_with(4);
    server.release(2);
    assert_eq!(server.write_all(Word(77)), Ok(()));
    assert_eq!(drain(&mut queues[0]), vec![(0, Word(77))]);
    assert_eq!(drain(&mut queues[1]), vec![(1, Word(77))]);
    assert_eq!(drain(&mut queues[2]), vec![]);
    assert_eq!(drain(&mut queues[3]), vec![(3, Word(77))]);
}

#[test]
fn write_all_on_an_empty_table_succeeds() {
    let mut server = InnerServer::<Word>::new();
    assert_eq!(server.write_all(Word(1)), Ok(()));
}

#[test]
fn peer_connected_after_write_all_does_not_get_the_value() {
    let (mut server, mut queues) = server_with(2);
    assert_eq!(server.write_all(Word(5)), Ok(()));
    let mut late = server.register(2).expect("slot 2 is free");
    assert_eq!(drain(&mut late), vec![]);
    assert_eq!(server.write_all(Word(6)), Ok(()));
    assert_eq!(drain(&mut late), vec![(2, Word(6))]);
    assert_eq!(drain(&mut queues[0]), vec![(0, Word(5)), (0, Word(6))]);
    assert_eq!(drain(&mut queues[1]), vec![(1, Word(5)), (1, Word(6))]);
}

#[test]
fn write_all_stops_at_the_first_closed_queue() {
    let (mut server, mut queues) = server_with(4);
    let gone = queues.remove(1);
    drop(gone);
    assert_eq!(server.write_all(Word(9)), Err(WriteError::ChannelClosed(1)));
    assert_eq!(drain(&mut queues[0]), vec![(0, Word(9))]);
    assert_eq!(drain(&mut queues[1]), vec![]);
    assert_eq!(drain(&mut queues[2]), vec![]);
}

#[test]
fn write_reaches_only_its_target() {
    let (mut server, mut queues) = server_with(3);
    assert_eq!(server.write(Word(300), 1), Ok(()));
    assert_eq!(drain(&mut queues[0]), vec![]);
    assert_eq!(drain(&mut queues[1]), vec![(1, Word(300))]);
    assert_eq!(drain(&mut queues[2]), vec![]);
}

#[test]
fn write_keeps_the_order_of_calls() {
    let (mut server, mut queues) = server_with(1);
    for n in 0..10 {
        assert_eq!(server.write(Word(n), 0), Ok(()));
    }
    let got: Vec<u16> = drain(&mut queues[0]).iter().map(|pair| pair.1 .0).collect();
    assert_eq!(got, (0..10).collect::<Vec<u16>>());
}

#[test]
fn write_to_an_empty_slot_is_an_error() {
    let (mut server, mut queues) = server_with(3);
    server.release(1);
    assert_eq!(
        server.write(Word(1), 1),
        Err(WriteError::UnknownConnection(1))
    );
    assert_eq!(drain(&mut queues[1]), vec![]);
}

#[test]
fn write_to_a_slot_out_of_range_is_an_error() {
    let (mut server, _queues) = server_with(3);
    assert_eq!(
        server.write(Word(1), 3),
        Err(WriteError::UnknownConnection(3))
    );
    assert_eq!(
        server.write(Word(1), 255),
        Err(WriteError::UnknownConnection(255))
    );
    let mut empty = InnerServer::<Word>::new();
    assert_eq!(
        empty.write(Word(1), 0),
        Err(WriteError::UnknownConnection(0))
    );
}

#[test]
fn write_to_a_closed_queue_is_an_error() {
    let (mut server, mut queues) = server_with(2);
    drop(queues.remove(0));
    assert_eq!(server.write(Word(1), 0), Err(WriteError::ChannelClosed(0)));
    assert_eq!(server.write(Word(1), 1), Ok(()));
}

#[test]
fn client_write_queues_values_in_order() {
    let (sender, mut outbound) = unbounded();
    let mut client = InnerClient::<Word>::new(sender);
    assert_eq!(client.write(Word(1)), Ok(()));
    assert_eq!(client.write(Word(2)), Ok(()));
    assert_eq!(outbound.try_recv().ok(), Some(Word(1)));
    assert_eq!(outbound.try_recv().ok(), Some(Word(2)));
    assert!(matches!(outbound.try_recv(), Err(TryRecvError::Empty)));
}

#[test]
fn client_write_fails_once_the_writer_is_gone() {
    let (sender, outbound) = unbounded();
    let mut client = InnerClient::<Word>::new(sender);
    drop(outbound);
    assert_eq!(client.write(Word(1)), Err(ChannelClosed));
}

#[test]
fn dropping_the_client_closes_its_queue() {
    let (sender, mut outbound) = unbounded();
    let mut client = InnerClient::<Word>::new(sender);
    assert_eq!(client.write(Word(4)), Ok(()));
    drop(client);
    assert_eq!(outbound.try_recv().ok(), Some(Word(4)));
    assert!(matches!(outbound.try_recv(), Err(TryRecvError::Closed)));
}

#[test]
fn send_reports_whether_the_queue_took_the_message() {
    let (sender, mut receiver) = unbounded::<u32>();
    assert!(send(&sender, 11));
    assert_eq!(receiver.try_recv().ok(), Some(11));
    drop(receiver);
    assert!(!send(&sender, 12));
}

#[test]
fn was_accepted_tells_the_two_outcomes_apart() {
    let (sender, receiver) = unbounded::<u32>();
    assert!(was_accepted(sender.unbounded_send(1)));
    drop(receiver);
    assert!(!was_accepted(sender.unbounded_send(2)));
}

#[test]
fn insert_stores_the_sender_it_is_given() {
    let mut server = InnerServer::<Word>::new();
    let (sender, mut receiver) = unbounded();
    assert!(server.insert(2, sender));
    assert_eq!(server.write(Word(8), 2), Ok(()));
    assert_eq!(drain(&mut receiver), vec![(2, Word(8))]);
    assert_eq!(server.free_slot(), Some(0));
}

#[test]
fn insert_leaves_a_taken_slot_alone() {
    let (mut server, mut queues) = server_with(1);
    let (sender, mut receiver) = unbounded();
    assert!(!server.insert(0, sender));
    assert_eq!(server.write(Word(8), 0), Ok(()));
    assert_eq!(drain(&mut queues[0]), vec![(0, Word(8))]);
    assert!(matches!(receiver.try_recv(), Err(TryRecvError::Closed)));
}

#[test]
fn register_pairs_the_queue_with_the_slot() {
    let mut server = InnerServer::<Word>::new();
    let mut first = server.register(0).expect("slot 0 is free");
    let mut second = server.register(1).expect("slot 1 is free");
    assert_eq!(server.write(Word(1), 1), Ok(()));
    assert_eq!(server.write(Word(2), 0), Ok(()));
    assert_eq!(drain(&mut first), vec![(0, Word(2))]);
    assert_eq!(drain(&mut second), vec![(1, Word(1))]);
}

#[test]
fn channel_returns_the_two_ends_of_one_queue() {
    let (sender, mut receiver) = channel::<u32>();
    let (other_sender, mut other_receiver) = channel::<u32>();
    assert!(sender.is_connected_to(&receiver));
    assert!(!sender.is_connected_to(&other_receiver));
    assert!(send(&sender, 5));
    assert!(send(&other_sender, 6));
    assert_eq!(receiver.try_recv().ok(), Some(5));
    assert_eq!(other_receiver.try_recv().ok(), Some(6));
    assert!(matches!(receiver.try_recv(), Err(TryRecvError::Empty)));
}

#[test]
fn failed_write_queues_nothing_for_anyone() {
    let (mut server, mut queues) = server_with(3);
    server.release(1);
    assert_eq!(
        server.write(Word(1), 1),
        Err(WriteError::UnknownConnection(1))
    );
    assert_eq!(
        server.write(Word(1), 9),
        Err(WriteError::UnknownConnection(9))
    );
    for queue in queues.iter_mut() {
        assert_eq!(drain(queue), vec![]);
    }
    assert_eq!(server.free_slot(), Some(1));
}

#[test]
fn write_all_skips_a_free_slot() {
    let mut server = InnerServer::<Word>::new();
    let mut queue = server.register(1).expect("slot 1 is free");
    assert_eq!(server.write_all(Word(7)), Ok(()));
    assert_eq!(drain(&mut queue), vec![(1, Word(7))]);
    assert_eq!(server.free_slot(), Some(0));
    assert_eq!(
        server.write(Word(1), 0),
        Err(WriteError::UnknownConnection(0))
    );
}

#[test]
fn write_all_after_a_failure_leaves_the_table_usable() {
    let (mut server, mut queues) = server_with(3);
    drop(queues.remove(1));
    assert_eq!(server.write_all(Word(1)), Err(WriteError::ChannelClosed(1)));
    server.release(1);
    assert_eq!(server.write_all(Word(2)), Ok(()));
    assert_eq!(drain(&mut queues[0]), vec![(0, Word(1)), (0, Word(2))]);
    assert_eq!(drain(&mut queues[1]), vec![(2, Word(2))]);
}

#[test]
fn outbox_sends_each_message_once_and_in_order() {
    let (sender, mut receiver) = unbounded::<u32>();
    let mut outbox = Outbox::new(sender);
    assert!(outbox.push(1));
    assert!(outbox.push(2));
    assert!(outbox.push(1));
    assert_eq!(receiver.try_recv().ok(), Some(1));
    assert_eq!(receiver.try_recv().ok(), Some(2));
    assert_eq!(receiver.try_recv().ok(), Some(1));
    assert!(matches!(receiver.try_recv(), Err(TryRecvError::Empty)));
}

#[test]
fn outbox_reports_a_closed_queue() {
    let (sender, receiver) = unbounded::<u32>();
    let mut outbox = Outbox::new(sender);
    drop(receiver);
    assert!(!outbox.push(1));
    assert!(!outbox.push(2));
}

#[test]
fn client_write_queues_a_value_once() {
    let (sender, mut outbound) = unbounded();
    let mut client = InnerClient::<Word>::new(sender);
    assert_eq!(client.write(Word(3)), Ok(()));
    assert_eq!(outbound.try_recv().ok(), Some(Word(3)));
    assert!(matches!(outbound.try_recv(), Err(TryRecvError::Empty)));
}
