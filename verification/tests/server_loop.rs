use crush::client_loop::{
    tcp_read, tcp_write, ClientHandle, ClientInfo, Incoming, ReadStep, ToClient, MAILBOX_CAPACITY,
};
use crush::controller::{Controller, Step};
use crush::server_loop::{Reaction, Server, SessionIds, ToServer};

fn handle(id: u64, name: &str, link: u32) -> ClientHandle<u32> {
    ClientHandle::spawn(ClientInfo {
        ip: "127.0.0.1:5000".to_string(),
        id,
        name: name.to_string(),
        link,
    })
}

#[test]
fn ids_rise_from_zero() {
    let mut ids = SessionIds::new();
    let mut last = None;
    for expected in 0..1000u64 {
        let id = ids.next_id();
        assert_eq!(id, Some(expected));
        assert!(id > last);
        last = id;
    }
}

#[test]
fn handle_keeps_what_the_acceptor_knew() {
    let h = handle(3, "station-17", 9);
    assert_eq!(h.id, 3);
    assert_eq!(h.name, "station-17");
    assert_eq!(h.ip, "127.0.0.1:5000");
    assert_eq!(h.link, 9);
    let (link, msg) = h.send("hello".to_string());
    assert_eq!(*link, 9);
    assert_eq!(msg.into_text(), "hello");
}

#[test]
fn new_client_is_kept_under_its_id() {
    let mut server: Server<u32> = Server::new();
    assert_eq!(server.len(), 0);
    assert!(matches!(
        server.handle_message(ToServer::NewClient(handle(1, "a", 10))),
        Reaction::Settled(None)
    ));
    assert!(matches!(
        server.handle_message(ToServer::NewClient(handle(2, "a", 20))),
        Reaction::Settled(None)
    ));
    assert_eq!(server.len(), 2);
    assert!(server.is_connected(1));
    assert!(server.is_connected(2));
    assert!(!server.is_connected(3));
}

#[test]
fn new_client_under_a_live_id_replaces_the_old_one() {
    let mut server: Server<u32> = Server::new();
    server.handle_message(ToServer::NewClient(handle(1, "a", 10)));
    match server.handle_message(ToServer::NewClient(handle(1, "b", 11))) {
        Reaction::Settled(Some(old)) => assert_eq!(old.link, 10),
        _ => panic!("the old handle did not leave"),
    }
    assert_eq!(server.len(), 1);
    let (link, _) = server.deliver(1, String::new()).unwrap();
    assert_eq!(*link, 11);
}

#[test]
fn client_gone_is_idempotent() {
    let mut server: Server<u32> = Server::new();
    server.handle_message(ToServer::NewClient(handle(1, "a", 10)));
    server.handle_message(ToServer::NewClient(handle(2, "b", 20)));
    match server.handle_message(ToServer::ClientGone(1)) {
        Reaction::Settled(Some(gone)) => {
            assert_eq!(gone.id, 1);
            assert_eq!(gone.link, 10);
        }
        _ => panic!("the handle did not leave"),
    }
    assert!(!server.is_connected(1));
    assert_eq!(server.len(), 1);
    assert!(matches!(server.handle_message(ToServer::ClientGone(1)), Reaction::Settled(None)));
    assert!(!server.is_connected(1));
    assert!(server.is_connected(2));
    assert_eq!(server.len(), 1);
    assert!(matches!(server.handle_message(ToServer::ClientGone(77)), Reaction::Settled(None)));
    assert_eq!(server.len(), 1);
}

#[test]
fn text_of_a_live_session_is_dispatched() {
    let mut server: Server<u32> = Server::new();
    server.handle_message(ToServer::NewClient(handle(4, "a", 40)));
    match server.handle_message(ToServer::ClientMessage(4, "[2]".to_string())) {
        Reaction::Dispatch { id, message } => {
            assert_eq!(id, 4);
            assert_eq!(message, "[2]");
        }
        Reaction::Settled(_) => panic!("dropped"),
    }
    assert_eq!(server.len(), 1);
}

#[test]
fn text_of_an_unknown_session_is_dropped() {
    let mut server: Server<u32> = Server::new();
    server.handle_message(ToServer::NewClient(handle(4, "a", 40)));
    assert!(matches!(
        server.handle_message(ToServer::ClientMessage(5, "[2]".to_string())),
        Reaction::Settled(None)
    ));
    server.handle_message(ToServer::ClientGone(4));
    assert!(matches!(
        server.handle_message(ToServer::ClientMessage(4, "[2]".to_string())),
        Reaction::Settled(None)
    ));
}

#[test]
fn answer_goes_to_the_session_that_called() {
    let mut server: Server<u32> = Server::new();
    server.handle_message(ToServer::NewClient(handle(1, "a", 10)));
    server.handle_message(ToServer::NewClient(handle(2, "b", 20)));
    let (link, msg) = server.deliver(2, "answer".to_string()).unwrap();
    assert_eq!(*link, 20);
    assert!(matches!(&msg, ToClient::Message(text) if text == "answer"));
    assert!(server.deliver(3, "answer".to_string()).is_none());
    server.handle_message(ToServer::ClientGone(2));
    assert!(server.deliver(2, "answer".to_string()).is_none());
}

#[test]
fn read_half_forwards_text() {
    let step: ReadStep<u32> = tcp_read(7, Incoming::Text("hi".to_string()));
    assert!(step.proceed);
    assert!(matches!(step.forward, Some(ToServer::ClientMessage(7, text)) if text == "hi"));
}

#[test]
fn read_half_announces_the_end() {
    for incoming in [Incoming::Close, Incoming::Failed, Incoming::Finished] {
        let step: ReadStep<u32> = tcp_read(7, incoming);
        assert!(!step.proceed);
        assert!(matches!(step.forward, Some(ToServer::ClientGone(7))));
    }
}

#[test]
fn read_half_ignores_other_frames() {
    for incoming in [Incoming::Binary, Incoming::Ping, Incoming::Pong, Incoming::Frame] {
        let step: ReadStep<u32> = tcp_read(7, incoming);
        assert!(step.proceed);
        assert!(step.forward.is_none());
    }
}

#[test]
fn write_half_sends_each_message_as_text() {
    assert_eq!(tcp_write(Some(ToClient::Message("out".to_string()))).as_deref(), Some("out"));
    assert_eq!(tcp_write(None), None);
    assert_eq!(MAILBOX_CAPACITY, 64);
}

#[test]
fn answers_keep_the_order_of_the_calls() {
    let controller = Controller::new(false, false, false);
    let mut server: Server<Vec<String>> = Server::new();
    server.handle_message(ToServer::NewClient(ClientHandle::spawn(ClientInfo {
        ip: "10.0.0.1:1".to_string(),
        id: 0,
        name: "load".to_string(),
        link: Vec::new(),
    })));
    let mut sent: Vec<String> = Vec::new();
    for i in 0..100 {
        let call = format!("[2,\"u{}\",\"Heartbeat\",{{}}]", i);
        let step: ReadStep<Vec<String>> = tcp_read(0, Incoming::Text(call));
        assert!(step.proceed);
        match server.handle_message(step.forward.unwrap()) {
            Reaction::Dispatch { id, message } => match controller.handle_message(&message) {
                Step::Reply(text) => {
                    let (_, msg) = server.deliver(id, text).unwrap();
                    sent.push(tcp_write(Some(msg)).unwrap());
                }
                _ => panic!("no answer"),
            },
            Reaction::Settled(_) => panic!("dropped"),
        }
    }
    assert_eq!(sent.len(), 100);
    for (i, text) in sent.iter().enumerate() {
        let parsed: Vec<serde_json::Value> = serde_json::from_str(text).unwrap();
        assert_eq!(parsed[0].as_u64(), Some(3));
        assert_eq!(parsed[1].as_str(), Some(format!("u{}", i).as_str()));
    }
}

#[test]
fn count_follows_the_sessions() {
    let mut server: Server<u32> = Server::new();
    for id in 0..10u64 {
        assert_eq!(server.len(), id as usize);
        server.handle_message(ToServer::NewClient(handle(id, "n", 0)));
        assert_eq!(server.len(), id as usize + 1);
    }
    server.handle_message(ToServer::ClientMessage(3, "text".to_string()));
    assert_eq!(server.len(), 10);
    server.handle_message(ToServer::ClientGone(3));
    assert_eq!(server.len(), 9);
    server.handle_message(ToServer::ClientGone(3));
    assert_eq!(server.len(), 9);
}

#[test]
fn answers_of_two_sessions_do_not_cross() {
    let controller = Controller::new(false, false, false);
    let mut server: Server<u32> = Server::new();
    server.handle_message(ToServer::NewClient(handle(1, "a", 10)));
    server.handle_message(ToServer::NewClient(handle(2, "b", 20)));
    let mut mailboxes: Vec<(u32, String)> = Vec::new();
    let mut expected: Vec<(u32, String)> = Vec::new();
    for i in 0..40u64 {
        let from = 1 + i % 2;
        if i == 25 {
            server.handle_message(ToServer::ClientGone(2));
        }
        let call = format!("[2,\"s{}-{}\",\"StatusNotification\",{{\"connectorId\":1,\"errorCode\":\"NoError\",\"status\":\"Available\"}}]", from, i);
        match server.handle_message(ToServer::ClientMessage(from, call)) {
            Reaction::Dispatch { id, message } => {
                assert_eq!(id, from);
                if let Step::Reply(text) = controller.handle_message(&message) {
                    let (link, msg) = server.deliver(id, text).unwrap();
                    mailboxes.push((*link, msg.into_text()));
                    expected.push((
                        10 * from as u32,
                        format!("[3,\"s{}-{}\",\"StatusNotification\",{{}}]", from, i),
                    ));
                } else {
                    panic!("no answer");
                }
            }
            Reaction::Settled(_) => assert!(from == 2 && i >= 25),
        }
    }
    assert_eq!(mailboxes, expected);
    assert_eq!(mailboxes.iter().filter(|(link, _)| *link == 20).count(), 12);
}
