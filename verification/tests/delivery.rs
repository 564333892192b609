use sdnotify::Message;

fn runtime() -> tokio::runtime::Runtime {
    tokio::runtime::Builder::new_current_thread().enable_io().build().unwrap()
}

#[test]
fn ready_datagram_delivered() {
    runtime().block_on(async {
        let path = "/tmp/test.sock";
        let _ = tokio::fs::remove_file(path).await;
        let listener = tokio::net::UnixDatagram::bind(path).unwrap();
        let client = tokio::net::UnixDatagram::unbound().unwrap();
        client.connect(path).unwrap();
        client.send(&Message::ready().encode()).await.unwrap();
        let mut buf = [0u8; 100];
        let n = listener.recv(&mut buf).await.unwrap();
        assert_eq!(n, 7);
        assert_eq!(&buf[..n], b"READY=1");
    });
}

#[test]
fn status_datagram_delivered() {
    runtime().block_on(async {
        let path = "/tmp/test-status.sock";
        let _ = tokio::fs::remove_file(path).await;
        let listener = tokio::net::UnixDatagram::bind(path).unwrap();
        let client = tokio::net::UnixDatagram::unbound().unwrap();
        client.connect(path).unwrap();
        let message = Message::status(String::from("Processing request 42")).unwrap();
        client.send(&message.encode()).await.unwrap();
        let mut buf = [0u8; 100];
        let n = listener.recv(&mut buf).await.unwrap();
        assert_eq!(&buf[..n], b"STATUS=Processing request 42");
    });
}

#[test]
fn two_ready_sends_arrive_as_two_datagrams() {
    runtime().block_on(async {
        let path = "/tmp/test-twice.sock";
        let _ = tokio::fs::remove_file(path).await;
        let listener = tokio::net::UnixDatagram::bind(path).unwrap();
        let client = tokio::net::UnixDatagram::unbound().unwrap();
        client.connect(path).unwrap();
        client.send(&Message::ready().encode()).await.unwrap();
        client.send(&Message::ready().encode()).await.unwrap();
        let mut buf = [0u8; 100];
        let first = listener.recv(&mut buf).await.unwrap();
        assert_eq!(&buf[..first], b"READY=1");
        let second = listener.recv(&mut buf).await.unwrap();
        assert_eq!(&buf[..second], b"READY=1");
    });
}

#[test]
fn send_without_listener_is_a_transport_error() {
    runtime().block_on(async {
        let path = "/tmp/test-no-listener.sock";
        let _ = tokio::fs::remove_file(path).await;
        // Unconnected discipline: local construction succeeds, the first
        // send surfaces the transport failure.
        let client = tokio::net::UnixDatagram::unbound().unwrap();
        let sent = client.send_to(&Message::ready().encode(), path).await;
        assert!(sent.is_err());
        // Connected discipline: the failure surfaces at open time instead.
        let connected = tokio::net::UnixDatagram::unbound().unwrap();
        assert!(connected.connect(path).is_err());
    });
}
