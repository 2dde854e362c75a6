use std::cell::Cell;
use std::rc::Rc;

use websocket_stream::error::Error;
use websocket_stream::handshake::Handshake;
use websocket_stream::handshake::Phase;
use websocket_stream::handshake::Signal;
use websocket_stream::ws_stream::WebSocketStream;

struct Socket {
    closes: Rc<Cell<u32>>,
}

impl Socket {
    fn close(self) {
        self.closes.set(self.closes.get() + 1);
    }
}

fn begin(handle: u32) -> Handshake<u32> {
    let created: Result<u32, ()> = Ok(handle);
    Handshake::begin(created).ok().expect("handshake")
}

#[test]
fn unsupported_scheme_fails_creation() {
    let created: Result<u32, String> = Err(String::from("unsupported://x"));
    match Handshake::begin(created) {
        Ok(_) => panic!("a handshake began on a refused address"),
        Err(e) => assert_eq!(e, Error::UnsupportedUrlScheme),
    }
}

#[test]
fn handshake_starts_connecting_and_stays_so_without_a_signal() {
    let hs = begin(3);
    assert_eq!(hs.phase(), Phase::Connecting);
    assert!(hs.is_listening());
    assert_eq!(hs.outcome(), None);
    assert_eq!(hs.data(), Some(&3));
    let back = match WebSocketStream::<u32, u8>::new(hs) {
        Ok(_) => panic!("a stream was made of an unsettled handshake"),
        Err(back) => back,
    };
    assert_eq!(back.phase(), Phase::Connecting);
    assert_eq!(back.outcome(), None);
    assert_eq!(back.data(), Some(&3));
}

#[test]
fn ready_first_opens_and_keeps_the_handle() {
    let mut hs = begin(3);
    assert_eq!(hs.resolve(Signal::Ready), None);
    assert_eq!(hs.phase(), Phase::Open);
    assert!(!hs.is_listening());
    assert_eq!(hs.outcome(), Some(Ok(())));
    assert_eq!(hs.data(), Some(&3));
}

#[test]
fn error_signal_closes_the_connection() {
    let closes = Rc::new(Cell::new(0));
    let created: Result<Socket, ()> = Ok(Socket { closes: closes.clone() });
    let mut hs = Handshake::begin(created).ok().expect("handshake");
    match hs.resolve(Signal::Error) {
        Some(socket) => socket.close(),
        None => panic!("the failed handshake kept its handle"),
    }
    assert_eq!(hs.phase(), Phase::Failed);
    assert!(!hs.is_listening());
    assert_eq!(hs.outcome(), Some(Err(Error::ConnectionClosed)));
    assert!(hs.data().is_none());
    assert_eq!(closes.get(), 1);
    assert_eq!(hs.outcome().unwrap().unwrap_err().message(), "Connection closed");
}

#[test]
fn late_signals_are_discarded() {
    let mut hs = begin(9);
    assert_eq!(hs.resolve(Signal::Ready), None);
    assert_eq!(hs.resolve(Signal::Error), None);
    assert_eq!(hs.phase(), Phase::Open);
    assert_eq!(hs.data(), Some(&9));

    let mut hs = begin(9);
    assert_eq!(hs.resolve(Signal::Error), Some(9));
    assert_eq!(hs.resolve(Signal::Ready), None);
    assert_eq!(hs.resolve(Signal::Error), None);
    assert_eq!(hs.phase(), Phase::Failed);
    assert_eq!(hs.data(), None);
}

#[test]
fn abandoning_a_pending_handshake_releases_the_handle() {
    let mut hs = begin(5);
    assert_eq!(hs.abandon(), Some(5));
    assert_eq!(hs.phase(), Phase::Failed);
    assert_eq!(hs.abandon(), None);
    assert_eq!(hs.resolve(Signal::Ready), None);
    assert_eq!(hs.phase(), Phase::Failed);
}

#[test]
fn teardown_after_failed_handshake_closes_nothing_again() {
    let closes = Rc::new(Cell::new(0));
    let created: Result<Socket, ()> = Ok(Socket { closes: closes.clone() });
    let mut hs = Handshake::begin(created).ok().expect("handshake");
    if let Some(socket) = hs.resolve(Signal::Error) {
        socket.close();
    }
    if let Some(socket) = hs.abandon() {
        socket.close();
    }
    let mut back = match WebSocketStream::<Socket, u8>::new(hs) {
        Ok(_) => panic!("a stream was made of a failed handshake"),
        Err(back) => back,
    };
    if let Some(socket) = back.abandon() {
        socket.close();
    }
    assert_eq!(closes.get(), 1);
}

#[test]
fn open_handshake_gives_up_its_guard() {
    let mut hs = begin(8);
    hs.resolve(Signal::Ready);
    let guard = hs.into_guard().ok().expect("guard");
    assert!(!guard.is_closed());
    assert_eq!(guard.data(), Some(&8));
}

#[test]
fn unsettled_and_failed_handshakes_keep_their_guard() {
    let hs = begin(8);
    let back = match hs.into_guard() {
        Ok(_) => panic!("a connecting handshake gave up its guard"),
        Err(back) => back,
    };
    assert_eq!(back.phase(), Phase::Connecting);
    assert_eq!(back.data(), Some(&8));

    let mut hs = begin(8);
    hs.resolve(Signal::Error);
    let back = match hs.into_guard() {
        Ok(_) => panic!("a failed handshake gave up its guard"),
        Err(back) => back,
    };
    assert_eq!(back.phase(), Phase::Failed);
    assert_eq!(back.data(), None);
}
