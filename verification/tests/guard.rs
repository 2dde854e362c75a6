use std::cell::Cell;
use std::rc::Rc;

use websocket_stream::error::Error;
use websocket_stream::safe_ws::SafeWebSocket;

/// A stand-in for a native handle that counts how often it is closed.
struct Socket {
    closes: Rc<Cell<u32>>,
}

impl Socket {
    fn close(self) {
        self.closes.set(self.closes.get() + 1);
    }
}

#[test]
fn refused_address_makes_no_guard() {
    let created: Result<u32, &str> = Err("unsupported://x");
    match SafeWebSocket::new(created) {
        Ok(_) => panic!("a guard was made for a refused address"),
        Err(e) => assert_eq!(e, Error::UnsupportedUrlScheme),
    }
}

#[test]
fn fresh_guard_owns_its_handle() {
    let created: Result<u32, ()> = Ok(41);
    let guard = SafeWebSocket::new(created).ok().expect("guard");
    assert!(!guard.is_closed());
    assert_eq!(guard.data(), Some(&41));
}

#[test]
fn release_hands_the_handle_out_once() {
    let created: Result<String, ()> = Ok(String::from("ws://host"));
    let mut guard = SafeWebSocket::new(created).ok().expect("guard");
    assert_eq!(guard.release(), Some(String::from("ws://host")));
    assert!(guard.is_closed());
    assert_eq!(guard.data(), None);
    assert_eq!(guard.release(), None);
    assert_eq!(guard.release(), None);
    assert!(guard.is_closed());
}

#[test]
fn handle_is_closed_exactly_once_over_repeated_teardown() {
    let closes = Rc::new(Cell::new(0));
    let created: Result<Socket, ()> = Ok(Socket { closes: closes.clone() });
    let mut guard = SafeWebSocket::new(created).ok().expect("guard");
    assert_eq!(closes.get(), 0);
    for _ in 0..5 {
        if let Some(socket) = guard.release() {
            socket.close();
        }
    }
    assert_eq!(closes.get(), 1);
}

#[test]
fn error_messages_are_exact() {
    assert_eq!(Error::UnsupportedUrlScheme.message(), "URL scheme not supported");
    assert_eq!(Error::ConnectionClosed.message(), "Connection closed");
}
