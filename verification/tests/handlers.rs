use std::sync::atomic::{AtomicBool, Ordering};
use std::sync::mpsc;
use std::sync::Arc;

use scap::capturer::engine::mac::handlers::{Capturer, ErrorHandler};

#[test]
fn stopping_with_an_error_raises_the_flag_and_describes_it() {
    let flag = Arc::new(AtomicBool::new(false));
    let handler = ErrorHandler::new(flag.clone());
    let message = handler.stream_did_stop(Some(String::from("display disconnected")));
    assert_eq!(message, "Screen capture error occurred: display disconnected");
    assert!(flag.load(Ordering::Relaxed));
    assert!(Arc::ptr_eq(handler.error_flag(), &flag));
}

#[test]
fn stopping_without_an_error_still_raises_the_flag() {
    let flag = Arc::new(AtomicBool::new(false));
    let handler = ErrorHandler::new(flag.clone());
    assert_eq!(handler.stream_did_stop(None), "Screen capture error occurred.");
    assert!(flag.load(Ordering::Relaxed));
}

#[test]
fn samples_are_forwarded_to_the_channel() {
    let (tx, rx) = mpsc::channel();
    let capturer = Capturer { tx };
    capturer.did_output_sample_buffer((1u32, "screen"));
    capturer.did_output_sample_buffer((2u32, "audio"));
    assert_eq!(rx.recv().unwrap(), (1, "screen"));
    assert_eq!(rx.recv().unwrap(), (2, "audio"));
}

#[test]
fn a_gone_receiver_is_ignored() {
    let (tx, rx) = mpsc::channel::<u8>();
    drop(rx);
    let capturer = Capturer { tx };
    capturer.did_output_sample_buffer(7);
}
