//! The handlers that a capture stream reports to: one for the stream
//! stopping on an error, one for each captured sample.

use std::sync::Arc;
use std::sync::atomic::AtomicBool;
use std::sync::atomic::Ordering;
use std::sync::mpsc::Sender;

use vstd::prelude::*;

verus! {

#[verifier::external_type_specification]
#[verifier::external_body]
#[verifier::reject_recursive_types(T)]
pub struct ExSender<T>(Sender<T>);

/// Hands `item` to the receiving end of the channel with `Sender::send`.
/// The send fails only when the receiver is gone; whether it was is not
/// stated, so nothing is claimed of the result.
#[verifier::external_body]
fn send_to_channel<T>(tx: &Sender<T>, item: T) -> (sent: bool) {
    tx.send(item).is_ok()
}

/// Raises a shared flag when the capture stream stops on an error.
pub struct ErrorHandler {
    error_flag: Arc<AtomicBool>,
}

/// The message reported when the stream stops, with the error's
/// description where there is one.
pub open spec fn stop_message(error: Option<String>) -> Seq<char> {
    match error {
        Some(err) => "Screen capture error occurred: "@ + err@,
        None => "Screen capture error occurred."@,
    }
}

impl ErrorHandler {
    pub fn new(error_flag: Arc<AtomicBool>) -> (h: ErrorHandler)
        ensures
            h.flag() == error_flag,
    {
        ErrorHandler { error_flag }
    }

    /// The flag that this handler raises.
    pub closed spec fn flag(&self) -> Arc<AtomicBool> {
        self.error_flag
    }

    /// The flag that this handler raises.
    pub fn error_flag(&self) -> (f: &Arc<AtomicBool>)
        ensures
            *f == self.flag(),
    {
        &self.error_flag
    }

    /// Raises the error flag and returns the message to report.
    pub fn stream_did_stop(&self, error: Option<String>) -> (message: String)
        ensures
            message@ == stop_message(error),
    {
        let message = match &error {
            Some(err) => {
                let mut m = String::from_str("Screen capture error occurred: ");
                proof {
                    reveal_strlit("Screen capture error occurred: ");
                }
                m.append(err.as_str());
                m
            },
            None => {
                proof {
                    reveal_strlit("Screen capture error occurred.");
                }
                String::from_str("Screen capture error occurred.")
            },
        };
        self.error_flag.store(true, Ordering::Relaxed);
        message
    }
}

/// Forwards each captured sample, with the kind of output it came from, to
/// the channel that the capture's frames are read from.
#[verifier::reject_recursive_types(T)]
pub struct Capturer<T> {
    pub tx: Sender<T>,
}

impl<T> Capturer<T> {
    /// Sends `item` down the channel; a receiver that is gone is ignored.
    pub fn did_output_sample_buffer(&self, item: T) {
        let _ = send_to_channel(&self.tx, item);
    }
}

} // verus!
