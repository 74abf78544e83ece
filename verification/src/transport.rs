//! The channel transport between the daemon's callback thread and the
//! application thread blocked on an operation.
//!
//! The daemon invokes callbacks on its own event-loop thread, and the
//! buffers behind a callback's arguments are only valid for the
//! duration of the call.  Each blocking operation therefore allocates a
//! transport: the callback decodes its arguments into owned values and
//! queues them on the sending half, while the application thread blocks
//! on the receiving half.  Within one transport, messages are delivered
//! in the order they were queued.

use vstd::prelude::*;

verus! {

#[verifier::external_type_specification]
#[verifier::external_body]
#[verifier::reject_recursive_types(T)]
pub struct ExSender<T>(std::sync::mpsc::Sender<T>);

#[verifier::external_type_specification]
#[verifier::external_body]
#[verifier::reject_recursive_types(T)]
pub struct ExReceiver<T>(std::sync::mpsc::Receiver<T>);

/// The two halves of one transport.  The sending half is cloned into
/// the daemon callback's registration; the receiving half stays with
/// the thread that started the operation.
#[verifier::reject_recursive_types(T)]
pub struct Channel<T> {
    pub receiver: std::sync::mpsc::Receiver<T>,
    pub sender: std::sync::mpsc::Sender<T>,
}

impl<T> Channel<T> {
    /// Relies on `std::sync::mpsc::channel`: a fresh queue whose two
    /// endpoints are connected to each other and to nothing else.
    #[verifier::external_body]
    pub(crate) fn new() -> (transport: Channel<T>) {
        let (sender, receiver) = std::sync::mpsc::channel();
        Channel { receiver, sender }
    }
}

/// Queues a message on a transport's sending half; reports whether the
/// receiving half was still alive to accept it.
///
/// Relies on `std::sync::mpsc::Sender::send`, which fails only when the
/// receiver has been dropped.
#[verifier::external_body]
pub(crate) fn send_message<T>(sender: &std::sync::mpsc::Sender<T>, message: T) -> (accepted:
    bool) {
    sender.send(message).is_ok()
}

/// Blocks until a message arrives on a transport's receiving half;
/// `None` means every sender has been dropped and nothing more will
/// ever arrive.
///
/// Relies on `std::sync::mpsc::Receiver::recv`.
#[verifier::external_body]
pub(crate) fn receive_message<T>(receiver: &std::sync::mpsc::Receiver<T>) -> (message: Option<
    T,
>) {
    receiver.recv().ok()
}

} // verus!
