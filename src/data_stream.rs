use std::sync::mpsc::Receiver;
use std::time::Duration;
use vstd::prelude::*;

verus! {

#[verifier::external_type_specification]
#[verifier::external_body]
#[verifier::reject_recursive_types(T)]
pub struct ExReceiver<T>(Receiver<T>);

/// Relies on `Receiver::recv_timeout`: waits at most `timeout` for a value
/// sent on the channel. What arrives depends on the sending thread, so nothing
/// is promised of it; a timeout or a closed channel gives none.
#[verifier::external_body]
fn receive_within<T>(receiver: &Receiver<T>, timeout: Duration) -> (r: Option<T>) {
    receiver.recv_timeout(timeout).ok()
}

/// The values received on a channel so far, in the order they arrived.
#[verifier::reject_recursive_types(T)]
pub struct DataStream<T> {
    receiver: Receiver<T>,
    data: Vec<T>,
}

impl<T> View for DataStream<T> {
    type V = Seq<T>;

    closed spec fn view(&self) -> Seq<T> {
        self.data@
    }
}

impl<T> DataStream<T> {
    pub fn new(receiver: Receiver<T>) -> (r: DataStream<T>)
        ensures
            r@ == Seq::<T>::empty(),
    {
        DataStream { receiver, data: Vec::new() }
    }

    /// Waits at most `timeout` for one more value and keeps it if one arrives.
    pub fn update(&mut self, timeout: Duration)
        ensures
            final(self)@ == old(self)@ || (final(self)@.len() == old(self)@.len() + 1
                && final(self)@.drop_last() == old(self)@),
    {
        let new_data = receive_within(&self.receiver, timeout);
        self.keep(new_data);
    }

    /// Appends the value that arrived, if one did.
    pub fn keep(&mut self, value: Option<T>)
        ensures
            final(self)@ == match value {
                Some(x) => old(self)@.push(x),
                None => old(self)@,
            },
    {
        if let Some(x) = value {
            self.data.push(x);
        }
    }

    pub fn get_data(&self) -> (r: &[T])
        ensures
            r@ == self@,
    {
        self.data.as_slice()
    }
}

} // verus!
