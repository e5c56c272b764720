//! Channels for a single value. Each has a number, which both of its ends bear.
use tokio::sync::oneshot;
use vstd::prelude::*;

verus! {

#[verifier::external_type_specification]
#[verifier::external_body]
#[verifier::reject_recursive_types(T)]
pub struct ExSender<T>(oneshot::Sender<T>);

#[verifier::external_type_specification]
#[verifier::external_body]
#[verifier::reject_recursive_types(T)]
pub struct ExReceiver<T>(oneshot::Receiver<T>);

#[verifier::external_type_specification]
#[verifier::external_body]
pub struct ExRecvError(oneshot::error::RecvError);

/// The number of a channel that is still to be opened. Opening the channel uses it
/// up, so no two channels are opened under it.
pub struct ChannelNumber {
    value: u64,
}

impl ChannelNumber {
    pub closed spec fn view(&self) -> u64 {
        self.value
    }

    /// The number itself.
    pub fn get(&self) -> (n: u64)
        ensures
            n == self@,
    {
        self.value
    }
}

/// Gives out numbers for channels, one after the other.
pub struct ChannelCounter {
    next: u64,
}

impl ChannelCounter {
    /// The number that is given out next.
    pub closed spec fn view(&self) -> u64 {
        self.next
    }

    /// A counter that starts at one.
    pub fn new() -> (c: ChannelCounter)
        ensures
            c@ == 1,
    {
        ChannelCounter { next: 1 }
    }

    /// Gives out the next number.
    pub fn take(&mut self) -> (n: ChannelNumber)
        ensures
            n@ == old(self)@,
            final(self)@ == old(self)@.wrapping_add(1),
    {
        let value: u64 = self.next;
        self.next = value.wrapping_add(1);
        ChannelNumber { value }
    }
}

/// The end of a channel into which a value is put.
#[derive(Debug)]
#[verifier::reject_recursive_types(T)]
pub struct ChannelSender<T> {
    number: u64,
    end: oneshot::Sender<T>,
}

impl<T> ChannelSender<T> {
    /// The number of the channel.
    pub closed spec fn number(&self) -> u64 {
        self.number
    }
}

/// The end of a channel out of which its value comes.
#[derive(Debug)]
#[verifier::reject_recursive_types(T)]
pub struct ChannelReceiver<T> {
    number: u64,
    end: oneshot::Receiver<T>,
}

impl<T> ChannelReceiver<T> {
    /// The number of the channel.
    pub closed spec fn number(&self) -> u64 {
        self.number
    }

    /// What is waited on.
    pub closed spec fn end(&self) -> oneshot::Receiver<T> {
        self.end
    }

    /// What is waited on.
    pub fn into_end(self) -> (end: oneshot::Receiver<T>)
        ensures
            end == self.end(),
    {
        self.end
    }
}

/// `tokio::sync::oneshot::channel`: the two ends of one channel. Both bear the
/// number that it was opened under. As a counter gives out each number once before it
/// wraps around, a sender and a receiver with the same number of the same counter are
/// the ends of one channel. Nothing is stated of what is inside them.
#[verifier::external_body]
pub(crate) fn open_channel<T>(n: ChannelNumber) -> (ends: (ChannelSender<T>, ChannelReceiver<T>))
    ensures
        ends.0.number() == n@,
        ends.1.number() == n@,
{
    let (sender, receiver) = oneshot::channel();
    (
        ChannelSender { number: n.value, end: sender },
        ChannelReceiver { number: n.value, end: receiver },
    )
}

/// `oneshot::Sender::send`: hands a value to the receiver of the same channel.
/// Whether the receiver still listens depends on the task that holds it.
#[verifier::external_body]
pub(crate) fn send<T>(sender: ChannelSender<T>, value: T) -> (received: bool) {
    sender.end.send(value).is_ok()
}

} // verus!
