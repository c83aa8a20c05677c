//! What two threads share: channels from one to the other, and a flag.
//!
//! Each end keeps a ghost record of what was done with it: the messages that it sent or took,
//! the values that it wrote. The ends of std are reached through these functions only, so the
//! record of an end is complete.

use std::sync::atomic::AtomicBool;
use std::sync::mpsc::{channel, Receiver, Sender};
use std::sync::Arc;
use vstd::prelude::*;

verus! {

/// The sending end of a channel of std.
#[verifier::external_type_specification]
#[verifier::external_body]
#[verifier::reject_recursive_types(T)]
pub struct ExSender<T>(std::sync::mpsc::Sender<T>);

/// The receiving end of a channel of std.
#[verifier::external_type_specification]
#[verifier::external_body]
#[verifier::reject_recursive_types(T)]
pub struct ExReceiver<T>(std::sync::mpsc::Receiver<T>);

/// The error of a send whose receiver is gone.
#[verifier::external_type_specification]
#[verifier::external_body]
#[verifier::reject_recursive_types(T)]
pub struct ExSendError<T>(std::sync::mpsc::SendError<T>);

/// The error of a wait whose sender is gone.
#[verifier::external_type_specification]
#[verifier::external_body]
pub struct ExRecvError(std::sync::mpsc::RecvError);

/// The error of a look into an empty or closed channel.
#[verifier::external_type_specification]
#[verifier::external_body]
pub struct ExTryRecvError(std::sync::mpsc::TryRecvError);

/// `std::sync::mpsc::channel`: the two ends of a new channel. How messages travel between them
/// is left unsaid: it depends on what both threads do.
pub assume_specification<T>[ std::sync::mpsc::channel::<T> ]() -> (r: (
    std::sync::mpsc::Sender<T>,
    std::sync::mpsc::Receiver<T>,
));

/// `std::sync::mpsc::Sender::send`. Whether the other thread still listens decides, so nothing
/// is promised of the result.
pub assume_specification<T>[ std::sync::mpsc::Sender::<T>::send ](
    sender: &std::sync::mpsc::Sender<T>,
    message: T,
) -> (r: Result<(), std::sync::mpsc::SendError<T>>);

/// `std::sync::mpsc::Receiver::recv`. The other thread decides, so nothing is promised of the
/// result.
pub assume_specification<T>[ std::sync::mpsc::Receiver::<T>::recv ](
    receiver: &std::sync::mpsc::Receiver<T>,
) -> (r: Result<T, std::sync::mpsc::RecvError>);

/// `std::sync::mpsc::Receiver::try_recv`. The other thread decides, so nothing is promised of
/// the result.
pub assume_specification<T>[ std::sync::mpsc::Receiver::<T>::try_recv ](
    receiver: &std::sync::mpsc::Receiver<T>,
) -> (r: Result<T, std::sync::mpsc::TryRecvError>);

/// Whether these two are the ends of a channel, as it was made.
pub open spec fn is_channel<T>(sender: Sender<T>, receiver: Receiver<T>) -> bool {
    call_ensures(channel::<T>, (), (sender, receiver))
}

/// Whether sending the message may turn out like this.
pub open spec fn may_send<T>(sender: Sender<T>, message: T, accepted: bool) -> bool {
    exists|outcome: Result<(), std::sync::mpsc::SendError<T>>| #[trigger]
        call_ensures(Sender::<T>::send, (&sender, message), outcome) && accepted == outcome is Ok
}

/// Whether waiting for a message may give this one, or none.
pub open spec fn may_receive<T>(receiver: Receiver<T>, message: Option<T>) -> bool {
    exists|outcome: Result<T, std::sync::mpsc::RecvError>| #[trigger]
        call_ensures(Receiver::<T>::recv, (&receiver,), outcome) && message == (match outcome {
            Ok(received) => Some(received),
            Err(_) => None,
        })
}

/// Whether looking for a message without waiting may give this one, or none.
pub open spec fn may_find<T>(receiver: Receiver<T>, message: Option<T>) -> bool {
    exists|outcome: Result<T, std::sync::mpsc::TryRecvError>| #[trigger]
        call_ensures(Receiver::<T>::try_recv, (&receiver,), outcome) && message == (
        match outcome {
            Ok(received) => Some(received),
            Err(_) => None,
        })
}

/// Whether the flag is a new one that does not stand.
pub open spec fn is_lowered_flag(flag: Arc<AtomicBool>) -> bool {
    call_ensures(AtomicBool::new, (false,), *flag)
}

/// Whether reading the flag may give this value.
pub open spec fn may_read(flag: Arc<AtomicBool>, value: bool) -> bool {
    call_ensures(AtomicBool::load, (&*flag, std::sync::atomic::Ordering::Acquire), value)
}

/// The value was written into the flag.
pub open spec fn is_written(flag: Arc<AtomicBool>, value: bool) -> bool {
    call_ensures(AtomicBool::store, (&*flag, value, std::sync::atomic::Ordering::Release), ())
}

/// The messages, with one more at the end where there is one.
pub open spec fn with_message<T>(messages: Seq<T>, message: Option<T>) -> Seq<T> {
    match message {
        Some(new) => messages.push(new),
        None => messages,
    }
}

/// The sending end of a channel, until it is closed.
#[verifier::reject_recursive_types(T)]
pub struct Outlet<T> {
    sender: Option<Sender<T>>,
    record: Ghost<Seq<T>>,
}

impl<T> Outlet<T> {
    /// The end of std, while this one is open.
    pub closed spec fn end(&self) -> Option<Sender<T>> {
        self.sender
    }

    /// The messages that were sent and accepted, the first one first: the other end was still
    /// there then.
    pub closed spec fn sent(&self) -> Seq<T> {
        self.record@
    }

    /// Whether messages can still be sent.
    pub fn is_open(&self) -> (r: bool)
        ensures
            r == self.end() is Some,
    {
        self.sender.is_some()
    }

    /// Sends one message, and says whether it was accepted. A closed end sends nothing.
    pub fn send(&mut self, message: T) -> (r: bool)
        ensures
            match old(self).end() {
                Some(sender) => may_send(sender, message, r),
                None => !r,
            },
            final(self).end() == old(self).end(),
            final(self).sent() == (if r {
                old(self).sent().push(message)
            } else {
                old(self).sent()
            }),
    {
        let ghost handed = message;
        let accepted = match &self.sender {
            Some(sender) => {
                let outcome = sender.send(message);
                assert(may_send(*sender, handed, outcome is Ok));
                outcome.is_ok()
            },
            None => false,
        };
        proof {
            if accepted {
                self.record@ = self.record@.push(handed);
            }
        }
        accepted
    }

    /// Closes the end: whoever waits at the other one waits no longer.
    pub fn close(&mut self)
        ensures
            final(self).end() is None,
            final(self).sent() == old(self).sent(),
    {
        self.sender = None;
    }
}

/// The receiving end of a channel.
#[verifier::reject_recursive_types(T)]
pub struct Inlet<T> {
    receiver: Receiver<T>,
    record: Ghost<Seq<T>>,
}

impl<T> Inlet<T> {
    /// The end of std.
    pub closed spec fn end(&self) -> Receiver<T> {
        self.receiver
    }

    /// The messages that were taken out, the first one first.
    pub closed spec fn taken(&self) -> Seq<T> {
        self.record@
    }

    /// Waits for a message. There is none where the other end is gone.
    pub fn receive(&mut self) -> (r: Option<T>)
        ensures
            may_receive(old(self).end(), r),
            final(self).end() == old(self).end(),
            final(self).taken() == with_message(old(self).taken(), r),
    {
        let message = match self.receiver.recv() {
            Ok(received) => Some(received),
            Err(_) => None,
        };
        assert(may_receive(self.receiver, message));
        proof {
            self.record@ = with_message(self.record@, message);
        }
        message
    }

    /// Looks for a message without waiting.
    pub fn look(&mut self) -> (r: Option<T>)
        ensures
            may_find(old(self).end(), r),
            final(self).end() == old(self).end(),
            final(self).taken() == with_message(old(self).taken(), r),
    {
        let message = match self.receiver.try_recv() {
            Ok(received) => Some(received),
            Err(_) => None,
        };
        assert(may_find(self.receiver, message));
        proof {
            self.record@ = with_message(self.record@, message);
        }
        message
    }
}

/// The two ends of a new channel.
pub fn connected<T>() -> (r: (Outlet<T>, Inlet<T>))
    ensures
        r.0.end() matches Some(sender) && is_channel(sender, r.1.end()),
        r.0.sent() == Seq::<T>::empty(),
        r.1.taken() == Seq::<T>::empty(),
{
    let (sender, receiver) = channel();
    (
        Outlet { sender: Some(sender), record: Ghost(Seq::empty()) },
        Inlet { receiver, record: Ghost(Seq::empty()) },
    )
}

/// Whether a flag stands into which these values were written, one after the other. It does
/// not stand before the first.
pub open spec fn raised(written: Seq<bool>) -> bool {
    written.len() > 0 && written.last()
}

/// The end of a flag that raises and lowers it.
pub struct FlagWriter {
    flag: Arc<AtomicBool>,
    record: Ghost<Seq<bool>>,
}

impl FlagWriter {
    /// The flag of std.
    pub closed spec fn flag(&self) -> Arc<AtomicBool> {
        self.flag
    }

    /// The values that were written, the first one first.
    pub closed spec fn written(&self) -> Seq<bool> {
        self.record@
    }

    /// Writes the value into the flag.
    pub fn write(&mut self, value: bool)
        ensures
            is_written(old(self).flag(), value),
            final(self).flag() == old(self).flag(),
            final(self).written() == old(self).written().push(value),
    {
        self.flag.store(value, std::sync::atomic::Ordering::Release);
        proof {
            self.record@ = self.record@.push(value);
        }
    }
}

/// The end of a flag that looks at it.
pub struct FlagReader {
    flag: Arc<AtomicBool>,
}

impl FlagReader {
    /// The flag of std.
    pub closed spec fn flag(&self) -> Arc<AtomicBool> {
        self.flag
    }

    /// Whether the flag stands at this moment.
    pub fn read(&self) -> (r: bool)
        ensures
            may_read(self.flag(), r),
    {
        self.flag.load(std::sync::atomic::Ordering::Acquire)
    }
}

/// The two ends of a new flag, which does not stand.
pub fn shared_flag() -> (r: (FlagWriter, FlagReader))
    ensures
        r.0.flag() == r.1.flag(),
        is_lowered_flag(r.0.flag()),
        r.0.written() == Seq::<bool>::empty(),
{
    let flag = Arc::new(AtomicBool::new(false));
    (FlagWriter { flag: flag.clone(), record: Ghost(Seq::empty()) }, FlagReader { flag })
}

/// A flag stands where the last value that was written is `true`: raising raises it, lowering
/// lowers it, and before the first write it does not stand.
pub proof fn lemma_last_write_counts(written: Seq<bool>, value: bool)
    ensures
        raised(written.push(value)) == value,
        !raised(Seq::<bool>::empty()),
{
}

/// A message that came is the last of the messages then; none leaves them as they are.
pub proof fn lemma_messages_grow_at_the_end<T>(messages: Seq<T>, message: T)
    ensures
        with_message(messages, Some(message)).drop_last() == messages,
        with_message(messages, Some(message)).last() == message,
        with_message(messages, None) == messages,
{
    assert(with_message(messages, Some(message)).drop_last() =~= messages);
}

} // verus!
