use vstd::prelude::*;

verus! {

/// What a non-blocking send reports. A message that was not delivered comes back.
pub enum SendOutcome<T> {
    Delivered,
    Full(T),
    Closed(T),
}

/// What a receive finds: a message, nothing yet (a blocking receiver waits), or a
/// handoff that no sender will fill again.
pub enum RecvOutcome<T> {
    Received(T),
    Empty,
    Closed,
}

/// The state of a handoff: its slot, how many sender handles are alive, and
/// whether the receiver is.
pub struct HandoffView<T> {
    pub slot: Option<T>,
    pub senders: nat,
    pub receiver: bool,
}

/// A single-slot channel between two adjacent stages. A send never waits: it fills
/// the empty slot, or reports `Full` and gives the message back, so the producer
/// drops work instead of queueing it. It is closed for senders once the receiver is
/// gone, and for the receiver once the slot is empty and every sender is gone.
///
/// The handoff holds the rules only; threads share it behind a lock and wait on a
/// condition for the receiver to block.
pub struct Handoff<T> {
    slot: Option<T>,
    senders: u64,
    receiver: bool,
}

impl<T> View for Handoff<T> {
    type V = HandoffView<T>;

    closed spec fn view(&self) -> HandoffView<T> {
        HandoffView { slot: self.slot, senders: self.senders as nat, receiver: self.receiver }
    }
}

impl<T> Handoff<T> {
    /// An empty open handoff with one sender and one receiver.
    pub fn new() -> (r: Self)
        ensures
            r@ == (HandoffView::<T> { slot: None, senders: 1, receiver: true }),
    {
        Handoff { slot: None, senders: 1, receiver: true }
    }

    /// Offers `msg` without waiting.
    pub fn try_send(&mut self, msg: T) -> (r: SendOutcome<T>)
        ensures
            !old(self)@.receiver ==> r == SendOutcome::Closed(msg) && final(self)@ == old(self)@,
            old(self)@.receiver && old(self)@.slot is Some ==> r == SendOutcome::Full(msg)
                && final(self)@ == old(self)@,
            old(self)@.receiver && old(self)@.slot is None ==> r == SendOutcome::<T>::Delivered
                && final(self)@ == (HandoffView { slot: Some(msg), ..old(self)@ }),
    {
        if !self.receiver {
            SendOutcome::Closed(msg)
        } else if self.slot.is_some() {
            SendOutcome::Full(msg)
        } else {
            self.slot = Some(msg);
            SendOutcome::Delivered
        }
    }

    /// Takes the message in the slot, if any.
    pub fn try_recv(&mut self) -> (r: RecvOutcome<T>)
        ensures
            old(self)@.slot matches Some(m) ==> r == RecvOutcome::Received(m) && final(self)@
                == (HandoffView { slot: None, ..old(self)@ }),
            old(self)@.slot is None ==> final(self)@ == old(self)@ && r == (if old(self)@.senders
                == 0 {
                RecvOutcome::<T>::Closed
            } else {
                RecvOutcome::<T>::Empty
            }),
    {
        match self.slot.take() {
            Some(m) => RecvOutcome::Received(m),
            None => if self.senders == 0 {
                RecvOutcome::Closed
            } else {
                RecvOutcome::Empty
            },
        }
    }

    /// Registers one more sender handle.
    pub fn add_sender(&mut self)
        requires
            old(self)@.senders < u64::MAX,
        ensures
            final(self)@ == (HandoffView { senders: old(self)@.senders + 1, ..old(self)@ }),
    {
        self.senders = self.senders + 1;
    }

    /// One sender handle is gone; with the last one the receiver sees `Closed` once
    /// the slot is empty.
    pub fn drop_sender(&mut self)
        requires
            old(self)@.senders > 0,
        ensures
            final(self)@ == (HandoffView { senders: (old(self)@.senders - 1) as nat, ..old(self)@ }),
    {
        self.senders = self.senders - 1;
    }

    /// The receiver is gone: every later send reports `Closed`. The message still
    /// in the slot, if any, comes back to the caller.
    pub fn drop_receiver(&mut self) -> (r: Option<T>)
        ensures
            r == old(self)@.slot,
            final(self)@ == (HandoffView::<T> { slot: None, receiver: false, ..old(self)@ }),
    {
        self.receiver = false;
        self.slot.take()
    }

    /// Whether a receiver would find the handoff closed: empty, and no sender left.
    pub fn is_closed_for_receiver(&self) -> (r: bool)
        ensures
            r == (self@.slot is None && self@.senders == 0),
    {
        self.slot.is_none() && self.senders == 0
    }
}

} // verus!
