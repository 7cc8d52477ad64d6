//! A slot that fills itself, once, from a download running elsewhere.

use vstd::prelude::*;
use crossbeam_channel::Receiver;
use crossbeam_channel::Sender;
use crate::fetch::outcome;
use crate::fetch::resolve;
use crate::fetch::FetchError;
use crate::fetch::FetchReply;
use crate::fetch::Fetched;
use crate::handoff::channel;
use crate::handoff::offer;
use crate::handoff::try_receive;
use crate::handoff::Handoff;
use crate::handoff::ONE_SHOT;
use crate::picture::Picture;

verus! {

/// The state of a slot.
#[derive(Debug)]
pub enum Slot {
    /// The download has not reported yet.
    Pending,
    /// The picture has arrived.
    Ready(Picture),
    /// There will be no picture.
    Failed(FetchError),
}

impl Slot {
    /// The slot after one look at the channel found `handoff`. Only a pending
    /// slot moves; a slot that is ready or failed stays as it is.
    pub open spec fn settle(self, handoff: Handoff) -> Slot {
        match self {
            Slot::Pending => match handoff {
                Handoff::Waiting => Slot::Pending,
                Handoff::Arrived(Ok(picture)) => Slot::Ready(picture),
                Handoff::Arrived(Err(cause)) => Slot::Failed(cause),
                Handoff::Closed => Slot::Failed(FetchError::Abandoned),
            },
            _ => self,
        }
    }

    /// The slot after a run of looks at the channel, taken in order.
    pub open spec fn settle_all(self, handoffs: Seq<Handoff>) -> Slot
        decreases handoffs.len(),
    {
        if handoffs.len() == 0 {
            self
        } else {
            self.settle(handoffs.first()).settle_all(handoffs.drop_first())
        }
    }

    /// What is put on screen for the slot: its picture, or `fallback` while
    /// there is none.
    pub open spec fn shown(self, fallback: Picture) -> Picture {
        match self {
            Slot::Ready(picture) => picture,
            _ => fallback,
        }
    }
}

/// A slot that is ready or failed is past changing: whatever is found on the
/// channel afterwards, and however often one looks, it stays as it is and
/// shows what it showed.
pub proof fn lemma_settled_slot_stays(slot: Slot, handoffs: Seq<Handoff>, fallback: Picture)
    requires
        !(slot is Pending),
    ensures
        slot.settle_all(handoffs) == slot,
        slot.settle_all(handoffs).shown(fallback) == slot.shown(fallback),
    decreases handoffs.len(),
{
    if handoffs.len() > 0 {
        lemma_settled_slot_stays(slot, handoffs.drop_first(), fallback);
    }
}

/// While every look at the channel finds the download still at work, the slot
/// stays pending and shows the fallback, the same one each time.
pub proof fn lemma_waiting_slot_shows_fallback(handoffs: Seq<Handoff>, fallback: Picture)
    requires
        forall|i: int| 0 <= i < handoffs.len() ==> #[trigger] handoffs[i] is Waiting,
    ensures
        Slot::Pending.settle_all(handoffs) == Slot::Pending,
        Slot::Pending.settle_all(handoffs).shown(fallback) == fallback,
    decreases handoffs.len(),
{
    if handoffs.len() > 0 {
        let rest = handoffs.drop_first();
        assert(handoffs.first() == handoffs[0]);
        assert forall|i: int| 0 <= i < rest.len() implies #[trigger] rest[i] is Waiting by {
            assert(rest[i] == handoffs[i + 1]);
        }
        lemma_waiting_slot_shows_fallback(rest, fallback);
    }
}

/// A slot never goes back: once it has left the pending state, no run of
/// looks at the channel makes it pending again.
pub proof fn lemma_slot_never_reverts(slot: Slot, handoffs: Seq<Handoff>)
    ensures
        slot.settle_all(handoffs) is Pending ==> slot is Pending,
    decreases handoffs.len(),
{
    if handoffs.len() > 0 {
        lemma_slot_never_reverts(slot.settle(handoffs.first()), handoffs.drop_first());
    }
}

/// A picture that is being downloaded, or has been, or never will be.
pub struct Photo {
    slot: Slot,
    channel: Receiver<Fetched>,
}

impl View for Photo {
    type V = Slot;

    closed spec fn view(&self) -> Slot {
        self.slot
    }
}

impl Photo {
    /// Takes in what a look at the channel found.
    pub fn absorb(&mut self, handoff: Handoff)
        ensures
            final(self)@ == old(self)@.settle(handoff),
    {
        match self.slot {
            Slot::Pending => match handoff {
                Handoff::Waiting => {},
                Handoff::Arrived(Ok(picture)) => {
                    self.slot = Slot::Ready(picture);
                },
                Handoff::Arrived(Err(cause)) => {
                    self.slot = Slot::Failed(cause);
                },
                Handoff::Closed => {
                    self.slot = Slot::Failed(FetchError::Abandoned);
                },
            },
            _ => {},
        }
    }

    /// The picture, if it has arrived. Looks at nothing but the slot.
    pub fn peek(&self) -> (picture: Option<&Picture>)
        ensures
            picture == match self@ { Slot::Ready(p) => Some(&p), _ => None },
    {
        match &self.slot {
            Slot::Ready(picture) => Some(picture),
            _ => None,
        }
    }

    /// Why there will be no picture, if that much is settled. Looks at
    /// nothing but the slot.
    pub fn failure(&self) -> (cause: Option<FetchError>)
        ensures
            cause == match self@ {
                Slot::Failed(cause) => Some(cause),
                _ => None,
            },
    {
        match &self.slot {
            Slot::Failed(cause) => Some(*cause),
            _ => None,
        }
    }

    /// Starts a slot for the picture named by `src`. Returns the slot, still
    /// pending, and the job of downloading the picture into it. The caller
    /// sets the job going; nothing here waits for it.
    pub fn new(src: String) -> (made: (Photo, FetchJob))
        ensures
            made.0@ == Slot::Pending,
            made.1@ == src@,
    {
        let (sender, receiver) = channel(ONE_SHOT);
        (Photo { slot: Slot::Pending, channel: receiver }, FetchJob { locator: src, sender })
    }

    /// Looks once, without blocking, whether the download has reported, if
    /// the slot is still pending. A slot that is ready or failed is left
    /// alone and the channel is not touched again.
    pub fn refresh(&mut self)
        ensures
            !(old(self)@ is Pending) ==> final(self)@ == old(self)@,
    {
        if let Slot::Pending = self.slot {
            let found = try_receive(&self.channel);
            self.absorb(found);
        }
    }

    /// Refreshes the slot, then gives the picture if there is one.
    pub fn get(&mut self) -> (picture: Option<&Picture>)
        ensures
            !(old(self)@ is Pending) ==> final(self)@ == old(self)@,
            picture == match final(self)@ { Slot::Ready(p) => Some(&p), _ => None },
    {
        self.refresh();
        self.peek()
    }

    /// Refreshes the slot, then gives what to put on screen: the picture if
    /// there is one, `fallback` otherwise.
    pub fn poll<'a>(&'a mut self, fallback: &'a Picture) -> (shown: &'a Picture)
        ensures
            !(old(self)@ is Pending) ==> final(self)@ == old(self)@,
            *shown == final(self)@.shown(*fallback),
    {
        match self.get() {
            Some(picture) => picture,
            None => fallback,
        }
    }
}

/// The task of downloading one picture and reporting on it, exactly once.
pub struct FetchJob {
    locator: String,
    sender: Sender<Fetched>,
}

impl View for FetchJob {
    type V = Seq<char>;

    closed spec fn view(&self) -> Seq<char> {
        self.locator@
    }
}

/// What a message says to whoever sent it: that a picture went out, or why
/// none did.
pub open spec fn receipt(message: Fetched) -> Result<(), FetchError> {
    match message {
        Ok(_) => Ok(()),
        Err(cause) => Err(cause),
    }
}

impl FetchJob {
    /// Where the picture is to be had.
    pub fn locator(&self) -> (src: &str)
        ensures
            src@ == self@,
    {
        self.locator.as_str()
    }

    /// Hands `message` to the waiting slot and ends the job. The message is
    /// offered once and never waited on: if the slot is gone, it is dropped.
    /// The receipt says what went out.
    pub fn deliver(self, message: Fetched) -> (sent: Result<(), FetchError>)
        ensures
            sent == receipt(message),
    {
        let sent = match &message {
            Ok(_) => Ok(()),
            Err(cause) => Err(*cause),
        };
        offer(&self.sender, message);
        sent
    }

    /// Judges the transport's reply by [`resolve`] and delivers the verdict.
    ///
    /// A lost request and a refusal by the server are reported as such. An
    /// answer with a success status goes out as a picture if its body decodes
    /// and as a decoding failure if not.
    pub fn complete(self, reply: FetchReply) -> (sent: Result<(), FetchError>)
        ensures
            sent == outcome(reply),
    {
        let message = resolve(reply);
        self.deliver(message)
    }
}

} // verus!
