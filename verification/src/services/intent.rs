//! The single slot between the manager and the worker that talks to the
//! transport: at most one update is on its way at any time, and what waits
//! behind it is always the update that was asked for last.
use crate::services::discord::{ActivityUpdate, ActivityUpdateView};
use vstd::prelude::*;

verus! {

/// The slot. `pending` holds [`ActivityUpdate::Keep`] while nothing waits.
pub struct IntentSlot {
    pub in_flight: bool,
    pub pending: ActivityUpdate,
}

/// Mathematical value of an [`IntentSlot`].
pub ghost struct IntentSlotView {
    pub in_flight: bool,
    pub pending: ActivityUpdateView,
}

impl View for IntentSlot {
    type V = IntentSlotView;

    open spec fn view(&self) -> IntentSlotView {
        IntentSlotView { in_flight: self.in_flight, pending: self.pending@ }
    }
}

impl IntentSlotView {
    /// What always holds of a slot: an update waits only behind one that is
    /// on its way.
    pub open spec fn wf(self) -> bool {
        !self.in_flight ==> self.pending is Keep
    }

    /// The idle slot.
    pub open spec fn idle() -> IntentSlotView {
        IntentSlotView { in_flight: false, pending: ActivityUpdateView::Keep }
    }

    /// The slot after `update` was asked for. Nothing to do changes nothing;
    /// an idle slot lets the update go; a busy slot keeps it, in place of
    /// whatever waited before.
    pub open spec fn submitted(self, update: ActivityUpdateView) -> IntentSlotView {
        if update is Keep {
            self
        } else if self.in_flight {
            IntentSlotView { in_flight: true, pending: update }
        } else {
            IntentSlotView { in_flight: true, pending: self.pending }
        }
    }

    /// What is to be sent right away when `update` is asked for: the update
    /// itself on an idle slot, nothing on a busy one.
    pub open spec fn sent_on_submit(self, update: ActivityUpdateView) -> ActivityUpdateView {
        if self.in_flight {
            ActivityUpdateView::Keep
        } else {
            update
        }
    }

    /// The slot after the update on its way was delivered: what waited goes
    /// next, and the slot is idle when nothing waited.
    pub open spec fn delivered(self) -> IntentSlotView {
        IntentSlotView { in_flight: !(self.pending is Keep), pending: ActivityUpdateView::Keep }
    }
}

impl IntentSlot {
    /// An idle slot.
    pub fn new() -> (slot: IntentSlot)
        ensures
            slot@ == IntentSlotView::idle(),
            slot@.wf(),
    {
        IntentSlot { in_flight: false, pending: ActivityUpdate::Keep }
    }

    /// Asks for `update`. Answers with what the caller must send right
    /// away: the update itself if nothing is on its way, else nothing, the
    /// update then waiting in the slot in place of any earlier one.
    pub fn submit(&mut self, update: ActivityUpdate) -> (send: ActivityUpdate)
        ensures
            final(self)@ == old(self)@.submitted(update@),
            send@ == old(self)@.sent_on_submit(update@),
    {
        match update {
            ActivityUpdate::Keep => ActivityUpdate::Keep,
            wanted => {
                if self.in_flight {
                    self.pending = wanted;
                    ActivityUpdate::Keep
                } else {
                    self.in_flight = true;
                    wanted
                }
            },
        }
    }

    /// Notes that the update on its way was delivered. Answers with what
    /// the caller must send next: the update that waited, or nothing, which
    /// leaves the slot idle.
    pub fn finished(&mut self) -> (send: ActivityUpdate)
        ensures
            final(self)@ == old(self)@.delivered(),
            send@ == old(self)@.pending,
    {
        let mut next = ActivityUpdate::Keep;
        core::mem::swap(&mut self.pending, &mut next);
        self.in_flight = !matches!(next, ActivityUpdate::Keep);
        next
    }
}

/// The slot stays well formed, and it never lets a second update go while
/// one is on its way.
pub proof fn lemma_one_update_in_flight(slot: IntentSlotView, update: ActivityUpdateView)
    requires
        slot.wf(),
    ensures
        IntentSlotView::idle().wf(),
        slot.submitted(update).wf(),
        slot.delivered().wf(),
        slot.in_flight ==> slot.sent_on_submit(update) is Keep,
        !(slot.sent_on_submit(update) is Keep) ==> !slot.in_flight && slot.submitted(
            update,
        ).in_flight,
        !(slot.delivered().in_flight) <==> slot.pending is Keep,
{
}

/// Of several updates asked for while one is on its way, the last one is
/// what goes next; the earlier ones are never sent.
pub proof fn lemma_latest_intent_wins(
    slot: IntentSlotView,
    earlier: ActivityUpdateView,
    latest: ActivityUpdateView,
)
    requires
        slot.wf(),
        slot.in_flight,
        !(latest is Keep),
    ensures
        slot.submitted(earlier).submitted(latest).pending == latest,
        slot.submitted(earlier).submitted(latest) == slot.submitted(latest),
        slot.submitted(earlier).submitted(latest).delivered().in_flight,
{
}

} // verus!
