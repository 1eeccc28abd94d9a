//! Time blocks and their invoices.
//!
//! A time block sets hours aside for billing. Its duration is edited as
//! text in decimal hours: the text is staged while it is typed, and on
//! commit the staged text is handed out to be read; the number of seconds
//! that was read, if any, then becomes the duration.
use vstd::prelude::*;
use crate::entity::Client;
use crate::entity::ClientView;
use crate::entity::Invoice;
use crate::entity::InvoiceView;
use crate::entity::TimeBlock;
use crate::entity::TimeBlockStatus;
use crate::entity::TimeBlockView;
use crate::entity::lemma_view_map_dom;
use crate::entity::lookup;
use crate::ident::Id;
use crate::order::ascending_ids;
use crate::order::lists;
use crate::order::newest;
use crate::order::newest_id;
use crate::order::sorted_ids;
use crate::time::Duration;
use crate::time::Timestamp;

verus! {

/// Hours of a time block that has no older block to take its duration from.
pub const DEFAULT_BLOCK_HOURS: i32 = 20;

/// The duration of a time block that has no older block to take it from.
pub open spec fn default_block_duration() -> Duration {
    Duration { nanos: 72_000_000_000_000 }
}

/// The sums that the statistics of a client show, in whole minutes.
#[derive(Clone, Copy, Debug, PartialEq, Eq, Structural)]
pub struct BlockedTime {
    /// All time blocks.
    pub blocked: i128,
    /// The time blocks that are not paid yet.
    pub unpaid: i128,
    /// The time blocks that are paid.
    pub paid: i128,
}

/// An invoice as it is attached: filed under no number and without address yet.
pub open spec fn fresh_invoice(id: Id) -> InvoiceView {
    InvoiceView { id, custom_id: Some(Seq::empty()), url: Some(Seq::empty()) }
}

/// A time block as it is added: unpaid, without name and invoice.
pub open spec fn fresh_time_block(duration: Duration) -> TimeBlockView {
    TimeBlockView {
        name: Seq::empty(),
        status: TimeBlockStatus::Unpaid,
        duration,
        duration_change: None,
        invoice: None,
    }
}

/// `sums` and the minutes of one more time block.
pub open spec fn add_block(sums: Option<BlockedTime>, block: TimeBlockView) -> Option<
    BlockedTime,
> {
    match sums {
        Some(s) => {
            let minutes = block.duration.minutes();
            let next = match block.status {
                TimeBlockStatus::NonBillable => (
                    s.blocked + minutes,
                    s.unpaid as int,
                    s.paid as int,
                ),
                TimeBlockStatus::Unpaid => (s.blocked + minutes, s.unpaid + minutes, s.paid as int),
                TimeBlockStatus::Paid => (s.blocked + minutes, s.unpaid as int, s.paid + minutes),
            };
            if i128::MIN <= next.0 <= i128::MAX && i128::MIN <= next.1 <= i128::MAX && i128::MIN
                <= next.2 <= i128::MAX {
                Some(
                    BlockedTime {
                        blocked: next.0 as i128,
                        unpaid: next.1 as i128,
                        paid: next.2 as i128,
                    },
                )
            } else {
                None
            }
        },
        None => None,
    }
}

/// The sums over the time blocks under `ids`, added one by one in that
/// order; `None` once a sum leaves the range.
pub open spec fn blocked_over(blocks: Map<Id, TimeBlockView>, ids: Seq<Id>) -> Option<BlockedTime>
    decreases ids.len(),
{
    if ids.len() == 0 {
        Some(BlockedTime { blocked: 0, unpaid: 0, paid: 0 })
    } else {
        add_block(blocked_over(blocks, ids.drop_last()), blocks[ids.last()])
    }
}

impl ClientView {
    /// The duration that a new time block gets: that of the newest block,
    /// or twenty hours.
    pub open spec fn next_block_duration(self) -> Duration {
        match newest(self.time_blocks.dom()) {
            Some(id) => self.time_blocks[id].duration,
            None => default_block_duration(),
        }
    }

    /// The minutes blocked for this client, in all and by billing status.
    pub open spec fn blocked_time(self) -> Option<BlockedTime> {
        blocked_over(self.time_blocks, ascending_ids(self.time_blocks.dom()))
    }
}

impl Invoice {
    /// An invoice as it is attached.
    pub fn new(id: Id) -> (invoice: Invoice)
        ensures
            invoice@ == fresh_invoice(id),
    {
        Invoice { id, custom_id: Some(String::new()), url: Some(String::new()) }
    }
}

impl TimeBlock {
    /// A time block as it is added.
    pub fn new(duration: Duration) -> (block: TimeBlock)
        ensures
            block@ == fresh_time_block(duration),
    {
        TimeBlock {
            name: String::new(),
            status: TimeBlockStatus::Unpaid,
            duration,
            duration_change: None,
            invoice: None,
        }
    }

    /// Stages a duration text, in place of what was staged before.
    pub fn stage_duration(&mut self, text: String)
        ensures
            final(self)@ == (TimeBlockView { duration_change: Some(text@), ..old(self)@ }),
    {
        self.duration_change = Some(text);
    }

    /// Hands out the staged duration text and drops it from the block.
    pub fn take_staged_duration(&mut self) -> (text: Option<String>)
        ensures
            final(self)@ == (TimeBlockView { duration_change: None, ..old(self)@ }),
            match text {
                Some(t) => old(self)@.duration_change == Some(t@),
                None => old(self)@.duration_change is None,
            },
    {
        self.duration_change.take()
    }

    /// Sets the duration to a number of whole seconds.
    pub fn set_duration_seconds(&mut self, seconds: i64)
        ensures
            final(self)@ == (TimeBlockView {
                duration: Duration { nanos: (seconds * 1_000_000_000) as i128 },
                ..old(self)@
            }),
    {
        self.duration = Duration::from_seconds(seconds);
    }

    /// Attaches a new invoice, in place of the one that was attached.
    pub fn attach_invoice(&mut self, id: Id)
        ensures
            final(self)@ == (TimeBlockView { invoice: Some(fresh_invoice(id)), ..old(self)@ }),
    {
        self.invoice = Some(Invoice::new(id));
    }

    /// Detaches the invoice. Gives its identifier.
    pub fn detach_invoice(&mut self) -> (id: Option<Id>)
        ensures
            final(self)@ == (TimeBlockView { invoice: None, ..old(self)@ }),
            match id {
                Some(id) => old(self)@.invoice matches Some(i) && i.id == id,
                None => old(self)@.invoice is None,
            },
    {
        match self.invoice.take() {
            Some(invoice) => Some(invoice.id),
            None => None,
        }
    }

    /// Sets the number under which the invoice is filed, if there is an
    /// invoice. Gives its identifier.
    pub fn set_invoice_custom_id(&mut self, custom_id: String) -> (id: Option<Id>)
        ensures
            match old(self)@.invoice {
                Some(i) => id == Some(i.id) && final(self)@ == (TimeBlockView {
                    invoice: Some(InvoiceView { custom_id: Some(custom_id@), ..i }),
                    ..old(self)@
                }),
                None => id is None && final(self)@ == old(self)@,
            },
    {
        match self.invoice.take() {
            Some(mut invoice) => {
                let id = invoice.id;
                invoice.custom_id = Some(custom_id);
                self.invoice = Some(invoice);
                Some(id)
            },
            None => None,
        }
    }

    /// Sets the address of the invoice, if there is an invoice. Gives its identifier.
    pub fn set_invoice_url(&mut self, url: String) -> (id: Option<Id>)
        ensures
            match old(self)@.invoice {
                Some(i) => id == Some(i.id) && final(self)@ == (TimeBlockView {
                    invoice: Some(InvoiceView { url: Some(url@), ..i }),
                    ..old(self)@
                }),
                None => id is None && final(self)@ == old(self)@,
            },
    {
        match self.invoice.take() {
            Some(mut invoice) => {
                let id = invoice.id;
                invoice.url = Some(url);
                self.invoice = Some(invoice);
                Some(id)
            },
            None => None,
        }
    }
}

/// Adds the minutes of one more time block to the sums.
fn add_block_minutes(sums: Option<BlockedTime>, block: &TimeBlock) -> (next: Option<BlockedTime>)
    ensures
        next == add_block(sums, block@),
{
    match sums {
        None => None,
        Some(s) => {
            let minutes = block.duration.num_minutes();
            let blocked = s.blocked.checked_add(minutes);
            let unpaid = match block.status {
                TimeBlockStatus::Unpaid => s.unpaid.checked_add(minutes),
                _ => Some(s.unpaid),
            };
            let paid = match block.status {
                TimeBlockStatus::Paid => s.paid.checked_add(minutes),
                _ => Some(s.paid),
            };
            match (blocked, unpaid, paid) {
                (Some(blocked), Some(unpaid), Some(paid)) => Some(
                    BlockedTime { blocked, unpaid, paid },
                ),
                _ => None,
            }
        },
    }
}

impl Client {
    /// The duration that a new time block gets.
    pub fn next_block_duration(&self) -> (duration: Duration)
        ensures
            duration == self@.next_block_duration(),
    {
        proof {
            lemma_view_map_dom(self.time_blocks@);
        }
        match newest_id(&self.time_blocks) {
            Some(id) => match lookup(&self.time_blocks, id) {
                Some(block) => block.duration,
                None => Duration::from_hours(DEFAULT_BLOCK_HOURS),
            },
            None => Duration::from_hours(DEFAULT_BLOCK_HOURS),
        }
    }

    /// The minutes blocked for this client, in all and by billing status.
    pub fn blocked_time(&self) -> (sums: Option<BlockedTime>)
        ensures
            sums == self@.blocked_time(),
    {
        let ids = sorted_ids(&self.time_blocks);
        let mut sums = Some(BlockedTime { blocked: 0, unpaid: 0, paid: 0 });
        let mut i: usize = 0;
        while i < ids.len()
            invariant
                i <= ids.len(),
                lists(ids@, self.time_blocks@.dom()),
                sums == blocked_over(self@.time_blocks, ids@.take(i as int)),
            decreases ids.len() - i,
        {
            let id = ids[i];
            proof {
                assert(ids@.contains(id));
                assert(ids@.take(i + 1).drop_last() == ids@.take(i as int));
            }
            match lookup(&self.time_blocks, id) {
                Some(block) => {
                    sums = add_block_minutes(sums, block);
                },
                None => {},
            }
            i += 1;
        }
        proof {
            lemma_view_map_dom(self.time_blocks@);
            assert(ids@.take(i as int) == ids@);
        }
        sums
    }
}

/// Tracked minutes that no time block covers yet; negative if more is
/// blocked than was spent.
pub open spec fn minutes_to_block(spent: Option<Duration>, blocked: Option<BlockedTime>)
    -> Option<i128> {
    match (spent, blocked) {
        (Some(t), Some(b)) => if i128::MIN <= t.minutes() - b.blocked <= i128::MAX {
            Some((t.minutes() - b.blocked) as i128)
        } else {
            None
        },
        _ => None,
    }
}

impl Client {
    /// The minutes spent for this client up to `now` that no time block
    /// covers yet. `None` if a sum on the way leaves the range.
    pub fn minutes_to_block(&self, now: &Timestamp) -> (minutes: Option<i128>)
        ensures
            minutes == minutes_to_block(self@.tracked_time(*now), self@.blocked_time()),
    {
        match (self.tracked_time(now), self.blocked_time()) {
            (Some(spent), Some(blocked)) => spent.num_minutes().checked_sub(blocked.blocked),
            _ => None,
        }
    }
}

} // verus!
