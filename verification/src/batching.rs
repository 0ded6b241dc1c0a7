use vstd::prelude::*;
use crate::data_processor::Trade;
use crate::date::{Date, spec_date_le, date_le, spec_next_day, next_day, spec_days_in_month};

verus! {

/// Where the day-by-day run stands: waiting for the current day's
/// extraction, holding a non-empty batch that still has to be uploaded,
/// waiting for that upload's outcome, past the last day, or aborted.
pub enum DriverState {
    NeedExtract,
    NeedUpload(Vec<Trade>),
    Uploading,
    Done,
    Failed,
}

/// The batching loop's state machine. One cursor walks the inclusive day
/// range; each day is extracted, an empty day is skipped without any
/// upload, a non-empty day's batch is uploaded as one call, and any
/// failure aborts the whole run at the day it happened. The collaborators
/// that read files and talk to the remote table drive it from outside:
/// they perform what the state asks and hand the outcome back.
pub struct Driver {
    pub current: Date,
    pub end_day: Date,
    pub state: DriverState,
}

impl Driver {
    /// Holds between all calls: while days remain the cursor is a valid
    /// day inside the range, and a pending batch is never empty.
    pub open spec fn wf(self) -> bool {
        self.end_day.valid() && match self.state {
            DriverState::NeedExtract => self.current.valid() && spec_date_le(
                self.current,
                self.end_day,
            ),
            DriverState::NeedUpload(batch) => self.current.valid() && spec_date_le(
                self.current,
                self.end_day,
            ) && batch@.len() > 0,
            DriverState::Uploading => self.current.valid() && spec_date_le(
                self.current,
                self.end_day,
            ),
            DriverState::Done => true,
            DriverState::Failed => true,
        }
    }

    /// Starts a run over the inclusive range; an empty range is done at
    /// once.
    pub fn new(start_day: Date, end_day: Date) -> (d: Driver)
        requires
            start_day.valid(),
            end_day.valid(),
        ensures
            d.wf(),
            d.current == start_day,
            d.end_day == end_day,
            spec_date_le(start_day, end_day) ==> d.state is NeedExtract,
            !spec_date_le(start_day, end_day) ==> d.state is Done,
    {
        if date_le(&start_day, &end_day) {
            Driver { current: start_day, end_day, state: DriverState::NeedExtract }
        } else {
            Driver { current: start_day, end_day, state: DriverState::Done }
        }
    }

    /// Moves past the current day: to the next day of the range, or to
    /// done after the last one.
    fn advance(&mut self)
        requires
            old(self).wf(),
            old(self).current.valid(),
            spec_date_le(old(self).current, old(self).end_day),
        ensures
            final(self).wf(),
            final(self).end_day == old(self).end_day,
            old(self).current == old(self).end_day ==> final(self).state is Done,
            old(self).current != old(self).end_day ==> final(self).state is NeedExtract
                && final(self).current == spec_next_day(old(self).current),
    {
        if self.current == self.end_day {
            self.state = DriverState::Done;
        } else {
            proof {
                // the cursor sits strictly before a valid end day, so it is
                // not the calendar's very last day
                assert(spec_days_in_month(9999, 12) == 31);
            }
            self.current = next_day(&self.current);
            self.state = DriverState::NeedExtract;
        }
    }

    /// Hands the driver the current day's extracted trades. An empty day
    /// is skipped — no upload is ever asked for it — and the cursor moves
    /// on; a non-empty day's trades become the pending batch for that same
    /// day.
    pub fn give_extracted(&mut self, trades: Vec<Trade>)
        requires
            old(self).wf(),
            old(self).state is NeedExtract,
        ensures
            final(self).wf(),
            final(self).end_day == old(self).end_day,
            trades@.len() == 0 && old(self).current == old(self).end_day ==> final(self).state
                is Done,
            trades@.len() == 0 && old(self).current != old(self).end_day ==> final(self).state
                is NeedExtract && final(self).current == spec_next_day(old(self).current),
            trades@.len() > 0 ==> final(self).state == DriverState::NeedUpload(trades)
                && final(self).current == old(self).current,
    {
        if trades.len() == 0 {
            self.advance();
        } else {
            self.state = DriverState::NeedUpload(trades);
        }
    }

    /// A failed extraction aborts the run at the current day: nothing is
    /// uploaded for it and no later day is touched.
    pub fn extraction_failed(&mut self)
        requires
            old(self).wf(),
            old(self).state is NeedExtract,
        ensures
            final(self).wf(),
            final(self).state is Failed,
            final(self).current == old(self).current,
            final(self).end_day == old(self).end_day,
    {
        self.state = DriverState::Failed;
    }

    /// Takes the pending batch — always non-empty — to be uploaded as one
    /// call for the current day; the driver then awaits the outcome.
    pub fn take_batch(&mut self) -> (batch: Vec<Trade>)
        requires
            old(self).wf(),
            old(self).state is NeedUpload,
        ensures
            final(self).wf(),
            final(self).state is Uploading,
            final(self).current == old(self).current,
            final(self).end_day == old(self).end_day,
            batch == old(self).state->NeedUpload_0,
            batch@.len() > 0,
    {
        let mut taken = DriverState::Uploading;
        core::mem::swap(&mut self.state, &mut taken);
        match taken {
            DriverState::NeedUpload(batch) => batch,
            _ => {
                proof {
                    assert(false);
                }
                Vec::new()
            },
        }
    }

    /// A successful upload finishes the current day; the cursor moves on.
    pub fn upload_succeeded(&mut self)
        requires
            old(self).wf(),
            old(self).state is Uploading,
        ensures
            final(self).wf(),
            final(self).end_day == old(self).end_day,
            old(self).current == old(self).end_day ==> final(self).state is Done,
            old(self).current != old(self).end_day ==> final(self).state is NeedExtract
                && final(self).current == spec_next_day(old(self).current),
    {
        self.advance();
    }

    /// A failed upload aborts the run at the current day: no later day is
    /// extracted or uploaded.
    pub fn upload_failed(&mut self)
        requires
            old(self).wf(),
            old(self).state is Uploading,
        ensures
            final(self).wf(),
            final(self).state is Failed,
            final(self).current == old(self).current,
            final(self).end_day == old(self).end_day,
    {
        self.state = DriverState::Failed;
    }

    /// The day the cursor stands on.
    pub fn current_day(&self) -> (d: Date)
        ensures
            d == self.current,
    {
        self.current
    }

    /// Whether the driver is waiting for the current day's extraction.
    pub fn needs_extract(&self) -> (b: bool)
        ensures
            b == (self.state is NeedExtract),
    {
        matches!(self.state, DriverState::NeedExtract)
    }

    /// Whether a batch is pending upload.
    pub fn needs_upload(&self) -> (b: bool)
        ensures
            b == (self.state is NeedUpload),
    {
        matches!(self.state, DriverState::NeedUpload(_))
    }

    /// Whether the run has covered every day of the range.
    pub fn is_done(&self) -> (b: bool)
        ensures
            b == (self.state is Done),
    {
        matches!(self.state, DriverState::Done)
    }

    /// Whether the run was aborted by a failure.
    pub fn is_failed(&self) -> (b: bool)
        ensures
            b == (self.state is Failed),
    {
        matches!(self.state, DriverState::Failed)
    }
}

} // verus!
