//! The profile of a certifier: its open workload and what it has processed.

use vstd::prelude::*;
use crate::errors::ErrorCode;
use crate::pubkey::Pubkey;

verus! {

/// The profile of one certifier.
#[derive(Debug)]
pub struct CertifierProfile {
    /// The certifier.
    pub certifier: Pubkey,
    /// Requests assigned to the certifier and not yet resolved.
    pub current_load: u16,
    /// Requests the certifier has approved or rejected.
    pub total_processed: u64,
    /// Seconds between creation and resolution, summed over those requests.
    pub total_processing_time: u64,
    /// Where items are sent to.
    pub physical_address: String,
    /// The name shown for the certifier.
    pub display_name: String,
    /// Whether the certifier takes new requests.
    pub is_active: bool,
    /// When the certifier was approved, in seconds.
    pub registered_at: i64,
}

/// A [`CertifierProfile`] as a mathematical value.
pub struct CertifierProfileView {
    pub certifier: Pubkey,
    pub current_load: u16,
    pub total_processed: u64,
    pub total_processing_time: u64,
    pub physical_address: Seq<char>,
    pub display_name: Seq<char>,
    pub is_active: bool,
    pub registered_at: i64,
}

impl View for CertifierProfile {
    type V = CertifierProfileView;

    open spec fn view(&self) -> CertifierProfileView {
        CertifierProfileView {
            certifier: self.certifier,
            current_load: self.current_load,
            total_processed: self.total_processed,
            total_processing_time: self.total_processing_time,
            physical_address: self.physical_address@,
            display_name: self.display_name@,
            is_active: self.is_active,
            registered_at: self.registered_at,
        }
    }
}

/// What happens to a certifier's workload.
pub enum LoadEvent {
    /// A request was assigned to the certifier.
    Submitted,
    /// The certifier approved or rejected a request.
    Resolved,
}

/// The load after one event.  A submission at the top of the counter's range
/// is refused and leaves the load as it is; a resolution at zero leaves zero.
pub open spec fn load_after_event(load: u16, event: LoadEvent) -> u16 {
    match event {
        LoadEvent::Submitted => if load < u16::MAX {
            (load + 1) as u16
        } else {
            load
        },
        LoadEvent::Resolved => if load > 0 {
            (load - 1) as u16
        } else {
            0
        },
    }
}

/// The load after a run of events, oldest first.
pub open spec fn load_after(load: u16, events: Seq<LoadEvent>) -> u16
    decreases events.len(),
{
    if events.len() == 0 {
        load
    } else {
        load_after_event(load_after(load, events.drop_last()), events.last())
    }
}

/// How many submissions a run of events holds.
pub open spec fn submissions(events: Seq<LoadEvent>) -> nat
    decreases events.len(),
{
    if events.len() == 0 {
        0
    } else {
        submissions(events.drop_last()) + if events.last() is Submitted {
            1nat
        } else {
            0nat
        }
    }
}

/// How many resolutions a run of events holds.
pub open spec fn resolutions(events: Seq<LoadEvent>) -> nat
    decreases events.len(),
{
    if events.len() == 0 {
        0
    } else {
        resolutions(events.drop_last()) + if events.last() is Resolved {
            1nat
        } else {
            0nat
        }
    }
}

/// Whether every resolution in the run comes after a submission it can
/// belong to: no start of the run holds more resolutions than submissions.
pub open spec fn resolutions_follow_submissions(events: Seq<LoadEvent>) -> bool {
    forall|k: int|
        0 <= k <= events.len() ==> resolutions(#[trigger] events.take(k)) <= submissions(
            events.take(k),
        )
}

impl CertifierProfileView {
    /// Mean number of seconds a request took, zero where none was processed.
    pub open spec fn average_processing_time(self) -> u64 {
        if self.total_processed == 0 {
            0
        } else {
            (self.total_processing_time / self.total_processed) as u64
        }
    }

    /// Whether the certifier is active and carries fewer than
    /// `max_concurrent` open requests.
    pub open spec fn can_accept_request(self, max_concurrent: u16) -> bool {
        self.is_active && self.current_load < max_concurrent
    }

    /// Whether one more open request fits in the counter.
    pub open spec fn load_fits(self) -> bool {
        self.current_load < u16::MAX
    }

    /// The profile with one more open request.
    pub open spec fn incremented(self) -> CertifierProfileView {
        CertifierProfileView {
            current_load: load_after_event(self.current_load, LoadEvent::Submitted),
            ..self
        }
    }

    /// Whether a resolution that took `processing_time` seconds fits in the
    /// counters.
    pub open spec fn resolution_fits(self, processing_time: u64) -> bool {
        self.total_processed < u64::MAX && self.total_processing_time + processing_time
            <= u64::MAX
    }

    /// The profile after it resolved a request that took `processing_time`
    /// seconds.
    pub open spec fn resolved(self, processing_time: u64) -> CertifierProfileView {
        CertifierProfileView {
            current_load: load_after_event(self.current_load, LoadEvent::Resolved),
            total_processed: (self.total_processed + 1) as u64,
            total_processing_time: (self.total_processing_time + processing_time) as u64,
            ..self
        }
    }
}

impl CertifierProfile {
    /// Largest number of bytes in a certifier's postal address.
    pub const MAX_ADDRESS_LENGTH: usize = 200;

    /// Largest number of bytes in a certifier's display name.
    pub const MAX_NAME_LENGTH: usize = 50;

    /// Mean number of seconds a request took, zero where none was processed.
    pub fn average_processing_time(&self) -> (average: u64)
        ensures
            average == self@.average_processing_time(),
    {
        if self.total_processed == 0 {
            return 0;
        }
        self.total_processing_time / self.total_processed
    }

    /// Whether the certifier is active and carries fewer than
    /// `max_concurrent` open requests.
    pub fn can_accept_request(&self, max_concurrent: u16) -> (can: bool)
        ensures
            can == self@.can_accept_request(max_concurrent),
    {
        self.is_active && self.current_load < max_concurrent
    }

    /// Counts one more open request.  Fails, and changes nothing, where the
    /// counter is at the top of its range.
    pub fn increment_load(&mut self) -> (result: Result<(), ErrorCode>)
        ensures
            old(self)@.load_fits() ==> result is Ok && final(self)@ == old(self)@.incremented(),
            !old(self)@.load_fits() ==> result == Err::<(), ErrorCode>(
                ErrorCode::ArithmeticOverflow,
            ) && *final(self) == *old(self),
    {
        match self.current_load.checked_add(1) {
            Some(load) => {
                self.current_load = load;
                Ok(())
            },
            None => Err(ErrorCode::ArithmeticOverflow),
        }
    }

    /// Records that the certifier resolved a request after `processing_time`
    /// seconds: one open request less, never below zero, one more processed.
    /// Fails, and changes nothing, where a counter would leave its range.
    pub fn resolve_request(&mut self, processing_time: u64) -> (result: Result<(), ErrorCode>)
        ensures
            old(self)@.resolution_fits(processing_time) ==> result is Ok && final(self)@ == old(
                self,
            )@.resolved(processing_time),
            !old(self)@.resolution_fits(processing_time) ==> result == Err::<(), ErrorCode>(
                ErrorCode::ArithmeticOverflow,
            ) && *final(self) == *old(self),
    {
        let processed = match self.total_processed.checked_add(1) {
            Some(processed) => processed,
            None => {
                return Err(ErrorCode::ArithmeticOverflow);
            },
        };
        let time = match self.total_processing_time.checked_add(processing_time) {
            Some(time) => time,
            None => {
                return Err(ErrorCode::ArithmeticOverflow);
            },
        };
        self.current_load = self.current_load.saturating_sub(1);
        self.total_processed = processed;
        self.total_processing_time = time;
        Ok(())
    }
}

/// After a run of events that starts from no open request, in which every
/// resolution follows a submission and the submissions fit in the counter,
/// the load is the number of submissions less the number of resolutions.
pub proof fn lemma_load_is_submissions_less_resolutions(events: Seq<LoadEvent>)
    requires
        resolutions_follow_submissions(events),
        submissions(events) <= u16::MAX,
    ensures
        load_after(0, events) == submissions(events) - resolutions(events),
    decreases events.len(),
{
    if events.len() > 0 {
        let earlier = events.drop_last();
        assert forall|k: int| 0 <= k <= earlier.len() implies resolutions(
            #[trigger] earlier.take(k),
        ) <= submissions(earlier.take(k)) by {
            assert(earlier.take(k) =~= events.take(k));
        }
        lemma_load_is_submissions_less_resolutions(earlier);
        assert(events.take(events.len() as int) =~= events);
        assert(earlier.take(earlier.len() as int) =~= earlier);
    }
}

/// The load is never negative and never more than the submissions so far.
pub proof fn lemma_load_is_bounded_by_submissions(events: Seq<LoadEvent>)
    ensures
        0 <= load_after(0, events) <= submissions(events),
    decreases events.len(),
{
    if events.len() > 0 {
        lemma_load_is_bounded_by_submissions(events.drop_last());
    }
}

} // verus!
