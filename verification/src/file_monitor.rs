//! The file-activity monitor's handling of one file event: it queries the
//! image name of the process behind the event, reports each distinct name
//! length once, and frees the query buffer on the paths that free it.
use crate::bounded_queue::BoundedQueue;
use crate::flt::FLT_PREOP_CALLBACK_STATUS;
use crate::ntstatus::{nt_success, spec_nt_success, STATUS_INFO_LENGTH_MISMATCH};
use std::collections::BTreeSet;
use vstd::prelude::*;

verus! {

broadcast use {vstd::laws_cmp::group_laws_cmp, vstd::std_specs::btree::group_btree_axioms};

/// Size of the buffer allocated for the process image-name query, in bytes.
pub const PROCESS_NAME_BUFFER_SIZE: usize = 300;

/// The length passed to the image-name query: the buffer less two bytes.
pub const PROCESS_NAME_QUERY_LENGTH: u32 = 298;

/// What handling a file event does after the image-name query.
#[derive(Clone, Copy, Debug, PartialEq, Eq, Structural)]
pub struct FileEventOutcome {
    /// The returned length was not seen before and has been recorded.
    pub recorded: bool,
    /// The image name is decoded and reported.
    pub report_name: bool,
    /// The query buffer is freed.
    pub free_buffer: bool,
}

/// How many lengths the monitor reserves room for when it starts.
pub const RESERVED_LENGTHS: usize = 32;

/// The lengths already reported: an empty set.
pub fn new_seen_lengths() -> (r: BTreeSet<u32>)
    ensures
        r@ == Set::<u32>::empty(),
{
    BTreeSet::new()
}

/// The lengths already reported, empty, once room for `RESERVED_LENGTHS`
/// lengths could be reserved; `None` when the reservation failed.
pub fn reserve_seen_lengths() -> (r: Option<BTreeSet<u32>>)
    ensures
        r matches Some(s) ==> s@ == Set::<u32>::empty(),
{
    let mut probe: BoundedQueue<u32> = BoundedQueue::new(RESERVED_LENGTHS);
    if probe.try_reserve_exact(RESERVED_LENGTHS) {
        Some(new_seen_lengths())
    } else {
        None
    }
}

/// The monitor's answer to a create or set-information request: it always
/// lets the request through with no post-operation callback; `handle_event`
/// says whether the file event of the requesting process is handled.
#[derive(Clone, Copy, Debug, PartialEq, Eq, Structural)]
pub struct MonitorPreop {
    pub callback_status: FLT_PREOP_CALLBACK_STATUS,
    pub handle_event: bool,
}

/// A create request: the event of the current process is always handled.
pub fn monitor_pre_create() -> (r: MonitorPreop)
    ensures
        r == (MonitorPreop {
            callback_status: FLT_PREOP_CALLBACK_STATUS::FLT_PREOP_SUCCESS_NO_CALLBACK,
            handle_event: true,
        }),
{
    MonitorPreop { callback_status: FLT_PREOP_CALLBACK_STATUS::FLT_PREOP_SUCCESS_NO_CALLBACK, handle_event: true }
}

/// A set-information request: the event is handled, and the handle opened
/// to the requesting thread's process then closed, exactly when that process
/// was found (`process_found`) and the handle opened (`open_status`).
pub fn monitor_pre_set_information(process_found: bool, open_status: i32) -> (r: MonitorPreop)
    ensures
        r == (MonitorPreop {
            callback_status: FLT_PREOP_CALLBACK_STATUS::FLT_PREOP_SUCCESS_NO_CALLBACK,
            handle_event: process_found && spec_nt_success(open_status),
        }),
{
    MonitorPreop {
        callback_status: FLT_PREOP_CALLBACK_STATUS::FLT_PREOP_SUCCESS_NO_CALLBACK,
        handle_event: process_found && nt_success(open_status),
    }
}

/// What handling an event does to the seen lengths and what it reports: see
/// `process_file_event`.
pub open spec fn file_event(seen: Set<u32>, buffer_allocated: bool, status: i32, return_length: u32) -> (Set<u32>, FileEventOutcome) {
    if !buffer_allocated {
        (seen, FileEventOutcome { recorded: false, report_name: false, free_buffer: false })
    } else if status == STATUS_INFO_LENGTH_MISMATCH {
        (seen, FileEventOutcome { recorded: false, report_name: false, free_buffer: true })
    } else if seen.contains(return_length) {
        (seen, FileEventOutcome { recorded: false, report_name: false, free_buffer: false })
    } else {
        (
            seen.insert(return_length),
            FileEventOutcome {
                recorded: true,
                report_name: spec_nt_success(status),
                free_buffer: spec_nt_success(status),
            },
        )
    }
}

/// Handles the result of the image-name query of a file event.
/// `buffer_allocated` says whether the query buffer could be allocated (with
/// no buffer there is no query, and nothing else happens); `status` and
/// `return_length` are what the query returned. A too-small buffer
/// (`STATUS_INFO_LENGTH_MISMATCH`) frees the buffer and stops. A length seen
/// before stops without freeing. A new length is recorded; the name is then
/// reported and the buffer freed when the query succeeded.
pub fn process_file_event(
    seen: &mut BTreeSet<u32>,
    buffer_allocated: bool,
    status: i32,
    return_length: u32,
) -> (r: FileEventOutcome)
    ensures
        (final(seen)@, r) == file_event(old(seen)@, buffer_allocated, status, return_length),
{
    if !buffer_allocated {
        return FileEventOutcome { recorded: false, report_name: false, free_buffer: false };
    }
    if status == STATUS_INFO_LENGTH_MISMATCH {
        return FileEventOutcome { recorded: false, report_name: false, free_buffer: true };
    }
    if seen.contains(&return_length) {
        return FileEventOutcome { recorded: false, report_name: false, free_buffer: false };
    }
    seen.insert(return_length);
    let ok = nt_success(status);
    FileEventOutcome { recorded: true, report_name: ok, free_buffer: ok }
}

/// Each image-name length is reported at most once: the seen lengths only
/// grow, and once an event with some length has been handled past the
/// buffer checks, a later event with the same length records and reports
/// nothing, whatever happened in between.
pub proof fn lemma_lengths_reported_once(
    seen: Set<u32>,
    status: i32,
    return_length: u32,
    between: Seq<(bool, i32, u32)>,
    later_status: i32,
)
    requires
        status != STATUS_INFO_LENGTH_MISMATCH,
    ensures
        ({
            let s1 = file_event(seen, true, status, return_length).0;
            let s2 = replay_events(s1, between);
            let r = file_event(s2, true, later_status, return_length).1;
            &&& seen.subset_of(s1)
            &&& s1.contains(return_length)
            &&& !r.recorded && !r.report_name
        }),
{
    let s1 = file_event(seen, true, status, return_length).0;
    lemma_replay_grows(s1, between);
}

/// The seen lengths after handling the events `events` in order, each given
/// as (buffer allocated, status, returned length).
pub open spec fn replay_events(seen: Set<u32>, events: Seq<(bool, i32, u32)>) -> Set<u32>
    decreases events.len(),
{
    if events.len() == 0 {
        seen
    } else {
        let e = events.last();
        file_event(replay_events(seen, events.drop_last()), e.0, e.1, e.2).0
    }
}

/// Handling events never forgets a seen length.
pub proof fn lemma_replay_grows(seen: Set<u32>, events: Seq<(bool, i32, u32)>)
    ensures
        seen.subset_of(replay_events(seen, events)),
    decreases events.len(),
{
    if events.len() > 0 {
        lemma_replay_grows(seen, events.drop_last());
    }
}

} // verus!
