//! The delete-protection minifilter: a list of protected process image names
//! and the decisions its pre-operation callbacks take on deletions.
use crate::bounded_queue::{push_bounded, BoundedQueue};
use crate::flt::{
    file_information_class_value, lemma_file_information_class_value_injective, FILE_INFORMATION_CLASS,
    FLT_PREOP_CALLBACK_STATUS,
};
use crate::kernel_string::UnicodeString;
use crate::ntstatus::{nt_success, spec_nt_success, STATUS_ACCESS_DENIED, STATUS_INSUFFICIENT_RESOURCES};
use crate::text::{contains_chars, contains_text, chars_of, occurs_at};
use vstd::prelude::*;
use vstd::string::StringExecFns;

verus! {

/// How many process names the protection list keeps.
pub const MAX_ITEM_COUNT: usize = 32;

/// The create option that asks for the file to be deleted when its last
/// handle is closed.
pub const FILE_DELETE_ON_CLOSE: u32 = 0x0000_1000;

/// `String::try_reserve_exact`: asks the allocator for room for `additional`
/// more bytes. Whether it succeeds depends on the allocator; either way the
/// text is unchanged.
#[verifier::external_body]
fn try_reserve_exact(s: &mut String, additional: usize) -> (r: bool)
    ensures
        final(s)@ == old(s)@,
{
    s.try_reserve_exact(additional).is_ok()
}

/// The texts of a sequence of names.
pub open spec fn texts(names: Seq<String>) -> Seq<Seq<char>> {
    names.map_values(|s: String| s@)
}

/// A copy of `process_name` in memory reserved for it, or `None` when the
/// memory could not be reserved.
pub fn reserve_name_copy(process_name: &str) -> (r: Option<String>)
    ensures
        r matches Some(copy) ==> copy@ == process_name@,
{
    let mut p_name = String::new();
    if !try_reserve_exact(&mut p_name, process_name.len()) {
        return None;
    }
    p_name.append(process_name);
    proof {
        assert(p_name@ =~= process_name@);
    }
    Some(p_name)
}

/// Adds a reserved copy of a name to the protection list, dropping the
/// oldest name when the list is full; without a copy the list is unchanged.
/// The result says whether a name was added: exactly when there was a copy.
pub fn push_reserved_name(names: &mut BoundedQueue<String>, copy: Option<String>) -> (added: bool)
    ensures
        added == copy is Some,
        final(names).spec_capacity() == old(names).spec_capacity(),
        copy matches Some(c) ==> texts(final(names)@) == push_bounded(
            texts(old(names)@),
            c@,
            old(names).spec_capacity(),
        ),
        copy is None ==> final(names)@ == old(names)@,
{
    match copy {
        None => false,
        Some(p_name) => {
            let ghost old_names = names@;
            let ghost cap = names.spec_capacity();
            let ghost pv = p_name;
            names.push(p_name);
            proof {
                let a = texts(names@);
                let b = push_bounded(texts(old_names), pv@, cap);
                assert(names@ == push_bounded(old_names, pv, cap));
                assert(a =~= b);
            }
            true
        },
    }
}

/// Adds a process name to the protection list, dropping the oldest name when
/// the list is full: a copy of the name is reserved and, when that worked,
/// added (`push_reserved_name`). When memory for the copy cannot be reserved
/// the list is left unchanged; the result says whether the name was added.
pub fn push_item_thread_safe(names: &mut BoundedQueue<String>, process_name: &str) -> (added: bool)
    ensures
        final(names).spec_capacity() == old(names).spec_capacity(),
        added ==> texts(final(names)@) == push_bounded(texts(old(names)@), process_name@, old(names).spec_capacity()),
        !added ==> final(names)@ == old(names)@,
{
    let copy = reserve_name_copy(process_name);
    push_reserved_name(names, copy)
}

/// Adding a name to a list that holds at most `cap` names makes it the
/// newest name; the older names stay in order, and only the oldest one goes,
/// and only when the list was full.
pub proof fn lemma_added_name_is_newest(names: Seq<Seq<char>>, name: Seq<char>, cap: nat)
    requires
        cap > 0,
        names.len() <= cap,
    ensures
        ({
            let after = push_bounded(names, name, cap);
            &&& after.len() == if names.len() < cap { names.len() + 1 } else { cap }
            &&& after[after.len() - 1] == name
            &&& names.len() < cap ==> forall|i: int| 0 <= i < names.len() ==> after[i] == names[i]
            &&& names.len() == cap ==> forall|i: int| 0 <= i < cap - 1 ==> after[i] == names[i + 1]
        }),
{
}

/// An empty protection list.
pub fn new_protected_names() -> (r: BoundedQueue<String>)
    ensures
        r@ == Seq::<String>::empty(),
        r.spec_capacity() == MAX_ITEM_COUNT,
{
    BoundedQueue::new(MAX_ITEM_COUNT)
}

/// An empty protection list with room reserved for all its names, or
/// `None` when the room could not be reserved.
pub fn reserve_protected_names() -> (r: Option<BoundedQueue<String>>)
    ensures
        r matches Some(q) ==> q@ == Seq::<String>::empty() && q.spec_capacity() == MAX_ITEM_COUNT,
{
    let mut names = new_protected_names();
    let room = names.capacity();
    if names.try_reserve_exact(room) {
        Some(names)
    } else {
        None
    }
}

/// Some protected name occurs in the image name `text`.
pub open spec fn blocked_by(text: Seq<char>, names: Seq<Seq<char>>) -> bool {
    exists|i: int| 0 <= i < names.len() && contains_text(text, names[i])
}

/// The deletion policy: a deletion is refused exactly when the image name of
/// the requesting process could be read (its buffer was allocated and the
/// query succeeded), is not empty, and contains one of the protected names.
pub open spec fn spec_delete_allowed(
    buffer_allocated: bool,
    query_status: i32,
    image_name: UnicodeString,
    names: Seq<Seq<char>>,
) -> bool {
    !(buffer_allocated && spec_nt_success(query_status) && image_name.len != 0 && blocked_by(
        image_name.spec_text(),
        names,
    ))
}

/// Deletion is refused as soon as a name at any position of the protection
/// list occurs in an image name that was read and is not empty, whatever
/// the other names are.
pub proof fn lemma_listed_name_refuses(
    query_status: i32,
    image_name: UnicodeString,
    names: Seq<Seq<char>>,
    i: int,
)
    requires
        spec_nt_success(query_status),
        image_name.len != 0,
        0 <= i < names.len(),
        contains_text(image_name.spec_text(), names[i]),
    ensures
        !spec_delete_allowed(true, query_status, image_name, names),
{
}

/// Deletion is allowed when the image name could not be read (no buffer, a
/// failed query), is empty, or contains none of the listed names.
pub proof fn lemma_unlisted_allowed(
    buffer_allocated: bool,
    query_status: i32,
    image_name: UnicodeString,
    names: Seq<Seq<char>>,
)
    requires
        !buffer_allocated || !spec_nt_success(query_status) || image_name.len == 0 || forall|i: int|
            0 <= i < names.len() ==> !contains_text(image_name.spec_text(), #[trigger] names[i]),
    ensures
        spec_delete_allowed(buffer_allocated, query_status, image_name, names),
{
}

/// A name occurs in any text that has it between some prefix and suffix.
pub proof fn lemma_name_inside_text(prefix: Seq<char>, name: Seq<char>, suffix: Seq<char>)
    ensures
        contains_text(prefix + name + suffix, name),
{
    let hay = prefix + name + suffix;
    assert(hay.subrange(prefix.len() as int, (prefix.len() + name.len()) as int) =~= name);
    assert(occurs_at(hay, name, prefix.len() as int));
}

/// Decides whether the process whose image name was queried may delete a
/// file. `buffer_allocated` says whether memory for the name could be
/// allocated, `query_status` is the status of the image-name query and
/// `image_name` the name it returned.
pub fn is_delete_allowed(
    buffer_allocated: bool,
    query_status: i32,
    image_name: &UnicodeString,
    names: &BoundedQueue<String>,
) -> (r: bool)
    requires
        image_name.len / 2 <= image_name.buffer@.len(),
    ensures
        r == spec_delete_allowed(buffer_allocated, query_status, *image_name, texts(names@)),
{
    if !buffer_allocated {
        return true;
    }
    if !nt_success(query_status) {
        return true;
    }
    let rust_process_name = image_name.as_rust_string();
    if image_name.len == 0 {
        return true;
    }
    let hay = chars_of(rust_process_name.as_str());
    let n = names.len();
    let mut i: usize = 0;
    while i < n
        invariant
            n == names@.len(),
            0 <= i <= n,
            hay@ == image_name.spec_text(),
            buffer_allocated,
            spec_nt_success(query_status),
            image_name.len != 0,
            forall|j: int| 0 <= j < i ==> !contains_text(hay@, #[trigger] texts(names@)[j]),
        decreases n - i,
    {
        let needle = chars_of(names.get(i).as_str());
        assert(texts(names@)[i as int] == names@[i as int]@);
        if contains_chars(&hay, &needle) {
            assert(contains_text(hay@, texts(names@)[i as int]));
            assert(blocked_by(image_name.spec_text(), texts(names@)));
            return false;
        }
        i = i + 1;
    }
    true
}

/// A pre-operation callback's answer: the status for the filter manager and,
/// when it completes the request itself, the status it completes it with.
#[derive(Clone, Copy, Debug, PartialEq, Eq, Structural)]
pub struct PreopDecision {
    pub callback_status: FLT_PREOP_CALLBACK_STATUS,
    pub io_status: Option<i32>,
}

/// Let the request through without a post-operation callback.
pub open spec fn pass_through() -> PreopDecision {
    PreopDecision { callback_status: FLT_PREOP_CALLBACK_STATUS::FLT_PREOP_SUCCESS_NO_CALLBACK, io_status: None }
}

/// Complete the request with `STATUS_ACCESS_DENIED`.
pub open spec fn deny() -> PreopDecision {
    PreopDecision { callback_status: FLT_PREOP_CALLBACK_STATUS::FLT_PREOP_COMPLETE, io_status: Some(STATUS_ACCESS_DENIED) }
}

/// A create request from user mode with the delete-on-close option: the only
/// create requests whose requester is checked.
pub open spec fn spec_requests_delete_on_close(kernel_mode: bool, create_options: u32) -> bool {
    !kernel_mode && create_options & FILE_DELETE_ON_CLOSE != 0
}

/// Whether a create request asks, from user mode, for delete-on-close.
pub fn requests_delete_on_close(kernel_mode: bool, create_options: u32) -> (r: bool)
    ensures
        r == spec_requests_delete_on_close(kernel_mode, create_options),
{
    !kernel_mode && (create_options & FILE_DELETE_ON_CLOSE) > 0
}

/// The create pre-operation's answer: access denied for a delete-on-close
/// create from user mode by a process that may not delete, else pass.
pub open spec fn spec_pre_create_decision(kernel_mode: bool, create_options: u32, delete_allowed: bool) -> PreopDecision {
    if spec_requests_delete_on_close(kernel_mode, create_options) && !delete_allowed {
        deny()
    } else {
        pass_through()
    }
}

/// A create from user mode asks for delete-on-close exactly when bit 0x1000
/// of its options is set, whatever its other option bits; a create from
/// kernel mode never counts as one.
pub proof fn lemma_delete_on_close_bit(options: u32)
    ensures
        spec_requests_delete_on_close(false, options | 0x1000u32),
        !spec_requests_delete_on_close(false, options & !0x1000u32),
        spec_requests_delete_on_close(false, options) == (options & 0x1000u32 == 0x1000u32),
        !spec_requests_delete_on_close(true, options),
{
    assert((options | 0x1000u32) & 0x1000u32 != 0) by (bit_vector);
    assert((options & !0x1000u32) & 0x1000u32 == 0) by (bit_vector);
    assert((options & 0x1000u32 != 0) == (options & 0x1000u32 == 0x1000u32)) by (bit_vector);
}

/// A user-mode create whose options ask for delete-on-close is completed
/// with `STATUS_ACCESS_DENIED` for a process that may not delete and passes
/// for one that may; a create from kernel mode, or without the option,
/// always passes.
pub proof fn lemma_protected_delete_on_close_denied(options: u32, delete_allowed: bool)
    ensures
        options & 0x1000u32 != 0 ==> spec_pre_create_decision(false, options, false) == (PreopDecision {
            callback_status: FLT_PREOP_CALLBACK_STATUS::FLT_PREOP_COMPLETE,
            io_status: Some(-1073741790i32),
        }),
        spec_pre_create_decision(false, options, true) == (PreopDecision {
            callback_status: FLT_PREOP_CALLBACK_STATUS::FLT_PREOP_SUCCESS_NO_CALLBACK,
            io_status: None,
        }),
        spec_pre_create_decision(true, options, delete_allowed) == (PreopDecision {
            callback_status: FLT_PREOP_CALLBACK_STATUS::FLT_PREOP_SUCCESS_NO_CALLBACK,
            io_status: None,
        }),
        options & 0x1000u32 == 0 ==> spec_pre_create_decision(false, options, delete_allowed) == (PreopDecision {
            callback_status: FLT_PREOP_CALLBACK_STATUS::FLT_PREOP_SUCCESS_NO_CALLBACK,
            io_status: None,
        }),
{
    lemma_delete_on_close_bit(options);
}

/// The create pre-operation: a user-mode create with delete-on-close from a
/// process that may not delete is completed with access denied; every other
/// create passes. `delete_allowed` is the policy's answer for the current
/// process, which only matters for delete-on-close creates from user mode.
pub fn pre_create_decision(kernel_mode: bool, create_options: u32, delete_allowed: bool) -> (r: PreopDecision)
    ensures
        r == spec_pre_create_decision(kernel_mode, create_options, delete_allowed),
{
    if requests_delete_on_close(kernel_mode, create_options) && !delete_allowed {
        PreopDecision {
            callback_status: FLT_PREOP_CALLBACK_STATUS::FLT_PREOP_COMPLETE,
            io_status: Some(STATUS_ACCESS_DENIED),
        }
    } else {
        PreopDecision {
            callback_status: FLT_PREOP_CALLBACK_STATUS::FLT_PREOP_SUCCESS_NO_CALLBACK,
            io_status: None,
        }
    }
}

/// A set-information request that marks the file for deletion: a
/// disposition request (plain or extended) with the delete flag set.
pub open spec fn spec_requests_deletion(class: FILE_INFORMATION_CLASS, delete_file: u8) -> bool {
    (class == FILE_INFORMATION_CLASS::FileDispositionInformation || class
        == FILE_INFORMATION_CLASS::FileDispositionInformationEx) && delete_file != 0
}

/// Whether a set-information request marks the file for deletion.
/// `delete_file` is the first byte of the information buffer, which is only
/// read for disposition requests.
pub fn requests_deletion(class: FILE_INFORMATION_CLASS, delete_file: u8) -> (r: bool)
    ensures
        r == spec_requests_deletion(class, delete_file),
{
    match class {
        FILE_INFORMATION_CLASS::FileDispositionInformation
        | FILE_INFORMATION_CLASS::FileDispositionInformationEx => delete_file != 0,
        _ => false,
    }
}

/// The answer of the set-information pre-operation and whether the handle
/// opened to the requesting process must be closed.
#[derive(Clone, Copy, Debug, PartialEq, Eq, Structural)]
pub struct SetInformationDecision {
    pub preop: PreopDecision,
    pub close_process_handle: bool,
}

/// The set-information pre-operation's answer: the handle is closed when a
/// deletion request's process was found and opened; such a request is
/// denied when the process may not delete; everything else passes.
pub open spec fn spec_pre_set_information_decision(
    class: FILE_INFORMATION_CLASS,
    delete_file: u8,
    process_found: bool,
    open_status: i32,
    delete_allowed: bool,
) -> SetInformationDecision {
    let close = spec_requests_deletion(class, delete_file) && process_found && spec_nt_success(open_status);
    SetInformationDecision {
        preop: if close && !delete_allowed {
            deny()
        } else {
            pass_through()
        },
        close_process_handle: close,
    }
}

/// Only the disposition classes (values 13 and 64) with a non-zero delete
/// flag are deletion requests; a request of any other class is never one,
/// whatever the first byte of its buffer.
pub proof fn lemma_only_disposition_deletes(class: FILE_INFORMATION_CLASS, delete_file: u8)
    ensures
        spec_requests_deletion(class, delete_file) == ((file_information_class_value(class) == 13
            || file_information_class_value(class) == 64) && delete_file != 0),
{
    lemma_file_information_class_value_injective(class, FILE_INFORMATION_CLASS::FileDispositionInformation);
    lemma_file_information_class_value_injective(class, FILE_INFORMATION_CLASS::FileDispositionInformationEx);
}

/// A set-information request that is not a deletion request passes, and no
/// handle is closed, whoever makes it; a deletion request from a process
/// that was found, opened and may not delete is completed with
/// `STATUS_ACCESS_DENIED` and its handle closed.
pub proof fn lemma_set_information_refuses_only_deletions(
    class: FILE_INFORMATION_CLASS,
    delete_file: u8,
    process_found: bool,
    open_status: i32,
    delete_allowed: bool,
)
    ensures
        !((file_information_class_value(class) == 13 || file_information_class_value(class) == 64)
            && delete_file != 0) ==> spec_pre_set_information_decision(
            class,
            delete_file,
            process_found,
            open_status,
            delete_allowed,
        ) == (SetInformationDecision {
            preop: PreopDecision {
                callback_status: FLT_PREOP_CALLBACK_STATUS::FLT_PREOP_SUCCESS_NO_CALLBACK,
                io_status: None,
            },
            close_process_handle: false,
        }),
        (file_information_class_value(class) == 13 || file_information_class_value(class) == 64)
            && delete_file != 0 && spec_nt_success(open_status) ==> spec_pre_set_information_decision(
            class,
            delete_file,
            true,
            open_status,
            false,
        ) == (SetInformationDecision {
            preop: PreopDecision {
                callback_status: FLT_PREOP_CALLBACK_STATUS::FLT_PREOP_COMPLETE,
                io_status: Some(-1073741790i32),
            },
            close_process_handle: true,
        }),
{
    lemma_only_disposition_deletes(class, delete_file);
}

/// The set-information pre-operation: a deletion request is checked against
/// the policy once the requesting thread's process has been found and a
/// kernel handle to it opened; a refused deletion is completed with access
/// denied, and an opened handle is always closed. Every other request
/// passes. `process_found` says whether the thread's process was found,
/// `open_status` is the status of opening the handle, and `delete_allowed`
/// the policy's answer; each matters only when the steps before it went
/// through.
pub fn pre_set_information_decision(
    class: FILE_INFORMATION_CLASS,
    delete_file: u8,
    process_found: bool,
    open_status: i32,
    delete_allowed: bool,
) -> (r: SetInformationDecision)
    ensures
        r == spec_pre_set_information_decision(class, delete_file, process_found, open_status, delete_allowed),
{
    let pass = PreopDecision {
        callback_status: FLT_PREOP_CALLBACK_STATUS::FLT_PREOP_SUCCESS_NO_CALLBACK,
        io_status: None,
    };
    if !requests_deletion(class, delete_file) {
        return SetInformationDecision { preop: pass, close_process_handle: false };
    }
    if !process_found {
        return SetInformationDecision { preop: pass, close_process_handle: false };
    }
    if !nt_success(open_status) {
        return SetInformationDecision { preop: pass, close_process_handle: false };
    }
    if !delete_allowed {
        SetInformationDecision {
            preop: PreopDecision {
                callback_status: FLT_PREOP_CALLBACK_STATUS::FLT_PREOP_COMPLETE,
                io_status: Some(STATUS_ACCESS_DENIED),
            },
            close_process_handle: true,
        }
    } else {
        SetInformationDecision { preop: pass, close_process_handle: true }
    }
}

/// What the entry point of the delete-protection driver does next.
#[derive(Clone, Copy, Debug, PartialEq, Eq, Structural)]
pub enum DelProtectAction {
    /// Reserve room for the protection list and report whether it worked.
    ReserveNames,
    /// Add the initial protected names, register the filter with
    /// `FltRegisterFilter` and report its status.
    RegisterFilter,
    /// Start filtering with `FltStartFiltering` and report its status.
    StartFiltering,
    /// Return `status`, after unregistering the filter when
    /// `unregister_filter` is set.
    Finish { status: i32, unregister_filter: bool },
}

/// The entry point of the delete-protection driver in progress.
#[derive(Clone, Copy, Debug, PartialEq, Eq, Structural)]
pub struct DelProtectEntry {
    pub stage: u8,
}

/// The stages of the entry point, in order.
pub open spec fn stage_action(stage: u8) -> DelProtectAction {
    if stage == 0 {
        DelProtectAction::ReserveNames
    } else if stage == 1 {
        DelProtectAction::RegisterFilter
    } else {
        DelProtectAction::StartFiltering
    }
}

impl DelProtectEntry {
    /// The entry point before its first step.
    pub fn new() -> (r: (DelProtectEntry, DelProtectAction))
        ensures
            r.0.stage == 0,
            r.1 == DelProtectAction::ReserveNames,
    {
        (DelProtectEntry { stage: 0 }, DelProtectAction::ReserveNames)
    }

    /// Takes the outcome of the step of the current stage: for the
    /// reservation, `STATUS_SUCCESS` or `STATUS_INSUFFICIENT_RESOURCES`; for the
    /// others, the status of the call. A failed reservation ends the entry
    /// point with `STATUS_INSUFFICIENT_RESOURCES`; a failed registration ends
    /// it with its status; a failed start ends it with its status after
    /// unregistering the filter; a successful start ends it with success.
    pub fn advance(&mut self, status: i32) -> (r: DelProtectAction)
        requires
            old(self).stage <= 2,
        ensures
            spec_nt_success(status) && old(self).stage < 2 ==> final(self).stage == old(self).stage + 1
                && r == stage_action((old(self).stage + 1) as u8),
            spec_nt_success(status) && old(self).stage == 2 ==> r == (DelProtectAction::Finish {
                status,
                unregister_filter: false,
            }),
            !spec_nt_success(status) && old(self).stage == 0 ==> r == (DelProtectAction::Finish {
                status: STATUS_INSUFFICIENT_RESOURCES,
                unregister_filter: false,
            }),
            !spec_nt_success(status) && old(self).stage == 1 ==> r == (DelProtectAction::Finish {
                status,
                unregister_filter: false,
            }),
            !spec_nt_success(status) && old(self).stage == 2 ==> r == (DelProtectAction::Finish {
                status,
                unregister_filter: true,
            }),
            r is Finish ==> final(self).stage == old(self).stage,
    {
        if self.stage == 0 {
            if !nt_success(status) {
                return DelProtectAction::Finish {
                    status: STATUS_INSUFFICIENT_RESOURCES,
                    unregister_filter: false,
                };
            }
            self.stage = 1;
            DelProtectAction::RegisterFilter
        } else if self.stage == 1 {
            if !nt_success(status) {
                return DelProtectAction::Finish { status, unregister_filter: false };
            }
            self.stage = 2;
            DelProtectAction::StartFiltering
        } else {
            DelProtectAction::Finish { status, unregister_filter: !nt_success(status) }
        }
    }
}

/// The name the driver protects from the start.
pub open spec fn command_shell_name() -> Seq<char> {
    "\\cmd.exe"@
}

/// Adds the command shell, `\cmd.exe`, to the protection list, as the entry
/// point does after reserving the list; the result says whether it was
/// added (memory for the copy could be reserved).
pub fn protect_command_shell(names: &mut BoundedQueue<String>) -> (added: bool)
    ensures
        final(names).spec_capacity() == old(names).spec_capacity(),
        added ==> texts(final(names)@) == push_bounded(texts(old(names)@), command_shell_name(), old(names).spec_capacity()),
        !added ==> final(names)@ == old(names)@,
{
    push_item_thread_safe(names, "\\cmd.exe")
}

} // verus!
