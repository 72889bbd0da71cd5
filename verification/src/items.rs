//! The monitoring driver's records: what each kernel notification becomes,
//! and the bounded buffer that keeps the most recent ones.
use crate::bounded_queue::{push_bounded, BoundedQueue};
use crate::kernel_string::UnicodeString;
use crate::ntstatus::{handle_to_u32, nt_success, spec_nt_success, STATUS_SUCCESS, STATUS_UNSUCCESSFUL};
use crate::text::{contains_text, text_contains};
use vstd::prelude::*;

verus! {

/// How many records the monitoring driver keeps.
pub const MAX_ITEM_COUNT: usize = 256;

/// The registry notification class of a completed value write
/// (`RegNtPostSetValueKey`).
pub const REG_NT_POST_SET_VALUE_KEY: u32 = 16;

/// A record of kernel activity.
#[derive(Debug)]
pub enum ItemInfo {
    ProcessCreate { pid: u32, parent_pid: u32, command_line: String },
    ProcessExit { pid: u32 },
    ThreadCreate { pid: u32, tid: u32 },
    ThreadExit { pid: u32, tid: u32 },
    ImageLoad { pid: u32, load_address: usize, image_size: usize, image_file_name: String },
    RegistrySetValue {
        pid: u32,
        tid: u32,
        key_name: String,
        value_name: String,
        data_type: u32,
        data: Vec<u8>,
    },
}

/// The low 32 bits of a handle, as a record keeps process and thread ids.
pub open spec fn id32(handle: usize) -> u32 {
    (handle as int % 0x1_0000_0000) as u32
}

/// The record is a process creation with these fields.
pub open spec fn is_process_create(r: ItemInfo, pid: u32, parent_pid: u32, command_line: Seq<char>) -> bool {
    match r {
        ItemInfo::ProcessCreate { pid: p, parent_pid: pp, command_line: c } => p == pid && pp == parent_pid
            && c@ == command_line,
        _ => false,
    }
}

/// The record is an image load with these fields.
pub open spec fn is_image_load(r: ItemInfo, pid: u32, load_address: usize, image_size: usize, name: Seq<char>) -> bool {
    match r {
        ItemInfo::ImageLoad { pid: p, load_address: a, image_size: s, image_file_name: n } => p == pid
            && a == load_address && s == image_size && n@ == name,
        _ => false,
    }
}

/// The record is a registry value write with these fields.
pub open spec fn is_registry_set_value(
    r: ItemInfo,
    pid: u32,
    tid: u32,
    key_name: Seq<char>,
    value_name: Seq<char>,
    data_type: u32,
    data: Seq<u8>,
) -> bool {
    match r {
        ItemInfo::RegistrySetValue { pid: p, tid: t, key_name: k, value_name: v, data_type: d, data: b } => p
            == pid && t == tid && k@ == key_name && v@ == value_name && d == data_type && b@ == data,
        _ => false,
    }
}

/// The record buffer of the monitoring driver, empty.
pub fn new_event_buffer() -> (r: BoundedQueue<ItemInfo>)
    ensures
        r@ == Seq::<ItemInfo>::empty(),
        r.spec_capacity() == MAX_ITEM_COUNT,
{
    BoundedQueue::new(MAX_ITEM_COUNT)
}

/// Adds a record, dropping the oldest one when the buffer is full.
pub fn push_item_thread_safe(events: &mut BoundedQueue<ItemInfo>, item: ItemInfo)
    ensures
        final(events)@ == push_bounded(old(events)@, item, old(events).spec_capacity()),
        final(events).spec_capacity() == old(events).spec_capacity(),
        final(events)@.len() <= final(events).spec_capacity(),
{
    events.push(item);
}

/// What the process-creation notification reports of a new process: its
/// parent and its image file name.
pub struct ProcessCreateInfo {
    pub parent_process_id: usize,
    pub image_file_name: UnicodeString,
}

/// The record of a process notification: a creation, with the parent id and
/// the image file name, when creation information is given; an exit
/// otherwise.
pub fn on_process_notify(process_id: usize, create_info: Option<&ProcessCreateInfo>) -> (r: ItemInfo)
    requires
        create_info matches Some(ci) ==> ci.image_file_name.len / 2 <= ci.image_file_name.buffer@.len(),
    ensures
        create_info is None ==> r == (ItemInfo::ProcessExit { pid: id32(process_id) }),
        create_info matches Some(ci) ==> is_process_create(
            r,
            id32(process_id),
            id32(ci.parent_process_id),
            ci.image_file_name.spec_text(),
        ),
{
    match create_info {
        Some(ci) => ItemInfo::ProcessCreate {
            pid: handle_to_u32(process_id),
            parent_pid: handle_to_u32(ci.parent_process_id),
            command_line: ci.image_file_name.as_rust_string(),
        },
        None => ItemInfo::ProcessExit { pid: handle_to_u32(process_id) },
    }
}

/// The record of a thread notification: a creation when `create` is `TRUE`
/// (1), an exit otherwise.
pub fn on_thread_notify(process_id: usize, thread_id: usize, create: u8) -> (r: ItemInfo)
    ensures
        create == 1 ==> r == (ItemInfo::ThreadCreate { pid: id32(process_id), tid: id32(thread_id) }),
        create != 1 ==> r == (ItemInfo::ThreadExit { pid: id32(process_id), tid: id32(thread_id) }),
{
    if create == 1 {
        ItemInfo::ThreadCreate { pid: handle_to_u32(process_id), tid: handle_to_u32(thread_id) }
    } else {
        ItemInfo::ThreadExit { pid: handle_to_u32(process_id), tid: handle_to_u32(thread_id) }
    }
}

/// The text recorded for an image that came without a name.
pub open spec fn unknown_image_name() -> Seq<char> {
    "(unknown)"@
}

/// `String::from` on a literal text.
fn owned_text(s: &str) -> (r: String)
    ensures
        r@ == s@,
{
    s.to_owned()
}

/// The record of an image load: none for an image mapped into the system
/// (process id 0); otherwise the image's base and size and its name, or
/// `(unknown)` when no name came with it.
pub fn on_image_load_notify(
    full_image_name: Option<&UnicodeString>,
    process_id: usize,
    image_base: usize,
    image_size: usize,
) -> (r: Option<ItemInfo>)
    requires
        full_image_name matches Some(n) ==> n.len / 2 <= n.buffer@.len(),
    ensures
        process_id == 0 ==> r is None,
        process_id != 0 ==> (r matches Some(item) && is_image_load(
            item,
            id32(process_id),
            image_base,
            image_size,
            match full_image_name {
                Some(n) => n.spec_text(),
                None => unknown_image_name(),
            },
        )),
{
    if process_id == 0 {
        return None;
    }
    let image_name = match full_image_name {
        None => owned_text("(unknown)"),
        Some(n) => n.as_rust_string(),
    };
    Some(
        ItemInfo::ImageLoad {
            pid: handle_to_u32(process_id),
            load_address: image_base,
            image_size,
            image_file_name: image_name,
        },
    )
}

/// A registry notification whose key name is looked up: a completed value
/// write (class `RegNtPostSetValueKey`, taken from the low 32 bits of the
/// first argument) whose operation succeeded. Every other notification is
/// answered with success at once.
pub open spec fn spec_registry_wants_key_name(notify_class: usize, op_status: i32) -> bool {
    id32(notify_class) == REG_NT_POST_SET_VALUE_KEY && spec_nt_success(op_status)
}

/// Whether the key name of a registry notification must be looked up.
pub fn registry_wants_key_name(notify_class: usize, op_status: i32) -> (r: bool)
    ensures
        r == spec_registry_wants_key_name(notify_class, op_status),
{
    handle_to_u32(notify_class) == REG_NT_POST_SET_VALUE_KEY && nt_success(op_status)
}

/// Whether the second argument of a registry notification is the
/// post-operation information of a completed value write, whose status the
/// answer depends on: only for the class `RegNtPostSetValueKey`.
pub fn registry_carries_post_info(notify_class: usize) -> (r: bool)
    ensures
        r == (id32(notify_class) == REG_NT_POST_SET_VALUE_KEY),
{
    handle_to_u32(notify_class) == REG_NT_POST_SET_VALUE_KEY
}

/// The answer to a registry notification whose key name is not looked up:
/// `None` when the name must be looked up (a completed value write whose
/// operation succeeded), success otherwise. `op_status` is the status of
/// the operation, given only when the notification carries one (see
/// `registry_carries_post_info`).
pub fn registry_answer_without_lookup(notify_class: usize, op_status: Option<i32>) -> (r: Option<i32>)
    ensures
        r == (if (op_status matches Some(s) && spec_registry_wants_key_name(notify_class, s)) {
            None
        } else {
            Some(STATUS_SUCCESS)
        }),
{
    match op_status {
        Some(s) => {
            if registry_wants_key_name(notify_class, s) {
                None
            } else {
                Some(STATUS_SUCCESS)
            }
        },
        None => Some(STATUS_SUCCESS),
    }
}

/// The value write as the notification reports it.
pub struct RegSetValueInfo {
    pub value_name: UnicodeString,
    pub data_type: u32,
    pub data: Vec<u8>,
}

/// How a registry notification is answered: the status returned, the
/// record it produces, and whether the looked-up key name must be released.
#[derive(Debug)]
pub struct RegistryOutcome {
    pub status: i32,
    pub item: Option<ItemInfo>,
    pub release_name: bool,
}

/// The machine hive, the only one whose writes are recorded.
pub open spec fn machine_hive() -> Seq<char> {
    "\\REGISTRY\\MACHINE"@
}

/// Answers a completed value write once its key name has been looked up.
/// A failed look-up is answered with success; a look-up that gave no name
/// with `STATUS_UNSUCCESSFUL`. Otherwise the name is released and success
/// returned; a write under the machine hive that came with its value
/// information is recorded, with the current process and thread.
pub fn on_registry_set_value(
    name_status: i32,
    key_name: Option<&UnicodeString>,
    pre_info: Option<RegSetValueInfo>,
    process_id: usize,
    thread_id: usize,
) -> (r: RegistryOutcome)
    requires
        key_name matches Some(k) ==> k.len / 2 <= k.buffer@.len(),
        pre_info matches Some(p) ==> p.value_name.len / 2 <= p.value_name.buffer@.len(),
    ensures
        !spec_nt_success(name_status) ==> r.status == STATUS_SUCCESS && r.item is None && !r.release_name,
        spec_nt_success(name_status) && key_name is None ==> r.status == STATUS_UNSUCCESSFUL && r.item is None
            && !r.release_name,
        spec_nt_success(name_status) && key_name is Some ==> r.status == STATUS_SUCCESS && r.release_name,
        spec_nt_success(name_status) && key_name is Some ==> (r.item is Some <==> (contains_text(
            key_name->0.spec_text(),
            machine_hive(),
        ) && pre_info is Some)),
        r.item matches Some(item) ==> is_registry_set_value(
            item,
            id32(process_id),
            id32(thread_id),
            key_name->0.spec_text(),
            pre_info->0.value_name.spec_text(),
            pre_info->0.data_type,
            pre_info->0.data@,
        ),
{
    if !nt_success(name_status) {
        return RegistryOutcome { status: STATUS_SUCCESS, item: None, release_name: false };
    }
    let key = match key_name {
        None => {
            return RegistryOutcome { status: STATUS_UNSUCCESSFUL, item: None, release_name: false };
        },
        Some(k) => k,
    };
    let key_text = key.as_rust_string();
    if !text_contains(key_text.as_str(), "\\REGISTRY\\MACHINE") {
        return RegistryOutcome { status: STATUS_SUCCESS, item: None, release_name: true };
    }
    match pre_info {
        None => RegistryOutcome { status: STATUS_SUCCESS, item: None, release_name: true },
        Some(info) => {
            let value_name = info.value_name.as_rust_string();
            let item = ItemInfo::RegistrySetValue {
                pid: handle_to_u32(process_id),
                tid: handle_to_u32(thread_id),
                key_name: key_text,
                value_name,
                data_type: info.data_type,
                data: info.data,
            };
            RegistryOutcome { status: STATUS_SUCCESS, item: Some(item), release_name: true }
        },
    }
}

} // verus!
