//! The host side of the WebAssembly ABI: the imports that the host gives to
//! a guest, the exports that a guest has to bring, and the exchange of bytes
//! through the guest's linear memory, every window of which is checked
//! against the memory's size.

use vstd::prelude::*;
use crate::error::LYServerErrorKind;
use crate::metadata::{LYServerPluginMetadata, MetadataModel};
use crate::text::join4;

verus! {

/// The export that runs a plugin.
pub const LYSERVER_PLUGIN_ABI_INIT_METHOD: &'static str = "lyserver_plugin_init";

/// The export that stops a plugin.
pub const LYSERVER_PLUGIN_ABI_DESTROY_METHOD: &'static str = "lyserver_plugin_destroy";

/// The export that takes an event.
pub const LYSERVER_PLUGIN_ABI_HANDLE_MESSAGE_EVENT_METHOD: &'static str =
    "lyserver_plugin_handle_message_event";

/// The import that writes to the host's standard output.
pub const LYSERVER_PLUGIN_ABI_STDOUT_WRITE_METHOD: &'static str = "lyserver_plugin_stdout_write";

/// The import that logs at the level `info`.
pub const LYSERVER_PLUGIN_ABI_LOG_INFO_METHOD: &'static str = "lyserver_plugin_log_info";

/// The import that logs at the level `warn`.
pub const LYSERVER_PLUGIN_ABI_LOG_WARN_METHOD: &'static str = "lyserver_plugin_log_warn";

/// The import that logs at the level `error`.
pub const LYSERVER_PLUGIN_ABI_LOG_ERROR_METHOD: &'static str = "lyserver_plugin_log_error";

/// The import that logs at the level `debug`.
pub const LYSERVER_PLUGIN_ABI_LOG_DEBUG_METHOD: &'static str = "lyserver_plugin_log_debug";

/// The import that takes the next event from the bus.
pub const LYSERVER_PLUGIN_ABI_RECEIVE_MESSAGE_METHOD: &'static str =
    "lyserver_plugin_receive_message";

/// The import that sends an event to the bus.
pub const LYSERVER_PLUGIN_ABI_SEND_MESSAGE_METHOD: &'static str = "lyserver_plugin_send_message";

/// The export that reserves a buffer in the guest's memory.
pub const LYSERVER_PLUGIN_ABI_ALLOC_METHOD: &'static str = "lyserver_plugin_alloc";

/// The name of the module that the host's imports belong to.
pub const LYSERVER_PLUGIN_ABI_MODULE: &'static str = "env";

/// The name under which a guest exports its linear memory.
pub const LYSERVER_PLUGIN_ABI_MEMORY: &'static str = "memory";

/// The functions that the host gives to a guest.
#[derive(Clone, Copy, Debug, PartialEq, Eq, Structural)]
pub enum LYServerHostImport {
    StdoutWrite,
    LogInfo,
    LogWarn,
    LogError,
    LogDebug,
    ReceiveMessage,
    SendMessage,
}

impl LYServerHostImport {
    /// The name of the import.
    pub open spec fn name_text(self) -> Seq<char> {
        match self {
            LYServerHostImport::StdoutWrite => LYSERVER_PLUGIN_ABI_STDOUT_WRITE_METHOD@,
            LYServerHostImport::LogInfo => LYSERVER_PLUGIN_ABI_LOG_INFO_METHOD@,
            LYServerHostImport::LogWarn => LYSERVER_PLUGIN_ABI_LOG_WARN_METHOD@,
            LYServerHostImport::LogError => LYSERVER_PLUGIN_ABI_LOG_ERROR_METHOD@,
            LYServerHostImport::LogDebug => LYSERVER_PLUGIN_ABI_LOG_DEBUG_METHOD@,
            LYServerHostImport::ReceiveMessage => LYSERVER_PLUGIN_ABI_RECEIVE_MESSAGE_METHOD@,
            LYServerHostImport::SendMessage => LYSERVER_PLUGIN_ABI_SEND_MESSAGE_METHOD@,
        }
    }

    /// The number of 32-bit integers that the import takes. No import gives
    /// anything back.
    pub open spec fn arity(self) -> nat {
        match self {
            LYServerHostImport::SendMessage => 3,
            _ => 2,
        }
    }

    /// The name of the import.
    pub fn name(self) -> (r: &'static str)
        ensures
            r@ == self.name_text(),
    {
        match self {
            LYServerHostImport::StdoutWrite => LYSERVER_PLUGIN_ABI_STDOUT_WRITE_METHOD,
            LYServerHostImport::LogInfo => LYSERVER_PLUGIN_ABI_LOG_INFO_METHOD,
            LYServerHostImport::LogWarn => LYSERVER_PLUGIN_ABI_LOG_WARN_METHOD,
            LYServerHostImport::LogError => LYSERVER_PLUGIN_ABI_LOG_ERROR_METHOD,
            LYServerHostImport::LogDebug => LYSERVER_PLUGIN_ABI_LOG_DEBUG_METHOD,
            LYServerHostImport::ReceiveMessage => LYSERVER_PLUGIN_ABI_RECEIVE_MESSAGE_METHOD,
            LYServerHostImport::SendMessage => LYSERVER_PLUGIN_ABI_SEND_MESSAGE_METHOD,
        }
    }

    /// The number of 32-bit integers that the import takes.
    pub fn parameters(self) -> (r: usize)
        ensures
            r == self.arity(),
    {
        match self {
            LYServerHostImport::SendMessage => 3,
            _ => 2,
        }
    }
}

/// The imports that the host gives to every guest, in the order in which
/// they are put into the linker.
pub open spec fn host_imports() -> Seq<LYServerHostImport> {
    seq![
        LYServerHostImport::StdoutWrite,
        LYServerHostImport::LogInfo,
        LYServerHostImport::LogWarn,
        LYServerHostImport::LogError,
        LYServerHostImport::LogDebug,
        LYServerHostImport::ReceiveMessage,
        LYServerHostImport::SendMessage,
    ]
}

/// The imports to put into a guest's linker: the standard output, the four
/// log levels, and the two directions of messaging, and nothing else. Each
/// of them does what `host_call` says of it, and `host_call` handles no
/// import that is not in the list.
pub fn mutate_linker() -> (r: Vec<LYServerHostImport>)
    ensures
        r@ == host_imports(),
        r@.no_duplicates(),
        forall|import: LYServerHostImport| #[trigger] r@.contains(import),
{
    proof {
        assert(host_imports().no_duplicates());
        assert forall|import: LYServerHostImport| #[trigger] host_imports().contains(import) by {
            lemma_every_import_is_linked(import);
        }
    }
    let mut imports: Vec<LYServerHostImport> = Vec::new();
    imports.push(LYServerHostImport::StdoutWrite);
    imports.push(LYServerHostImport::LogInfo);
    imports.push(LYServerHostImport::LogWarn);
    imports.push(LYServerHostImport::LogError);
    imports.push(LYServerHostImport::LogDebug);
    imports.push(LYServerHostImport::ReceiveMessage);
    imports.push(LYServerHostImport::SendMessage);
    assert(imports@ =~= host_imports());
    imports
}

/// Every import is among the imports that are put into a linker.
pub proof fn lemma_every_import_is_linked(import: LYServerHostImport)
    ensures
        host_imports().contains(import),
{
    let all = host_imports();
    match import {
        LYServerHostImport::StdoutWrite => assert(all[0] == import),
        LYServerHostImport::LogInfo => assert(all[1] == import),
        LYServerHostImport::LogWarn => assert(all[2] == import),
        LYServerHostImport::LogError => assert(all[3] == import),
        LYServerHostImport::LogDebug => assert(all[4] == import),
        LYServerHostImport::ReceiveMessage => assert(all[5] == import),
        LYServerHostImport::SendMessage => assert(all[6] == import),
    }
}

/// A guest handed over a window that does not lie within its memory.
#[derive(Clone, Copy, Debug, PartialEq, Eq, Structural)]
pub struct LYServerGuestMemoryFault {
    /// Where the window begins, as the guest gave it.
    pub ptr: i32,
    /// The length of the window, as the guest gave it.
    pub len: i64,
}

impl LYServerGuestMemoryFault {
    /// The kind of the failure.
    pub fn kind(self) -> (r: LYServerErrorKind)
        ensures
            r == LYServerErrorKind::GuestMemoryFault,
    {
        LYServerErrorKind::GuestMemoryFault
    }
}

/// Whether the window of `len` bytes at `ptr` lies within a memory of
/// `memory_size` bytes.
pub open spec fn window_in_bounds(memory_size: int, ptr: int, len: int) -> bool {
    0 <= ptr && 0 <= len && ptr + len <= memory_size
}

/// The four bytes of a 32-bit word, least significant first.
pub open spec fn little_endian(word: u32) -> Seq<u8> {
    seq![
        (word % 256) as u8,
        (word / 256 % 256) as u8,
        (word / 65536 % 256) as u8,
        (word / 16777216) as u8,
    ]
}

/// The word that four bytes stand for, least significant first.
pub open spec fn from_little_endian(bytes: Seq<u8>) -> int {
    bytes[0] + 256 * bytes[1] + 65536 * bytes[2] + 16777216 * bytes[3]
}

/// The four bytes stand for the word that they were made of.
pub proof fn lemma_little_endian(word: u32)
    ensures
        little_endian(word).len() == 4,
        from_little_endian(little_endian(word)) == word,
{
}

/// Bytes to write into a guest's memory.
#[derive(Debug, PartialEq, Eq)]
pub struct LYServerGuestWrite {
    /// Where the bytes go.
    pub offset: usize,
    /// The bytes.
    pub bytes: Vec<u8>,
}

/// The mathematical value of a write.
pub struct GuestWriteModel {
    pub offset: int,
    pub bytes: Seq<u8>,
}

impl View for LYServerGuestWrite {
    type V = GuestWriteModel;

    open spec fn view(&self) -> GuestWriteModel {
        GuestWriteModel { offset: self.offset as int, bytes: self.bytes@ }
    }
}

/// Writes as mathematical values.
pub open spec fn writes_model(writes: Seq<LYServerGuestWrite>) -> Seq<GuestWriteModel> {
    Seq::new(writes.len(), |i: int| writes[i]@)
}

/// The first of the given windows that does not lie within the memory, as
/// the fault that reports it.
pub open spec fn first_fault(memory_size: int, windows: Seq<(i32, int)>) -> Option<
    LYServerGuestMemoryFault,
>
    decreases windows.len(),
{
    if windows.len() == 0 {
        None
    } else if !window_in_bounds(memory_size, windows[0].0 as int, windows[0].1) {
        Some(LYServerGuestMemoryFault { ptr: windows[0].0, len: windows[0].1 as i64 })
    } else {
        first_fault(memory_size, windows.drop_first())
    }
}

/// Checks a window that a guest gave against the size of its memory, and
/// gives its bounds.
pub fn guest_window(memory_size: usize, ptr: i32, len: i32) -> (r: Result<
    (usize, usize),
    LYServerGuestMemoryFault,
>)
    ensures
        match r {
            Ok((start, end)) => window_in_bounds(memory_size as int, ptr as int, len as int)
                && start == ptr && end == ptr + len,
            Err(fault) => !window_in_bounds(memory_size as int, ptr as int, len as int) && fault
                == (LYServerGuestMemoryFault { ptr, len: len as i64 }),
        },
{
    if ptr < 0 || len < 0 {
        return Err(LYServerGuestMemoryFault { ptr, len: len as i64 });
    }
    let start: u64 = ptr as u64;
    let end: u64 = start + len as u64;
    if end > memory_size as u64 {
        return Err(LYServerGuestMemoryFault { ptr, len: len as i64 });
    }
    Ok((start as usize, end as usize))
}

/// Copies the window of `len` bytes at `ptr` out of a guest's memory.
pub fn read_guest(memory: &[u8], ptr: i32, len: i32) -> (r: Result<Vec<u8>, LYServerGuestMemoryFault>)
    ensures
        match r {
            Ok(bytes) => window_in_bounds(memory@.len() as int, ptr as int, len as int) && bytes@
                == memory@.subrange(ptr as int, ptr + len),
            Err(fault) => !window_in_bounds(memory@.len() as int, ptr as int, len as int) && fault
                == (LYServerGuestMemoryFault { ptr, len: len as i64 }),
        },
{
    let (start, end) = match guest_window(memory.len(), ptr, len) {
        Ok(bounds) => bounds,
        Err(fault) => {
            return Err(fault);
        },
    };
    let mut out: Vec<u8> = Vec::new();
    let mut i: usize = start;
    while i < end
        invariant
            start <= i <= end,
            end <= memory@.len(),
            out@ == memory@.subrange(start as int, i as int),
        decreases end - i,
    {
        out.push(memory[i]);
        assert(out@ =~= memory@.subrange(start as int, i + 1));
        i = i + 1;
    }
    Ok(out)
}

/// The four bytes of a word, least significant first.
pub fn le_bytes(word: u32) -> (r: Vec<u8>)
    ensures
        r@ == little_endian(word),
{
    let mut out: Vec<u8> = Vec::new();
    out.push((word % 256) as u8);
    out.push((word / 256 % 256) as u8);
    out.push((word / 65536 % 256) as u8);
    out.push((word / 16777216) as u8);
    assert(out@ =~= little_endian(word));
    out
}

/// A write of `bytes` at `ptr`, checked against the size of the memory.
pub fn guest_write(memory_size: usize, ptr: i32, bytes: Vec<u8>) -> (r: Result<
    LYServerGuestWrite,
    LYServerGuestMemoryFault,
>)
    ensures
        match r {
            Ok(write) => window_in_bounds(memory_size as int, ptr as int, bytes@.len() as int)
                && write@ == (GuestWriteModel { offset: ptr as int, bytes: bytes@ }),
            Err(fault) => !window_in_bounds(memory_size as int, ptr as int, bytes@.len() as int)
                && fault.ptr == ptr && (bytes@.len() <= i64::MAX ==> fault.len == bytes@.len()),
        },
{
    let len: usize = bytes.len();
    let reported: i64 = if len as u64 <= 0x7fff_ffff_ffff_ffff {
        len as i64
    } else {
        i64::MAX
    };
    if ptr < 0 {
        return Err(LYServerGuestMemoryFault { ptr, len: reported });
    }
    let start: usize = ptr as usize;
    if start > memory_size || len > memory_size - start {
        return Err(LYServerGuestMemoryFault { ptr, len: reported });
    }
    Ok(LYServerGuestWrite { offset: start, bytes })
}

/// What the host writes into a guest's memory to hand over a message, or to
/// say that there is none.
///
/// With a message, `delivery` holds the message and the address of the
/// buffer that the guest's allocator gave for it: the message goes into the
/// buffer, the address into the slot at `ret_ptr_out` and the length into the
/// slot at `ret_len_out`, both as little-endian words. Without a message both
/// slots are set to zero. Every window is checked; the first that does not
/// lie within the memory is the fault, and then nothing is written.
pub fn receive_message(
    memory_size: usize,
    ret_ptr_out: i32,
    ret_len_out: i32,
    delivery: Option<(i32, Vec<u8>)>,
) -> (r: Result<Vec<LYServerGuestWrite>, LYServerGuestMemoryFault>)
    requires
        delivery matches Some((_, message)) ==> message@.len() <= i32::MAX,
    ensures
        match delivery {
            Some((buffer, message)) => match r {
                Ok(writes) => {
                    &&& buffer >= 0
                    &&& window_in_bounds(memory_size as int, buffer as int, message@.len() as int)
                    &&& window_in_bounds(memory_size as int, ret_ptr_out as int, 4)
                    &&& window_in_bounds(memory_size as int, ret_len_out as int, 4)
                    &&& writes_model(writes@) == seq![
                        GuestWriteModel { offset: buffer as int, bytes: message@ },
                        GuestWriteModel {
                            offset: ret_ptr_out as int,
                            bytes: little_endian(buffer as u32),
                        },
                        GuestWriteModel {
                            offset: ret_len_out as int,
                            bytes: little_endian(message@.len() as u32),
                        },
                    ]
                },
                Err(fault) => Some(fault) == first_fault(
                    memory_size as int,
                    seq![
                        (buffer, message@.len() as int),
                        (ret_ptr_out, 4int),
                        (ret_len_out, 4int),
                    ],
                ),
            },
            None => match r {
                Ok(writes) => {
                    &&& window_in_bounds(memory_size as int, ret_ptr_out as int, 4)
                    &&& window_in_bounds(memory_size as int, ret_len_out as int, 4)
                    &&& writes_model(writes@) == seq![
                        GuestWriteModel { offset: ret_ptr_out as int, bytes: little_endian(0) },
                        GuestWriteModel { offset: ret_len_out as int, bytes: little_endian(0) },
                    ]
                },
                Err(fault) => Some(fault) == first_fault(
                    memory_size as int,
                    seq![(ret_ptr_out, 4int), (ret_len_out, 4int)],
                ),
            },
        },
{
    let mut writes: Vec<LYServerGuestWrite> = Vec::new();
    let (address, length): (u32, u32) = match delivery {
        Some((buffer, message)) => {
            let length: usize = message.len();
            let ghost kept = message@;
            let ghost windows = seq![
                (buffer, kept.len() as int),
                (ret_ptr_out, 4int),
                (ret_len_out, 4int),
            ];
            proof {
                reveal_with_fuel(first_fault, 4);
                assert(windows.drop_first() =~= seq![(ret_ptr_out, 4int), (ret_len_out, 4int)]);
                assert(windows.drop_first().drop_first() =~= seq![(ret_len_out, 4int)]);
                assert(windows.drop_first().drop_first().drop_first() =~= Seq::<(i32, int)>::empty());
            }
            match guest_write(memory_size, buffer, message) {
                Ok(write) => {
                    writes.push(write);
                },
                Err(fault) => {
                    return Err(fault);
                },
            }
            match guest_write(memory_size, ret_ptr_out, le_bytes(buffer as u32)) {
                Ok(write) => {
                    writes.push(write);
                },
                Err(fault) => {
                    return Err(fault);
                },
            }
            match guest_write(memory_size, ret_len_out, le_bytes(length as u32)) {
                Ok(write) => {
                    writes.push(write);
                },
                Err(fault) => {
                    return Err(fault);
                },
            }
            assert(writes_model(writes@) =~= seq![
                GuestWriteModel { offset: buffer as int, bytes: kept },
                GuestWriteModel { offset: ret_ptr_out as int, bytes: little_endian(buffer as u32) },
                GuestWriteModel {
                    offset: ret_len_out as int,
                    bytes: little_endian(kept.len() as u32),
                },
            ]);
            return Ok(writes);
        },
        None => (0, 0),
    };
    let ghost windows = seq![(ret_ptr_out, 4int), (ret_len_out, 4int)];
    proof {
        reveal_with_fuel(first_fault, 3);
        assert(windows.drop_first() =~= seq![(ret_len_out, 4int)]);
        assert(windows.drop_first().drop_first() =~= Seq::<(i32, int)>::empty());
    }
    match guest_write(memory_size, ret_ptr_out, le_bytes(address)) {
        Ok(write) => {
            writes.push(write);
        },
        Err(fault) => {
            return Err(fault);
        },
    }
    match guest_write(memory_size, ret_len_out, le_bytes(length)) {
        Ok(write) => {
            writes.push(write);
        },
        Err(fault) => {
            return Err(fault);
        },
    }
    assert(writes_model(writes@) =~= seq![
        GuestWriteModel { offset: ret_ptr_out as int, bytes: little_endian(0) },
        GuestWriteModel { offset: ret_len_out as int, bytes: little_endian(0) },
    ]);
    Ok(writes)
}

/// The code that tells a guest how a send went: 0 for success, 1 for
/// failure.
pub open spec fn send_code(sent: bool) -> u32 {
    if sent {
        0
    } else {
        1
    }
}

/// What the host writes into a guest's memory after a send: the code, as a
/// little-endian word, into the slot at `ret_ptr_out`.
pub fn send_message(memory_size: usize, ret_ptr_out: i32, sent: bool) -> (r: Result<
    LYServerGuestWrite,
    LYServerGuestMemoryFault,
>)
    ensures
        match r {
            Ok(write) => window_in_bounds(memory_size as int, ret_ptr_out as int, 4) && write@ == (
            GuestWriteModel { offset: ret_ptr_out as int, bytes: little_endian(send_code(sent)) }),
            Err(fault) => !window_in_bounds(memory_size as int, ret_ptr_out as int, 4) && fault == (
            LYServerGuestMemoryFault { ptr: ret_ptr_out, len: 4 }),
        },
{
    let code: u32 = if sent {
        0
    } else {
        1
    };
    guest_write(memory_size, ret_ptr_out, le_bytes(code))
}

/// What the host has learnt while it serves a call of a messaging import.
#[derive(Debug, PartialEq, Eq)]
pub enum LYServerHostAnswer {
    /// For the send import: whether the bytes of the window were an event,
    /// and whether the bus took the event.
    Sent { decoded: bool, dispatched: bool },
    /// For the receive import: the encoded event that the bus gave, with the
    /// address of the buffer that the guest's allocator gave for it, or
    /// nothing where the bus gave no event.
    Received(Option<(i32, Vec<u8>)>),
}

/// The mathematical value of an answer.
pub enum HostAnswerModel {
    Sent { decoded: bool, dispatched: bool },
    Received(Option<(i32, Seq<u8>)>),
}

impl View for LYServerHostAnswer {
    type V = HostAnswerModel;

    open spec fn view(&self) -> HostAnswerModel {
        match self {
            LYServerHostAnswer::Sent { decoded, dispatched } => HostAnswerModel::Sent {
                decoded: *decoded,
                dispatched: *dispatched,
            },
            LYServerHostAnswer::Received(Some((buffer, message))) => HostAnswerModel::Received(
                Some((*buffer, message@)),
            ),
            LYServerHostAnswer::Received(None) => HostAnswerModel::Received(None),
        }
    }
}

/// What the host does next while it serves a call of an import.
#[derive(Debug, PartialEq, Eq)]
pub enum LYServerHostAction {
    /// Write these bytes, which the guest handed over as a text, to the
    /// standard output or to the log, and return to the guest.
    Emit(Vec<u8>),
    /// Decode these bytes, which the guest handed over, as an event and
    /// dispatch it; then come back with what came of it.
    Dispatch(Vec<u8>),
    /// Take the next event from the plugin's subscriber, encode it and ask
    /// the guest's allocator for a buffer; then come back with both.
    Receive,
    /// Make these writes into the guest's memory, in this order, and return
    /// to the guest.
    Write(Vec<LYServerGuestWrite>),
}

/// The mathematical value of an action.
pub enum HostActionModel {
    Emit(Seq<u8>),
    Dispatch(Seq<u8>),
    Receive,
    Write(Seq<GuestWriteModel>),
}

impl View for LYServerHostAction {
    type V = HostActionModel;

    open spec fn view(&self) -> HostActionModel {
        match self {
            LYServerHostAction::Emit(bytes) => HostActionModel::Emit(bytes@),
            LYServerHostAction::Dispatch(bytes) => HostActionModel::Dispatch(bytes@),
            LYServerHostAction::Receive => HostActionModel::Receive,
            LYServerHostAction::Write(writes) => HostActionModel::Write(writes_model(writes@)),
        }
    }
}

/// The fault that reports a window.
pub open spec fn fault_of(ptr: i32, len: int) -> LYServerGuestMemoryFault {
    LYServerGuestMemoryFault { ptr, len: len as i64 }
}

/// The windows that the handing over of a message writes to: the buffer,
/// where there is a message, and the two slots.
pub open spec fn delivery_windows(ret_ptr_out: i32, ret_len_out: i32, delivery: Option<(i32, Seq<u8>)>) -> Seq<
    (i32, int),
> {
    match delivery {
        Some((buffer, message)) => seq![
            (buffer, message.len() as int),
            (ret_ptr_out, 4int),
            (ret_len_out, 4int),
        ],
        None => seq![(ret_ptr_out, 4int), (ret_len_out, 4int)],
    }
}

/// The writes that hand a message over: the message into the buffer, and the
/// buffer's address and the message's length into the slots, as
/// little-endian words; without a message, zero into both slots.
pub open spec fn delivery_writes(ret_ptr_out: i32, ret_len_out: i32, delivery: Option<(i32, Seq<u8>)>) -> Seq<
    GuestWriteModel,
> {
    match delivery {
        Some((buffer, message)) => seq![
            GuestWriteModel { offset: buffer as int, bytes: message },
            GuestWriteModel { offset: ret_ptr_out as int, bytes: little_endian(buffer as u32) },
            GuestWriteModel { offset: ret_len_out as int, bytes: little_endian(message.len() as u32) },
        ],
        None => seq![
            GuestWriteModel { offset: ret_ptr_out as int, bytes: little_endian(0) },
            GuestWriteModel { offset: ret_len_out as int, bytes: little_endian(0) },
        ],
    }
}

/// What the host does when a guest calls an import with the arguments `a`,
/// `b` and `c`, by what the host has learnt so far.
///
/// - The standard output and the four log levels take a window: `a` is where
///   it begins and `b` its length. Its bytes are emitted.
/// - The send import takes a window, `a` and `b`, and the slot `c` for the
///   code. Both are checked before the window is read. Its bytes are to be
///   decoded and dispatched; with the answer, the code goes into the slot: 0
///   if and only if the bytes were an event and the bus took it, else 1.
/// - The receive import takes the two slots `a` and `b`. Both are checked
///   before an event is taken from the bus; with the answer, the message
///   and the two words are written as `delivery_writes` says.
///
/// Every window is held against the size of the memory before anything is
/// read or written; the first that does not lie within the memory is the
/// fault, and then nothing is read or written. An answer that does not
/// belong to the import counts as no answer.
pub open spec fn host_step(
    import: LYServerHostImport,
    memory: Seq<u8>,
    a: i32,
    b: i32,
    c: i32,
    answer: Option<HostAnswerModel>,
) -> Result<HostActionModel, LYServerGuestMemoryFault> {
    let size = memory.len() as int;
    match import {
        LYServerHostImport::SendMessage => match answer {
            Some(HostAnswerModel::Sent { decoded, dispatched }) => if window_in_bounds(size, c as int, 4) {
                Ok(
                    HostActionModel::Write(
                        seq![
                            GuestWriteModel {
                                offset: c as int,
                                bytes: little_endian(send_code(decoded && dispatched)),
                            },
                        ],
                    ),
                )
            } else {
                Err(fault_of(c, 4))
            },
            _ => match first_fault(size, seq![(a, b as int), (c, 4int)]) {
                Some(fault) => Err(fault),
                None => Ok(HostActionModel::Dispatch(memory.subrange(a as int, a + b))),
            },
        },
        LYServerHostImport::ReceiveMessage => match answer {
            Some(HostAnswerModel::Received(delivery)) => match first_fault(
                size,
                delivery_windows(a, b, delivery),
            ) {
                Some(fault) => Err(fault),
                None => Ok(HostActionModel::Write(delivery_writes(a, b, delivery))),
            },
            _ => match first_fault(size, seq![(a, 4int), (b, 4int)]) {
                Some(fault) => Err(fault),
                None => Ok(HostActionModel::Receive),
            },
        },
        _ => if window_in_bounds(size, a as int, b as int) {
            Ok(HostActionModel::Emit(memory.subrange(a as int, a + b)))
        } else {
            Err(fault_of(a, b as int))
        },
    }
}

/// The first fault of two windows.
proof fn lemma_first_fault_of_two(size: int, first: (i32, int), second: (i32, int))
    ensures
        first_fault(size, seq![first, second]) == if !window_in_bounds(size, first.0 as int, first.1) {
            Some(fault_of(first.0, first.1))
        } else if !window_in_bounds(size, second.0 as int, second.1) {
            Some(fault_of(second.0, second.1))
        } else {
            None
        },
{
    reveal_with_fuel(first_fault, 3);
    let windows = seq![first, second];
    assert(windows.drop_first() =~= seq![second]);
    assert(windows.drop_first().drop_first() =~= Seq::<(i32, int)>::empty());
}

/// The first fault of three windows.
proof fn lemma_first_fault_of_three(size: int, first: (i32, int), second: (i32, int), third: (i32, int))
    ensures
        first_fault(size, seq![first, second, third]) == if !window_in_bounds(
            size,
            first.0 as int,
            first.1,
        ) {
            Some(fault_of(first.0, first.1))
        } else {
            first_fault(size, seq![second, third])
        },
{
    reveal_with_fuel(first_fault, 2);
    let windows = seq![first, second, third];
    assert(windows.drop_first() =~= seq![second, third]);
}

/// No import reads or writes outside the guest's memory, and the send
/// import returns the code of the send: whatever a guest hands over, where
/// `host_step` asks for a read or for writes, each of their windows lies
/// within the memory; and what the send import writes is the little-endian
/// word of the code, which is 0 if and only if the bytes were an event and
/// the bus took it.
pub proof fn lemma_host_call_stays_in_bounds(
    import: LYServerHostImport,
    memory: Seq<u8>,
    a: i32,
    b: i32,
    c: i32,
    answer: Option<HostAnswerModel>,
)
    ensures
        match host_step(import, memory, a, b, c, answer) {
            Ok(HostActionModel::Emit(bytes)) => window_in_bounds(memory.len() as int, a as int, b as int)
                && bytes == memory.subrange(a as int, a + b),
            Ok(HostActionModel::Dispatch(bytes)) => import == LYServerHostImport::SendMessage
                && window_in_bounds(memory.len() as int, a as int, b as int) && window_in_bounds(
                memory.len() as int,
                c as int,
                4,
            ) && bytes == memory.subrange(a as int, a + b),
            Ok(HostActionModel::Receive) => import == LYServerHostImport::ReceiveMessage
                && window_in_bounds(memory.len() as int, a as int, 4) && window_in_bounds(
                memory.len() as int,
                b as int,
                4,
            ),
            Ok(HostActionModel::Write(writes)) => forall|k: int|
                0 <= k < writes.len() ==> window_in_bounds(
                    memory.len() as int,
                    (#[trigger] writes[k]).offset,
                    writes[k].bytes.len() as int,
                ),
            Err(_) => true,
        },
        import == LYServerHostImport::SendMessage ==> (answer matches Some(
            HostAnswerModel::Sent { decoded, dispatched },
        ) ==> (host_step(import, memory, a, b, c, answer) matches Ok(HostActionModel::Write(writes))
            ==> writes.len() == 1 && writes[0].offset == c && writes[0].bytes == little_endian(
            if decoded && dispatched {
                0u32
            } else {
                1u32
            },
        ))),
{
    let size = memory.len() as int;
    lemma_first_fault_of_two(size, (a, b as int), (c, 4int));
    lemma_first_fault_of_two(size, (a, 4int), (b, 4int));
    match answer {
        Some(HostAnswerModel::Received(Some((buffer, message)))) => {
            lemma_first_fault_of_three(size, (buffer, message.len() as int), (a, 4int), (b, 4int));
        },
        _ => {},
    }
}

/// Serves one step of a guest's call of an import, as `host_step` says.
pub fn host_call(
    import: LYServerHostImport,
    memory: &[u8],
    a: i32,
    b: i32,
    c: i32,
    answer: Option<LYServerHostAnswer>,
) -> (r: Result<LYServerHostAction, LYServerGuestMemoryFault>)
    requires
        answer matches Some(LYServerHostAnswer::Received(Some((_, message)))) ==> message@.len()
            <= i32::MAX,
    ensures
        match r {
            Ok(action) => host_step(
                import,
                memory@,
                a,
                b,
                c,
                match answer {
                    Some(given) => Some(given@),
                    None => None,
                },
            ) == Ok::<HostActionModel, LYServerGuestMemoryFault>(action@),
            Err(fault) => host_step(
                import,
                memory@,
                a,
                b,
                c,
                match answer {
                    Some(given) => Some(given@),
                    None => None,
                },
            ) == Err::<HostActionModel, LYServerGuestMemoryFault>(fault),
        },
{
    let size: usize = memory.len();
    proof {
        lemma_first_fault_of_two(size as int, (a, b as int), (c, 4int));
        lemma_first_fault_of_two(size as int, (a, 4int), (b, 4int));
    }
    match import {
        LYServerHostImport::SendMessage => match answer {
            Some(LYServerHostAnswer::Sent { decoded, dispatched }) => {
                match send_message(size, c, decoded && dispatched) {
                    Ok(write) => {
                        let mut writes: Vec<LYServerGuestWrite> = Vec::new();
                        writes.push(write);
                        assert(writes_model(writes@) =~= seq![
                            GuestWriteModel {
                                offset: c as int,
                                bytes: little_endian(send_code(decoded && dispatched)),
                            },
                        ]);
                        Ok(LYServerHostAction::Write(writes))
                    },
                    Err(fault) => Err(fault),
                }
            },
            _ => {
                if let Err(fault) = guest_window(size, a, b) {
                    return Err(fault);
                }
                if let Err(fault) = guest_window(size, c, 4) {
                    return Err(fault);
                }
                match read_guest(memory, a, b) {
                    Ok(bytes) => Ok(LYServerHostAction::Dispatch(bytes)),
                    Err(fault) => Err(fault),
                }
            },
        },
        LYServerHostImport::ReceiveMessage => match answer {
            Some(LYServerHostAnswer::Received(delivery)) => {
                proof {
                    if delivery is Some {
                        lemma_first_fault_of_three(
                            size as int,
                            (delivery->Some_0.0, delivery->Some_0.1@.len() as int),
                            (a, 4int),
                            (b, 4int),
                        );
                    }
                }
                match receive_message(size, a, b, delivery) {
                    Ok(writes) => Ok(LYServerHostAction::Write(writes)),
                    Err(fault) => Err(fault),
                }
            },
            _ => {
                if let Err(fault) = guest_window(size, a, 4) {
                    return Err(fault);
                }
                if let Err(fault) = guest_window(size, b, 4) {
                    return Err(fault);
                }
                Ok(LYServerHostAction::Receive)
            },
        },
        _ => match read_guest(memory, a, b) {
            Ok(bytes) => Ok(LYServerHostAction::Emit(bytes)),
            Err(fault) => Err(fault),
        },
    }
}

/// The exports that a guest has to bring.
#[derive(Clone, Copy, Debug, PartialEq, Eq, Structural)]
pub enum LYServerGuestExport {
    Memory,
    Alloc,
    Init,
    Destroy,
    HandleMessageEvent,
}

impl LYServerGuestExport {
    /// The name of the export.
    pub open spec fn name_text(self) -> Seq<char> {
        match self {
            LYServerGuestExport::Memory => LYSERVER_PLUGIN_ABI_MEMORY@,
            LYServerGuestExport::Alloc => LYSERVER_PLUGIN_ABI_ALLOC_METHOD@,
            LYServerGuestExport::Init => LYSERVER_PLUGIN_ABI_INIT_METHOD@,
            LYServerGuestExport::Destroy => LYSERVER_PLUGIN_ABI_DESTROY_METHOD@,
            LYServerGuestExport::HandleMessageEvent => LYSERVER_PLUGIN_ABI_HANDLE_MESSAGE_EVENT_METHOD@,
        }
    }

    /// The name of the export.
    pub fn name(self) -> (r: &'static str)
        ensures
            r@ == self.name_text(),
    {
        match self {
            LYServerGuestExport::Memory => LYSERVER_PLUGIN_ABI_MEMORY,
            LYServerGuestExport::Alloc => LYSERVER_PLUGIN_ABI_ALLOC_METHOD,
            LYServerGuestExport::Init => LYSERVER_PLUGIN_ABI_INIT_METHOD,
            LYServerGuestExport::Destroy => LYSERVER_PLUGIN_ABI_DESTROY_METHOD,
            LYServerGuestExport::HandleMessageEvent => LYSERVER_PLUGIN_ABI_HANDLE_MESSAGE_EVENT_METHOD,
        }
    }
}

/// Why a module gives no plugin.
#[derive(Clone, Copy, Debug, PartialEq, Eq, Structural)]
pub enum LYServerInstantiationError {
    /// The engine could not make an instance of the module.
    Rejected,
    /// The module lacks an export, or has it with another signature.
    MissingExport(LYServerGuestExport),
}

impl LYServerInstantiationError {
    /// The kind of the failure.
    pub fn kind(self) -> (r: LYServerErrorKind)
        ensures
            r == LYServerErrorKind::InstantiationFailed,
    {
        LYServerErrorKind::InstantiationFailed
    }
}

/// What the engine found in a module.
#[derive(Debug, PartialEq, Eq)]
pub struct LYServerModuleExports {
    /// Whether an instance could be made.
    pub instantiated: bool,
    /// Whether `lyserver_plugin_init` is there, taking and giving nothing.
    pub init: bool,
    /// Whether `lyserver_plugin_destroy` is there, taking and giving nothing.
    pub destroy: bool,
    /// Whether `lyserver_plugin_handle_message_event` is there, taking two
    /// 32-bit integers and giving nothing.
    pub handle_message_event: bool,
}

/// Whether a module gives a plugin, and if not, why: the instance has to be
/// there, then `init`, `destroy` and the event handler, looked for in this
/// order.
pub open spec fn instantiation(exports: LYServerModuleExports) -> Result<
    (),
    LYServerInstantiationError,
> {
    if !exports.instantiated {
        Err(LYServerInstantiationError::Rejected)
    } else if !exports.init {
        Err(LYServerInstantiationError::MissingExport(LYServerGuestExport::Init))
    } else if !exports.destroy {
        Err(LYServerInstantiationError::MissingExport(LYServerGuestExport::Destroy))
    } else if !exports.handle_message_event {
        Err(LYServerInstantiationError::MissingExport(LYServerGuestExport::HandleMessageEvent))
    } else {
        Ok(())
    }
}

/// A plugin that a WebAssembly module backs.
#[derive(Debug, PartialEq, Eq)]
pub struct LYServerWASMPlugin {
    metadata: LYServerPluginMetadata,
}

/// How the host hands an event to a guest: the bytes to write and the
/// arguments of the call of the guest's handler.
#[derive(Debug, PartialEq, Eq)]
pub struct LYServerGuestCall {
    /// The encoded event, to be written at the address that the guest's
    /// allocator gave.
    pub write: LYServerGuestWrite,
    /// The address of the buffer.
    pub ptr: i32,
    /// The length of the encoded event.
    pub len: i32,
}

impl LYServerWASMPlugin {
    /// The metadata of the plugin.
    pub closed spec fn model(&self) -> MetadataModel {
        self.metadata@
    }

    /// The plugin that a module backs, where the module brings what a plugin
    /// needs.
    pub fn new(metadata: LYServerPluginMetadata, exports: LYServerModuleExports) -> (r: Result<
        Self,
        LYServerInstantiationError,
    >)
        ensures
            match r {
                Ok(plugin) => instantiation(exports) is Ok && plugin.model() == metadata@,
                Err(e) => instantiation(exports) == Err::<(), LYServerInstantiationError>(e),
            },
    {
        if !exports.instantiated {
            Err(LYServerInstantiationError::Rejected)
        } else if !exports.init {
            Err(LYServerInstantiationError::MissingExport(LYServerGuestExport::Init))
        } else if !exports.destroy {
            Err(LYServerInstantiationError::MissingExport(LYServerGuestExport::Destroy))
        } else if !exports.handle_message_event {
            Err(LYServerInstantiationError::MissingExport(LYServerGuestExport::HandleMessageEvent))
        } else {
            Ok(LYServerWASMPlugin { metadata })
        }
    }

    /// The plugin's metadata.
    pub fn metadata(&self) -> (r: LYServerPluginMetadata)
        ensures
            r@ == self.model(),
    {
        self.metadata.clone()
    }

    /// The length to ask the guest's allocator for, for an encoded event:
    /// the number of its bytes, where that fits into a 32-bit integer.
    pub fn message_len(encoded: &Vec<u8>) -> (r: Option<i32>)
        ensures
            match r {
                Some(len) => len == encoded@.len(),
                None => encoded@.len() > i32::MAX,
            },
    {
        let len: usize = encoded.len();
        if len <= 0x7fff_ffff {
            Some(len as i32)
        } else {
            None
        }
    }

    /// How the host hands an encoded event to the guest, once the guest's
    /// allocator has given a buffer for it: the bytes go into the buffer, and
    /// the handler is called with the buffer's address and length. A buffer
    /// that does not lie within the guest's memory is a fault.
    pub fn handle_message_event(&self, memory_size: usize, buffer: i32, encoded: Vec<u8>) -> (r: Result<
        LYServerGuestCall,
        LYServerGuestMemoryFault,
    >)
        requires
            encoded@.len() <= i32::MAX,
        ensures
            match r {
                Ok(call) => {
                    &&& window_in_bounds(memory_size as int, buffer as int, encoded@.len() as int)
                    &&& call.write@ == (GuestWriteModel { offset: buffer as int, bytes: encoded@ })
                    &&& call.ptr == buffer
                    &&& call.len == encoded@.len()
                },
                Err(fault) => !window_in_bounds(
                    memory_size as int,
                    buffer as int,
                    encoded@.len() as int,
                ) && fault == (LYServerGuestMemoryFault { ptr: buffer, len: encoded@.len() as i64 }),
            },
    {
        let len: usize = encoded.len();
        match guest_write(memory_size, buffer, encoded) {
            Ok(write) => Ok(LYServerGuestCall { write, ptr: buffer, len: len as i32 }),
            Err(fault) => Err(fault),
        }
    }

    /// The line that a log message of this plugin becomes.
    pub fn log_line(&self, message: &str) -> (r: String)
        ensures
            r@ == log_line_text(self.model().id, message@),
    {
        log_line(self.metadata.id.as_str(), message)
    }
}

/// The line that a guest's log message becomes: the message behind the id of
/// the plugin that logged it.
pub open spec fn log_line_text(plugin_id: Seq<char>, message: Seq<char>) -> Seq<char> {
    "[Plugin "@ + plugin_id + "]: "@ + message
}

/// The line that a guest's log message becomes.
pub fn log_line(plugin_id: &str, message: &str) -> (r: String)
    ensures
        r@ == log_line_text(plugin_id@, message@),
{
    join4("[Plugin ", plugin_id, "]: ", message)
}

} // verus!
