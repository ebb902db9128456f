//! The shared-memory protocol by which Spout senders announce their textures.
use vstd::prelude::*;
use vstd::slice::{slice_subrange, slice_to_vec};

use crate::bytes::{contains_nul, nul_position, read_le32};
use crate::text::{quoted, text_from_bytes};

pub mod discovery;
pub mod order;
pub mod receiver;

verus! {

/// The mapping that lists the names of all senders.
pub const SENDER_NAMES_MAP: &'static str = "SpoutSenderNames";

/// Bytes in a slot of the list of sender names.
pub const SENDER_NAME_CAPACITY: usize = 256;

/// No more of the list is read than this.
pub const MAX_SENDER_LIST_BYTES: usize = 1_048_576;

/// Bytes of the description of a shared texture.
pub const SHARED_TEXTURE_INFO_SIZE: usize = 280;

/// How long discovery waits for a busy mapping.
pub const METADATA_LOCK_TIMEOUT_MS: u32 = 67;

/// The render loop does not wait for a busy mapping.
pub const REALTIME_METADATA_LOCK_TIMEOUT_MS: u32 = 0;

/// The kinds of failure that the receiver tells apart.
#[derive(Debug, Clone, Copy, PartialEq, Eq, Structural)]
pub enum ErrorKind {
    NotFound,
    WouldBlock,
    UnexpectedEof,
    InvalidInput,
    Other,
}

/// What a name was to be used for.
#[derive(Debug, Clone, Copy, PartialEq, Eq, Structural)]
pub enum NameRole {
    Sender,
    Mapping,
    Mutex,
}

/// Why shared memory could not be read.
#[derive(Debug, Clone, Copy, PartialEq, Eq, Structural)]
pub enum SpoutError {
    /// The system does not find the mapping.
    NotFound,
    /// Somebody else holds the mapping.
    Busy,
    /// The mapping is too short to hold a description.
    Truncated,
    /// A name holds a zero byte.
    NulInName(NameRole),
    /// The system refused a call.
    Os { code: i32, kind: ErrorKind },
}

impl SpoutError {
    pub open spec fn kind_of(self) -> ErrorKind {
        match self {
            SpoutError::NotFound => ErrorKind::NotFound,
            SpoutError::Busy => ErrorKind::WouldBlock,
            SpoutError::Truncated => ErrorKind::UnexpectedEof,
            SpoutError::NulInName(_) => ErrorKind::InvalidInput,
            SpoutError::Os { kind, .. } => kind,
        }
    }

    pub fn kind(self) -> (kind: ErrorKind)
        ensures
            kind == self.kind_of(),
    {
        match self {
            SpoutError::NotFound => ErrorKind::NotFound,
            SpoutError::Busy => ErrorKind::WouldBlock,
            SpoutError::Truncated => ErrorKind::UnexpectedEof,
            SpoutError::NulInName(_) => ErrorKind::InvalidInput,
            SpoutError::Os { kind, .. } => kind,
        }
    }

    /// What to tell the user about a failure that is not the system's.
    pub fn message(self) -> (text: Option<&'static str>)
        ensures
            match self {
                SpoutError::NotFound => text is None,
                SpoutError::Busy => text is Some && text->0@ == "Spout metadata is busy"@,
                SpoutError::Truncated => text is Some && text->0@
                    == "Spout sender metadata is truncated"@,
                SpoutError::NulInName(NameRole::Sender) => text is Some && text->0@
                    == "sender name contains NUL"@,
                SpoutError::NulInName(NameRole::Mapping) => text is Some && text->0@
                    == "map name contains NUL"@,
                SpoutError::NulInName(NameRole::Mutex) => text is Some && text->0@
                    == "mutex name contains NUL"@,
                SpoutError::Os { .. } => text is None,
            },
    {
        match self {
            SpoutError::NotFound => None,
            SpoutError::Busy => Some("Spout metadata is busy"),
            SpoutError::Truncated => Some("Spout sender metadata is truncated"),
            SpoutError::NulInName(NameRole::Sender) => Some("sender name contains NUL"),
            SpoutError::NulInName(NameRole::Mapping) => Some("map name contains NUL"),
            SpoutError::NulInName(NameRole::Mutex) => Some("mutex name contains NUL"),
            SpoutError::Os { .. } => None,
        }
    }

    /// The system's code for a failure that the system itself describes to the user.
    pub fn system_code(self) -> (code: Option<i32>)
        ensures
            code == match self {
                SpoutError::NotFound => Some(ERROR_FILE_NOT_FOUND),
                SpoutError::Os { code, .. } => Some(code),
                _ => None,
            },
    {
        match self {
            SpoutError::NotFound => Some(ERROR_FILE_NOT_FOUND),
            SpoutError::Os { code, .. } => Some(code),
            _ => None,
        }
    }
}

/// The system's code for a mapping that does not exist.
pub const ERROR_FILE_NOT_FOUND: i32 = 2;

/// The failure as it is reported.
pub open spec fn normalized_failure(error: SpoutError) -> SpoutError {
    match error {
        SpoutError::Os { code, .. } if code == ERROR_FILE_NOT_FOUND => SpoutError::NotFound,
        _ => error,
    }
}

/// A mapping that the system does not find is reported as missing, whatever kind the system
/// gave the failure.
pub fn normalize_not_found(error: SpoutError) -> (normalized: SpoutError)
    ensures
        normalized == normalized_failure(error),
{
    match error {
        SpoutError::Os { code, .. } if code == ERROR_FILE_NOT_FOUND => SpoutError::NotFound,
        _ => error,
    }
}

/// Names of system objects end at the first zero, so they must not hold one.
pub open spec fn checked_name(name: Seq<u8>, role: NameRole) -> Result<Seq<u8>, SpoutError> {
    if name.contains(0) {
        Err(SpoutError::NulInName(role))
    } else {
        Ok(name)
    }
}

/// The bytes of a text in plain ASCII.
pub open spec fn ascii_bytes(text: Seq<char>) -> Seq<u8> {
    text.map_values(|c: char| c as u8)
}

fn object_name(name: &[u8], suffix: &str, role: NameRole) -> (object: Result<Vec<u8>, SpoutError>)
    requires
        vstd::utf8::is_ascii_chars(suffix@),
    ensures
        match object {
            Ok(object) => checked_name(name@ + ascii_bytes(suffix@), role) == Ok::<
                Seq<u8>,
                SpoutError,
            >(object@),
            Err(error) => checked_name(name@ + ascii_bytes(suffix@), role) == Err::<
                Seq<u8>,
                SpoutError,
            >(error),
        },
{
    proof {
        vstd::utf8::is_ascii_chars_encode_utf8(suffix@);
    }
    let mut object: Vec<u8> = slice_to_vec(name);
    object.extend_from_slice(suffix.as_bytes());
    assert(object@ =~= name@ + ascii_bytes(suffix@));
    if contains_nul(object.as_slice()) {
        Err(SpoutError::NulInName(role))
    } else {
        Ok(object)
    }
}

/// The name of the mapping that `name` stands for.
pub fn map_name(name: &[u8]) -> (object: Result<Vec<u8>, SpoutError>)
    ensures
        match object {
            Ok(object) => checked_name(name@, NameRole::Mapping) == Ok::<Seq<u8>, SpoutError>(object@),
            Err(error) => checked_name(name@, NameRole::Mapping) == Err::<Seq<u8>, SpoutError>(error),
        },
{
    if contains_nul(name) {
        Err(SpoutError::NulInName(NameRole::Mapping))
    } else {
        Ok(slice_to_vec(name))
    }
}

/// The name of the mutex that guards the mapping `name`.
pub fn map_mutex_name(name: &[u8]) -> (object: Result<Vec<u8>, SpoutError>)
    ensures
        match object {
            Ok(object) => checked_name(name@ + ascii_bytes("_mutex"@), NameRole::Mutex) == Ok::<
                Seq<u8>,
                SpoutError,
            >(object@),
            Err(error) => checked_name(name@ + ascii_bytes("_mutex"@), NameRole::Mutex) == Err::<
                Seq<u8>,
                SpoutError,
            >(error),
        },
{
    proof {
        reveal_strlit("_mutex");
    }
    object_name(name, "_mutex", NameRole::Mutex)
}

/// The name of a sender: the bytes of its slot, without the padding.
#[derive(PartialEq, Eq)]
pub struct SenderName {
    bytes: Vec<u8>,
}

impl View for SenderName {
    type V = Seq<u8>;

    closed spec fn view(&self) -> Seq<u8> {
        self.bytes@
    }
}

impl Clone for SenderName {
    fn clone(&self) -> (copy: Self)
        ensures
            copy@ == self@,
    {
        SenderName { bytes: slice_to_vec(self.bytes.as_slice()) }
    }
}

impl SenderName {
    /// Reads the name out of its slot. An empty slot holds none.
    pub fn from_slot(slot: &[u8]) -> (name: Option<Self>)
        ensures
            name is Some <==> crate::bytes::until_nul(slot@).len() > 0,
            name matches Some(name) ==> name@ == crate::bytes::until_nul(slot@),
    {
        let end: usize = nul_position(slot);
        assert(slot@.subrange(0, end as int).len() == end);
        if end > 0 {
            Some(SenderName { bytes: slice_to_vec(slice_subrange(slot, 0, end)) })
        } else {
            None
        }
    }

    pub fn as_bytes(&self) -> (bytes: &[u8])
        ensures
            bytes@ == self@,
    {
        self.bytes.as_slice()
    }

    /// Whether both names are the same.
    pub fn same_as(&self, other: &SenderName) -> (same: bool)
        ensures
            same == (self@ == other@),
    {
        crate::text::same_bytes(self.bytes.as_slice(), other.bytes.as_slice())
    }

    /// The name as text, for people to read.
    pub fn display_name(&self) -> (text: String)
        ensures
            text@ == crate::text::lossy_text(self@),
            vstd::utf8::valid_utf8(self@) ==> text@ == vstd::utf8::decode_utf8(self@),
    {
        text_from_bytes(self.bytes.as_slice())
    }

    /// The name as it stands in diagnostic output.
    pub fn debug_text(&self) -> (text: String)
        ensures
            text@ == "SenderName("@ + crate::text::quoted_text(crate::text::lossy_text(self@))
                + ")"@,
    {
        let mut text = "SenderName(".to_owned();
        text.append(quoted(self.display_name().as_str()).as_str());
        text.append(")");
        text
    }

    /// The name of an object that belongs to the sender.
    fn with_suffix(&self, suffix: &str, role: NameRole) -> (object: Result<Vec<u8>, SpoutError>)
        requires
            vstd::utf8::is_ascii_chars(suffix@),
        ensures
            match object {
                Ok(object) => checked_name(self@ + ascii_bytes(suffix@), role) == Ok::<
                    Seq<u8>,
                    SpoutError,
                >(object@),
                Err(error) => checked_name(self@ + ascii_bytes(suffix@), role) == Err::<
                    Seq<u8>,
                    SpoutError,
                >(error),
            },
    {
        object_name(self.bytes.as_slice(), suffix, role)
    }

    /// The name of the semaphore that counts the sender's frames.
    pub fn counter_name(&self) -> (object: Result<Vec<u8>, SpoutError>)
        ensures
            match object {
                Ok(object) => checked_name(
                    self@ + ascii_bytes("_Count_Semaphore"@),
                    NameRole::Sender,
                ) == Ok::<Seq<u8>, SpoutError>(object@),
                Err(error) => checked_name(
                    self@ + ascii_bytes("_Count_Semaphore"@),
                    NameRole::Sender,
                ) == Err::<Seq<u8>, SpoutError>(error),
            },
    {
        proof {
            reveal_strlit("_Count_Semaphore");
        }
        self.with_suffix("_Count_Semaphore", NameRole::Sender)
    }

    /// The name of the mutex that guards the sender's texture.
    pub fn texture_mutex_name(&self) -> (object: Result<Vec<u8>, SpoutError>)
        ensures
            match object {
                Ok(object) => checked_name(
                    self@ + ascii_bytes("_SpoutAccessMutex"@),
                    NameRole::Mutex,
                ) == Ok::<Seq<u8>, SpoutError>(object@),
                Err(error) => checked_name(
                    self@ + ascii_bytes("_SpoutAccessMutex"@),
                    NameRole::Mutex,
                ) == Err::<Seq<u8>, SpoutError>(error),
            },
    {
        proof {
            reveal_strlit("_SpoutAccessMutex");
        }
        self.with_suffix("_SpoutAccessMutex", NameRole::Mutex)
    }
}

/// How the look at a sender's frame counter went.
#[derive(Debug, Clone, Copy, PartialEq, Eq, Structural)]
pub enum CounterProbe {
    /// The counter could not be had.
    Unavailable,
    /// The counter was had and could not be given back.
    NotReleased,
    /// The counter stands at this number.
    Count(i32),
}

/// Tells new frames of a sender from repeated ones.
#[derive(Debug, Clone, Copy, PartialEq, Eq, Structural)]
pub struct FrameCounter {
    pub last_count: i32,
}

impl FrameCounter {
    /// The look at the counter tells of a new frame.
    pub open spec fn finds_new(self, probe: CounterProbe) -> bool {
        match probe {
            CounterProbe::Count(count) => new_count(self.last_count, count),
            _ => true,
        }
    }

    /// The counter once it was looked at.
    pub open spec fn probed(self, probe: CounterProbe) -> FrameCounter {
        match probe {
            CounterProbe::Count(count) => FrameCounter {
                last_count: count_after(self.last_count, count),
            },
            _ => self,
        }
    }

    /// No frame has been seen.
    pub fn new() -> (counter: Self)
        ensures
            counter.last_count == 0,
    {
        FrameCounter { last_count: 0 }
    }

    /// Whether the sender has a new frame. A counter that cannot be read must not freeze the
    /// receiver, so it counts as a new frame.
    pub fn is_new_frame(&mut self, probe: CounterProbe) -> (new: bool)
        ensures
            new == old(self).finds_new(probe),
            *final(self) == old(self).probed(probe),
    {
        match probe {
            CounterProbe::Count(count) => frame_count_is_new(&mut self.last_count, count),
            _ => true,
        }
    }
}

/// A count of zero comes from a sender that does not count, so it is always new.
pub open spec fn new_count(last: i32, current: i32) -> bool {
    current == 0 || current != last
}

/// The count that is remembered after `current` was seen.
pub open spec fn count_after(last: i32, current: i32) -> i32 {
    if current == 0 {
        last
    } else {
        current
    }
}

pub fn frame_count_is_new(last_count: &mut i32, current_count: i32) -> (new: bool)
    ensures
        new == new_count(*old(last_count), current_count),
        *final(last_count) == count_after(*old(last_count), current_count),
{
    if current_count == 0 {
        return true;
    }
    if current_count == *last_count {
        return false;
    }
    *last_count = current_count;
    true
}

pub const WAIT_OBJECT_0: u32 = 0;

pub const WAIT_ABANDONED: u32 = 0x80;

pub const WAIT_TIMEOUT: u32 = 0x102;

/// How waiting for a lock ended.
#[derive(Debug, Clone, Copy, PartialEq, Eq, Structural)]
pub enum WaitOutcome {
    Acquired,
    TimedOut,
    Failed,
}

/// What the result of a wait for a mutex means.
pub open spec fn waited_for(code: u32) -> WaitOutcome {
    if code == WAIT_OBJECT_0 || code == WAIT_ABANDONED {
        WaitOutcome::Acquired
    } else if code == WAIT_TIMEOUT {
        WaitOutcome::TimedOut
    } else {
        WaitOutcome::Failed
    }
}

/// Reads the result of a wait for a mutex. One whose owner went away is acquired all the same.
pub fn mutex_wait_outcome(code: u32) -> (outcome: WaitOutcome)
    ensures
        outcome == waited_for(code),
{
    if code == WAIT_OBJECT_0 || code == WAIT_ABANDONED {
        WaitOutcome::Acquired
    } else if code == WAIT_TIMEOUT {
        WaitOutcome::TimedOut
    } else {
        WaitOutcome::Failed
    }
}

/// Whether a wait for a semaphore took it.
pub fn semaphore_was_taken(code: u32) -> (taken: bool)
    ensures
        taken == (code == WAIT_OBJECT_0),
{
    code == WAIT_OBJECT_0
}

/// The smaller of two lengths.
pub open spec fn shorter(one: usize, other: usize) -> usize {
    if one <= other {
        one
    } else {
        other
    }
}

/// How much of a mapping is read.
pub fn read_len(requested: usize, available: usize) -> (len: usize)
    ensures
        len == shorter(requested, available),
{
    if requested <= available {
        requested
    } else {
        available
    }
}

/// What a sender says about its shared texture.
#[derive(Debug, PartialEq, Eq)]
pub struct SenderInfo {
    pub share_handle: u32,
    pub width: u32,
    pub height: u32,
    pub format: u32,
    pub usage: u32,
    pub description: String,
    pub partner_id: u32,
}

impl Clone for SenderInfo {
    fn clone(&self) -> (copy: Self)
        ensures
            copy == *self,
    {
        SenderInfo {
            share_handle: self.share_handle,
            width: self.width,
            height: self.height,
            format: self.format,
            usage: self.usage,
            description: self.description.clone(),
            partner_id: self.partner_id,
        }
    }
}

/// The number at `offset` of a description.
pub open spec fn field_at(bytes: Seq<u8>, offset: int) -> int {
    crate::bytes::from_le32(bytes.subrange(offset, offset + 4))
}

/// The text that a description carries, as bytes.
pub open spec fn description_bytes(bytes: Seq<u8>) -> Seq<u8> {
    crate::bytes::until_nul(bytes.subrange(20, 276))
}

impl SenderInfo {
    /// The numbers of a description, in the order in which they stand.
    pub open spec fn holds_fields_of(self, bytes: Seq<u8>) -> bool {
        &&& self.share_handle == field_at(bytes, 0)
        &&& self.width == field_at(bytes, 4)
        &&& self.height == field_at(bytes, 8)
        &&& self.format == field_at(bytes, 12)
        &&& self.usage == field_at(bytes, 16)
        &&& self.partner_id == field_at(bytes, 276)
    }

    /// Reads a description. It takes 280 bytes; what stands behind them is not looked at.
    pub fn parse(bytes: &[u8]) -> (info: Result<Self, SpoutError>)
        ensures
            info is Ok <==> bytes@.len() >= SHARED_TEXTURE_INFO_SIZE,
            match info {
                Ok(info) => {
                    &&& info.holds_fields_of(bytes@)
                    &&& info.description@ == crate::text::lossy_text(description_bytes(bytes@))
                    &&& vstd::utf8::valid_utf8(description_bytes(bytes@)) ==> info.description@
                        == vstd::utf8::decode_utf8(description_bytes(bytes@))
                },
                Err(error) => error == SpoutError::Truncated,
            },
    {
        if bytes.len() < SHARED_TEXTURE_INFO_SIZE {
            return Err(SpoutError::Truncated);
        }
        let description = slice_subrange(bytes, 20, 276);
        let end: usize = nul_position(description);
        Ok(
            SenderInfo {
                share_handle: read_le32(bytes, 0),
                width: read_le32(bytes, 4),
                height: read_le32(bytes, 8),
                format: read_le32(bytes, 12),
                usage: read_le32(bytes, 16),
                description: text_from_bytes(slice_subrange(description, 0, end)),
                partner_id: read_le32(bytes, 276),
            },
        )
    }

    /// There is a texture that can be opened.
    pub open spec fn usable(self) -> bool {
        &&& self.share_handle != 0
        &&& self.share_handle != u32::MAX
        &&& self.width > 0
        &&& self.height > 0
    }

    pub fn is_usable(&self) -> (usable: bool)
        ensures
            usable == self.usable(),
    {
        self.share_handle != 0 && self.share_handle != u32::MAX && self.width > 0 && self.height
            > 0
    }

    /// The handle with its sign carried on, as a 64-bit process needs it.
    pub open spec fn signed_handle(self) -> int {
        if self.share_handle < 0x8000_0000 {
            self.share_handle as int
        } else {
            self.share_handle - 0x1_0000_0000
        }
    }

    pub fn raw_handle(&self) -> (handle: isize)
        ensures
            handle == self.signed_handle(),
    {
        if self.share_handle < 0x8000_0000 {
            self.share_handle as isize
        } else {
            (self.share_handle as i64 - 0x1_0000_0000) as isize
        }
    }
}

/// The texture is another one than before. The description is for people and does not count.
pub open spec fn another_resource(previous: SenderInfo, current: SenderInfo) -> bool {
    ||| previous.share_handle != current.share_handle
    ||| previous.width != current.width
    ||| previous.height != current.height
    ||| previous.format != current.format
    ||| previous.usage != current.usage
    ||| previous.partner_id != current.partner_id
}

pub fn resource_changed(previous: &SenderInfo, current: &SenderInfo) -> (changed: bool)
    ensures
        changed == another_resource(*previous, *current),
{
    previous.share_handle != current.share_handle || previous.width != current.width
        || previous.height != current.height || previous.format != current.format
        || previous.usage != current.usage || previous.partner_id != current.partner_id
}

/// Reads the description out of what was read of a sender's mapping.
pub fn read_sender_info(mapped: Result<Vec<u8>, SpoutError>) -> (info: Result<
    SenderInfo,
    SpoutError,
>)
    ensures
        match mapped {
            Err(error) => info == Err::<SenderInfo, SpoutError>(error),
            Ok(bytes) => {
                &&& info is Ok <==> bytes@.len() >= SHARED_TEXTURE_INFO_SIZE
                &&& match info {
                    Ok(info) => {
                        &&& info.holds_fields_of(bytes@)
                        &&& info.description@ == crate::text::lossy_text(
                            description_bytes(bytes@),
                        )
                        &&& vstd::utf8::valid_utf8(description_bytes(bytes@))
                            ==> info.description@ == vstd::utf8::decode_utf8(
                            description_bytes(bytes@),
                        )
                    },
                    Err(error) => error == SpoutError::Truncated,
                }
            },
        },
{
    match mapped {
        Err(error) => Err(error),
        Ok(bytes) => SenderInfo::parse(bytes.as_slice()),
    }
}

/// How a sender lays out its description: five numbers, 256 bytes of text, one more number.
pub open spec fn info_layout(
    share_handle: u32,
    width: u32,
    height: u32,
    format: u32,
    usage: u32,
    description: Seq<u8>,
    partner_id: u32,
) -> Seq<u8> {
    crate::bytes::le32(share_handle as int) + crate::bytes::le32(width as int)
        + crate::bytes::le32(height as int) + crate::bytes::le32(format as int)
        + crate::bytes::le32(usage as int) + description + crate::bytes::le32(partner_id as int)
}

/// A description says to the receiver what the sender wrote, and the text ends at its first
/// zero.
pub proof fn description_round_trips(
    share_handle: u32,
    width: u32,
    height: u32,
    format: u32,
    usage: u32,
    description: Seq<u8>,
    partner_id: u32,
)
    requires
        description.len() == 256,
    ensures
        ({
            let bytes = info_layout(
                share_handle,
                width,
                height,
                format,
                usage,
                description,
                partner_id,
            );
            &&& bytes.len() == SHARED_TEXTURE_INFO_SIZE
            &&& field_at(bytes, 0) == share_handle
            &&& field_at(bytes, 4) == width
            &&& field_at(bytes, 8) == height
            &&& field_at(bytes, 12) == format
            &&& field_at(bytes, 16) == usage
            &&& field_at(bytes, 276) == partner_id
            &&& description_bytes(bytes) == crate::bytes::until_nul(description)
        }),
{
    let bytes = info_layout(share_handle, width, height, format, usage, description, partner_id);
    assert(bytes.subrange(0, 4) =~= crate::bytes::le32(share_handle as int));
    assert(bytes.subrange(4, 8) =~= crate::bytes::le32(width as int));
    assert(bytes.subrange(8, 12) =~= crate::bytes::le32(height as int));
    assert(bytes.subrange(12, 16) =~= crate::bytes::le32(format as int));
    assert(bytes.subrange(16, 20) =~= crate::bytes::le32(usage as int));
    assert(bytes.subrange(20, 276) =~= description);
    assert(bytes.subrange(276, 280) =~= crate::bytes::le32(partner_id as int));
    crate::bytes::le32_round_trips(share_handle as int);
    crate::bytes::le32_round_trips(width as int);
    crate::bytes::le32_round_trips(height as int);
    crate::bytes::le32_round_trips(format as int);
    crate::bytes::le32_round_trips(usage as int);
    crate::bytes::le32_round_trips(partner_id as int);
}

/// A sender that does not count its frames is always live: its count never becomes old.
pub proof fn zero_counts_are_always_new(last: i32)
    ensures
        new_count(last, 0),
        count_after(last, 0) == last,
{
}

/// A frame that has been seen is not new a second time, and the next one is.
pub proof fn a_frame_is_new_once(last: i32, count: i32, next: i32)
    requires
        count != 0,
        next != count,
    ensures
        !new_count(count_after(last, count), count),
        new_count(count_after(last, count), next),
{
}

/// The names that the receiver makes up for a sender are never refused: a name that was read
/// out of a slot holds no zero.
pub proof fn slot_names_make_object_names(slot: Seq<u8>, suffix: Seq<char>, role: NameRole)
    requires
        forall|i: int| 0 <= i < suffix.len() ==> '\0' < #[trigger] suffix[i] <= '\x7f',
    ensures
        checked_name(crate::bytes::until_nul(slot) + ascii_bytes(suffix), role) is Ok,
{
    slot_names_hold_no_nul(slot);
    let name = crate::bytes::until_nul(slot) + ascii_bytes(suffix);
    assert forall|i: int| 0 <= i < name.len() implies name[i] != 0 by {
        let len = crate::bytes::until_nul(slot).len();
        if i >= len {
            assert('\0' < suffix[i - len] <= '\x7f');
            assert(name[i] == suffix[i - len] as u8);
        }
    }
}

proof fn slot_names_hold_no_nul(slot: Seq<u8>)
    ensures
        forall|i: int|
            0 <= i < crate::bytes::until_nul(slot).len() ==> #[trigger] crate::bytes::until_nul(
                slot,
            )[i] != 0,
    decreases slot.len(),
{
    if slot.len() > 0 && slot[0] != 0 {
        let rest = crate::bytes::until_nul(slot.drop_first());
        slot_names_hold_no_nul(slot.drop_first());
        assert forall|i: int| 0 <= i < crate::bytes::until_nul(slot).len() implies
            #[trigger] crate::bytes::until_nul(slot)[i] != 0 by {
            if i > 0 {
                assert(crate::bytes::until_nul(slot)[i] == rest[i - 1]);
            }
        }
    }
}

/// A texture can be opened exactly when it has a handle, other than all ones, and an extent in both
/// directions.
pub proof fn usable_textures_have_a_handle_and_an_extent(info: SenderInfo)
    ensures
        info.usable() <==> 0 < info.share_handle < 0xFFFF_FFFF && info.width >= 1 && info.height
            >= 1,
{
}

/// The signed handle agrees with the handle in its 32 bits, fits them with a sign, and is zero only
/// where the handle is.
pub proof fn signed_handle_keeps_its_bits(info: SenderInfo)
    ensures
        info.signed_handle() % 0x1_0000_0000 == info.share_handle,
        -0x8000_0000 <= info.signed_handle() < 0x8000_0000,
        info.signed_handle() == 0 <==> info.share_handle == 0,
{
}

/// Two textures are the same exactly when all their numbers agree, whatever their texts say.
pub proof fn textures_differ_by_their_numbers(one: SenderInfo, other: SenderInfo, text: String)
    ensures
        !another_resource(one, SenderInfo { description: text, ..one }),
        !another_resource(one, other) <==> other == (SenderInfo {
            description: other.description,
            ..one
        }),
        another_resource(one, other) == another_resource(other, one),
{
}

/// Missing and busy mappings are told apart from every other failure, and the system's failures
/// keep the kind that the system gave them.
pub proof fn failures_have_their_kinds(error: SpoutError, code: i32, kind: ErrorKind)
    ensures
        (SpoutError::Os { code, kind }).kind_of() == kind,
        !(error is Os) ==> (error.kind_of() == ErrorKind::NotFound <==> error is NotFound),
        !(error is Os) ==> (error.kind_of() == ErrorKind::WouldBlock <==> error is Busy),
        error is Truncated ==> error.kind_of() == ErrorKind::UnexpectedEof,
        error is NulInName ==> error.kind_of() == ErrorKind::InvalidInput,
{
}

/// Whatever kind the system gave it, a mapping that it does not find is missing; every other
/// failure is reported as it is.
pub proof fn missing_mappings_are_reported_missing(error: SpoutError, kind: ErrorKind, code: i32)
    ensures
        normalized_failure(SpoutError::Os { code: 2, kind }).kind_of() == ErrorKind::NotFound,
        code != 2 ==> normalized_failure(SpoutError::Os { code, kind }) == (SpoutError::Os {
            code,
            kind,
        }),
        !(error is Os) ==> normalized_failure(error) == error,
        normalized_failure(normalized_failure(error)) == normalized_failure(error),
{
}

/// A mutex was acquired when the wait says so or its owner went away, and a wait that ran out is
/// told apart from one that failed.
pub proof fn waits_mean_what_their_codes_say(code: u32)
    ensures
        waited_for(code) == WaitOutcome::Acquired <==> code == 0 || code == 0x80,
        waited_for(code) == WaitOutcome::TimedOut <==> code == 0x102,
{
}

/// No more is read than was asked for and than there is, and not less than one of the two.
pub proof fn no_more_is_read_than_there_is(requested: usize, available: usize)
    ensures
        shorter(requested, available) <= requested,
        shorter(requested, available) <= available,
        shorter(requested, available) == requested || shorter(requested, available) == available,
{
}

/// A description that is read back holds exactly the numbers that the sender wrote, each in its own
/// place.
pub proof fn numbers_are_read_in_their_places(
    info: SenderInfo,
    description: Seq<u8>,
    other: SenderInfo,
)
    requires
        description.len() == 256,
    ensures
        ({
            let bytes = info_layout(
                info.share_handle,
                info.width,
                info.height,
                info.format,
                info.usage,
                description,
                info.partner_id,
            );
            other.holds_fields_of(bytes) <==> other.share_handle == info.share_handle && other.width
                == info.width && other.height == info.height && other.format == info.format
                && other.usage == info.usage && other.partner_id == info.partner_id
        }),
{
    description_round_trips(
        info.share_handle,
        info.width,
        info.height,
        info.format,
        info.usage,
        description,
        info.partner_id,
    );
}

/// A name is accepted as it is exactly when no byte of it is zero, and otherwise refused for what
/// it was to be used for.
pub proof fn only_names_without_zeros_are_accepted(name: Seq<u8>, role: NameRole)
    ensures
        checked_name(name, role) is Ok <==> forall|i: int| 0 <= i < name.len() ==> name[i] != 0,
        checked_name(name, role) matches Ok(accepted) ==> accepted == name,
        checked_name(name, role) matches Err(error) ==> error == SpoutError::NulInName(role),
{
    if name.contains(0) {
        let i = choose|i: int| 0 <= i < name.len() && name[i] == 0;
        assert(name[i] == 0);
    }
}

/// A count is new exactly when it is not the one that was seen last or tells nothing, and what was
/// seen last is then the count.
pub proof fn new_counts_are_remembered(last: i32, count: i32)
    ensures
        !new_count(last, count) <==> count != 0 && count == last,
        count != 0 ==> count_after(last, count) == count,
{
}

/// A counter that cannot be read always tells of a new frame and forgets nothing; a count that was
/// seen is not new until another one was.
pub proof fn unreadable_counters_do_not_freeze(
    counter: FrameCounter,
    probe: CounterProbe,
    count: i32,
    next: i32,
)
    ensures
        !(probe is Count) ==> counter.finds_new(probe) && counter.probed(probe) == counter,
        counter.finds_new(CounterProbe::Count(0)),
        count != 0 ==> !counter.probed(CounterProbe::Count(count)).finds_new(
            CounterProbe::Count(count),
        ),
        count != 0 && next != count ==> counter.probed(CounterProbe::Count(count)).finds_new(
            CounterProbe::Count(next),
        ),
        counter.finds_new(CounterProbe::Count(count)) <==> count == 0 || count
            != counter.last_count,
{
}

} // verus!
