//! Frame codec: the fixed six byte header, the payload region and the
//! trailing checksum byte of every message exchanged with a module.
//!
//! | offset | field         |
//! |--------|---------------|
//! | 0      | slot          |
//! | 1      | length - 1    |
//! | 2      | direction     |
//! | 3      | module id     |
//! | 4      | message type  |
//! | 5      | message index |
//! | 6..    | payload       |
//! | L - 1  | checksum      |

use vstd::prelude::*;

verus! {

/// Number of header bytes in front of the payload.
pub const HEADER_LENGTH: usize = 6;

/// Shortest frame: a header and the checksum byte, no payload.
pub const MIN_FRAME_LENGTH: usize = 7;

/// Longest frame whose length field still fits in one byte.
pub const MAX_FRAME_LENGTH: usize = 256;

/// Who a frame is addressed to.
#[derive(Clone, Copy, PartialEq, Eq, Structural, Debug)]
pub enum ModuleCommunicationDirection {
    ToModule,
    FromModule,
}

impl ModuleCommunicationDirection {
    /// The byte that stands for this direction on the wire.
    pub open spec fn wire(self) -> u8 {
        match self {
            ModuleCommunicationDirection::ToModule => 1,
            ModuleCommunicationDirection::FromModule => 2,
        }
    }

    /// The byte that stands for this direction on the wire.
    pub fn code(self) -> (code: u8)
        ensures
            code == self.wire(),
    {
        match self {
            ModuleCommunicationDirection::ToModule => 1,
            ModuleCommunicationDirection::FromModule => 2,
        }
    }
}

/// Which sub-protocol a module applies to the payload.
#[derive(Clone, Copy, PartialEq, Eq, Structural, Debug)]
pub enum ModuleCommunicationType {
    ModuleId,
    Configuration,
    Data,
    Feedback,
}

impl ModuleCommunicationType {
    /// The byte that stands for this message type on the wire.
    pub open spec fn wire(self) -> u8 {
        match self {
            ModuleCommunicationType::ModuleId => 1,
            ModuleCommunicationType::Configuration => 2,
            ModuleCommunicationType::Data => 3,
            ModuleCommunicationType::Feedback => 4,
        }
    }

    /// The byte that stands for this message type on the wire.
    pub fn code(self) -> (code: u8)
        ensures
            code == self.wire(),
    {
        match self {
            ModuleCommunicationType::ModuleId => 1,
            ModuleCommunicationType::Configuration => 2,
            ModuleCommunicationType::Data => 3,
            ModuleCommunicationType::Feedback => 4,
        }
    }
}

/// A buffer of `len` zero bytes: what every request starts from.
pub open spec fn blank(len: nat) -> Seq<u8> {
    Seq::new(len, |i: int| 0u8)
}

/// Wrapping byte sum of the first `n` bytes of `bytes`.
pub open spec fn wrapping_sum(bytes: Seq<u8>, n: int) -> u8
    decreases n,
{
    if n <= 0 {
        0u8
    } else {
        ((wrapping_sum(bytes, n - 1) as int + bytes[n - 1] as int) % 256) as u8
    }
}

/// Checksum of a frame of `len` bytes: the wrapping sum of every byte in
/// front of the checksum position `len - 1`.
pub open spec fn checksum_of(bytes: Seq<u8>, len: int) -> u8 {
    wrapping_sum(bytes, len - 1)
}

/// `bytes` with the six header fields of a frame of `len` bytes filled in.
pub open spec fn with_header(
    bytes: Seq<u8>,
    slot: u8,
    len: int,
    direction: ModuleCommunicationDirection,
    module_id: u8,
    message_type: ModuleCommunicationType,
    message_index: u8,
) -> Seq<u8> {
    bytes.update(0, slot).update(1, (len - 1) as u8).update(2, direction.wire()).update(
        3,
        module_id,
    ).update(4, message_type.wire()).update(5, message_index)
}

/// `bytes` with the checksum of its first `len - 1` bytes stored at `len - 1`.
pub open spec fn sealed(bytes: Seq<u8>, len: int) -> Seq<u8> {
    bytes.update(len - 1, checksum_of(bytes, len))
}

/// The complete frame of `len` bytes that carries the payload found in
/// `bytes`: header filled in, checksum stored.
pub open spec fn framed(
    bytes: Seq<u8>,
    slot: u8,
    len: int,
    direction: ModuleCommunicationDirection,
    module_id: u8,
    message_type: ModuleCommunicationType,
    message_index: u8,
) -> Seq<u8> {
    sealed(with_header(bytes, slot, len, direction, module_id, message_type, message_index), len)
}

/// The frame of `len` bytes in `bytes` carries its own checksum and declares
/// its own length.
pub open spec fn frame_intact(bytes: Seq<u8>, len: int) -> bool {
    &&& bytes[len - 1] == checksum_of(bytes, len)
    &&& bytes[1] as int == len - 1
}

/// The frame of `len` bytes in `bytes` is an acceptable response: intact and
/// addressed away from the module.
pub open spec fn response_valid(bytes: Seq<u8>, len: int) -> bool {
    &&& frame_intact(bytes, len)
    &&& bytes[2] == ModuleCommunicationDirection::FromModule.wire()
}

/// The header of `bytes` names the given direction, module id, message type
/// and message index.
pub open spec fn header_matches(
    bytes: Seq<u8>,
    direction: ModuleCommunicationDirection,
    module_id: u8,
    message_type: ModuleCommunicationType,
    message_index: u8,
) -> bool {
    &&& bytes[2] == direction.wire()
    &&& bytes[3] == module_id
    &&& bytes[4] == message_type.wire()
    &&& bytes[5] == message_index
}

/// Computes the checksum of the frame held in `data[0..len]`. The byte at
/// `len - 1` is reserved for the checksum itself and is not summed.
pub fn module_checksum(data: &[u8], len: usize) -> (checksum: u8)
    requires
        1 <= len <= data@.len(),
    ensures
        checksum == checksum_of(data@, len as int),
{
    let mut checksum: u8 = 0;
    let mut i: usize = 0;
    while i < len - 1
        invariant
            1 <= len <= data@.len(),
            i <= len - 1,
            checksum == wrapping_sum(data@, i as int),
        decreases len - 1 - i,
    {
        checksum = checksum.wrapping_add(data[i]);
        i += 1;
    }
    checksum
}

/// Fills in the header of the frame of `length` bytes held in `buffer` and
/// stores its checksum in the last byte of the frame. Bytes behind the frame
/// and the payload are left as they are.
pub fn write_header(
    buffer: &mut [u8],
    slot: u8,
    length: usize,
    direction: ModuleCommunicationDirection,
    module_id: u8,
    message_type: ModuleCommunicationType,
    message_index: u8,
)
    requires
        MIN_FRAME_LENGTH <= length <= MAX_FRAME_LENGTH,
        length <= old(buffer)@.len(),
    ensures
        final(buffer)@ == framed(
            old(buffer)@,
            slot,
            length as int,
            direction,
            module_id,
            message_type,
            message_index,
        ),
{
    buffer[0] = slot;
    buffer[1] = (length - 1) as u8;
    buffer[2] = direction.code();
    buffer[3] = module_id;
    buffer[4] = message_type.code();
    buffer[5] = message_index;
    let checksum = module_checksum(buffer, length);
    buffer[length - 1] = checksum;
}

/// Tells whether the frame of `length` bytes in `buffer` carries its own
/// checksum and declares its own length.
pub fn check_frame(buffer: &[u8], length: usize) -> (intact: bool)
    requires
        MIN_FRAME_LENGTH <= length <= MAX_FRAME_LENGTH,
        length <= buffer@.len(),
    ensures
        intact == frame_intact(buffer@, length as int),
{
    module_checksum(buffer, length) == buffer[length - 1] && buffer[1] as usize == length - 1
}

/// Tells whether the frame of `length` bytes in `buffer` is an acceptable
/// response: its checksum is right, its length byte is `length - 1` and its
/// direction byte says that it comes from the module.
pub fn validate_response(buffer: &[u8], length: usize) -> (valid: bool)
    requires
        MIN_FRAME_LENGTH <= length <= MAX_FRAME_LENGTH,
        length <= buffer@.len(),
    ensures
        valid == response_valid(buffer@, length as int),
{
    check_frame(buffer, length) && buffer[2] == ModuleCommunicationDirection::FromModule.code()
}

/// Tells whether the header of `buffer` names the given direction, module id,
/// message type and message index.
pub fn check_header(
    buffer: &[u8],
    direction: ModuleCommunicationDirection,
    module_id: u8,
    message_type: ModuleCommunicationType,
    message_index: u8,
) -> (matches: bool)
    requires
        HEADER_LENGTH <= buffer@.len(),
    ensures
        matches == header_matches(buffer@, direction, module_id, message_type, message_index),
{
    buffer[2] == direction.code() && buffer[3] == module_id && buffer[4] == message_type.code()
        && buffer[5] == message_index
}

/// Two sequences that agree on their first `n` bytes have the same wrapping
/// sum over them.
pub proof fn lemma_wrapping_sum_agrees(a: Seq<u8>, b: Seq<u8>, n: int)
    requires
        forall|k: int| 0 <= k < n ==> a[k] == b[k],
    ensures
        wrapping_sum(a, n) == wrapping_sum(b, n),
    decreases n,
{
    if n > 0 {
        lemma_wrapping_sum_agrees(a, b, n - 1);
    }
}

/// Adding `y - x` to a sum that already holds `x`, byte-wise.
proof fn lemma_swap_term(a: int, x: int, y: int)
    requires
        0 <= a < 256,
        0 <= x < 256,
        0 <= y < 256,
    ensures
        ((a + x) % 256 + y - x) % 256 == (a + y) % 256,
{
}

/// Adding a byte after a shift of the running sum, byte-wise.
proof fn lemma_shift_term(a: int, d: int, x: int)
    requires
        0 <= a < 256,
        -256 < d < 256,
        0 <= x < 256,
    ensures
        ((a + d) % 256 + x) % 256 == ((a + x) % 256 + d) % 256,
{
}

/// Replacing one of the first `n` bytes moves the wrapping sum by the
/// difference between the new byte and the old one.
pub proof fn lemma_wrapping_sum_update(s: Seq<u8>, i: int, v: u8, n: int)
    requires
        0 <= i < n <= s.len(),
    ensures
        wrapping_sum(s.update(i, v), n) as int == (wrapping_sum(s, n) as int + v as int
            - s[i] as int) % 256,
    decreases n,
{
    let t = s.update(i, v);
    let before = wrapping_sum(s, n - 1) as int;
    assert(wrapping_sum(s, n) as int == (before + s[n - 1] as int) % 256);
    assert(wrapping_sum(t, n) as int == (wrapping_sum(t, n - 1) as int + t[n - 1] as int) % 256);
    if i == n - 1 {
        lemma_wrapping_sum_agrees(s, t, n - 1);
        lemma_swap_term(before, s[i] as int, v as int);
    } else {
        lemma_wrapping_sum_update(s, i, v, n - 1);
        lemma_shift_term(before, v as int - s[i] as int, s[n - 1] as int);
    }
}

/// Writing a header tagged as coming from the module and then validating the
/// very same bytes succeeds, whatever the payload, slot, module id, message
/// type and message index are.
pub proof fn lemma_written_frame_validates(
    bytes: Seq<u8>,
    slot: u8,
    len: int,
    module_id: u8,
    message_type: ModuleCommunicationType,
    message_index: u8,
)
    requires
        MIN_FRAME_LENGTH <= len <= MAX_FRAME_LENGTH,
        len <= bytes.len(),
    ensures
        response_valid(
            framed(
                bytes,
                slot,
                len,
                ModuleCommunicationDirection::FromModule,
                module_id,
                message_type,
                message_index,
            ),
            len,
        ),
{
    let direction = ModuleCommunicationDirection::FromModule;
    let h = with_header(bytes, slot, len, direction, module_id, message_type, message_index);
    lemma_wrapping_sum_agrees(h, sealed(h, len), len - 1);
}

/// A written frame is intact for every direction, and its header names what
/// was written.
pub proof fn lemma_written_frame_intact(
    bytes: Seq<u8>,
    slot: u8,
    len: int,
    direction: ModuleCommunicationDirection,
    module_id: u8,
    message_type: ModuleCommunicationType,
    message_index: u8,
)
    requires
        MIN_FRAME_LENGTH <= len <= MAX_FRAME_LENGTH,
        len <= bytes.len(),
    ensures
        frame_intact(
            framed(bytes, slot, len, direction, module_id, message_type, message_index),
            len,
        ),
        header_matches(
            framed(bytes, slot, len, direction, module_id, message_type, message_index),
            direction,
            module_id,
            message_type,
            message_index,
        ),
        framed(bytes, slot, len, direction, module_id, message_type, message_index)[0] == slot,
{
    let h = with_header(bytes, slot, len, direction, module_id, message_type, message_index);
    lemma_wrapping_sum_agrees(h, sealed(h, len), len - 1);
}

/// Changing any single byte of an intact frame, the checksum byte included,
/// to a different value leaves a frame that is no longer intact, and so no
/// longer a valid response.
pub proof fn lemma_single_byte_change_detected(frame: Seq<u8>, len: int, i: int, v: u8)
    requires
        MIN_FRAME_LENGTH <= len <= MAX_FRAME_LENGTH,
        len <= frame.len(),
        frame_intact(frame, len),
        0 <= i < len,
        v != frame[i],
    ensures
        !frame_intact(frame.update(i, v), len),
        !response_valid(frame.update(i, v), len),
{
    let changed = frame.update(i, v);
    if i == len - 1 {
        lemma_wrapping_sum_agrees(frame, changed, len - 1);
    } else {
        lemma_wrapping_sum_update(frame, i, v, len - 1);
    }
}

} // verus!
