//! Decoding of the raw event blocks that one read from the device returns.
//!
//! A block is six input records of 24 bytes each, laid out as the kernel's
//! input subsystem writes them on a 64-bit host: two 8-byte timestamp fields,
//! a 2-byte type, a 2-byte code and a 4-byte signed value, without padding.
//! A button shows up as a scan-code announcement in the first record followed
//! by a key-state change in the second.

use vstd::prelude::*;

verus! {

/// Size in bytes of one input record.
pub const SLOT_SIZE: usize = 24;

/// Number of input records in a block.
pub const SLOT_COUNT: usize = 6;

/// Size in bytes of a block: what one read must return to be decoded.
pub const BLOCK_SIZE: usize = 144;

/// Record type of a key-state change.
pub const EV_KEY: u16 = 1;

/// Record type of a miscellaneous record, which scan-code announcements are.
pub const EV_MSC: u16 = 4;

/// Record code of a scan-code announcement.
pub const MSC_SCAN: u16 = 4;

/// Flag bits that the device sets above the scan code proper. The value is
/// empirical: it is what this hardware was observed to send.
pub const VENDOR_BITS: i32 = 0x70000;

/// The order in which the bytes of a field are stored.
#[derive(Debug, Clone, Copy, PartialEq, Eq)]
pub enum ByteOrder {
    /// Least significant byte first.
    LittleEndian,
    /// Most significant byte first.
    BigEndian,
}

/// Timestamp of an input record.
#[allow(non_camel_case_types)]
#[derive(Debug, Clone, Copy, PartialEq, Eq)]
pub struct timeval {
    pub tv_sec: i64,
    pub tv_usec: i64,
}

/// One input record.
#[derive(Debug, Clone, Copy, PartialEq, Eq)]
pub struct InputEvent {
    pub time: timeval,
    pub kind: u16,
    pub code: u16,
    pub value: i32,
}

/// The records of one block, in the order in which they were read.
#[derive(Debug, Clone, Copy, PartialEq, Eq)]
pub struct InputEvents {
    pub slots: [InputEvent; 6],
}

/// A button going down or up.
#[derive(Debug, Clone, Copy, PartialEq, Eq)]
pub struct LogicalInputEvent {
    pub scancode: i32,
    pub pressed: bool,
}

/// The unsigned number spelled by the `width` bytes of `bytes` from `at` on.
pub open spec fn unsigned(bytes: Seq<u8>, at: int, width: nat, order: ByteOrder) -> int
    decreases width,
{
    if width == 0 {
        0
    } else {
        match order {
            ByteOrder::LittleEndian => bytes[at] + 0x100 * unsigned(
                bytes,
                at + 1,
                (width - 1) as nat,
                order,
            ),
            ByteOrder::BigEndian => 0x100 * unsigned(bytes, at, (width - 1) as nat, order)
                + bytes[at + width - 1],
        }
    }
}

/// The two's-complement reading of a 32-bit pattern.
pub open spec fn signed32(pattern: int) -> int {
    if pattern < 0x8000_0000 {
        pattern
    } else {
        pattern - 0x1_0000_0000
    }
}

/// The two's-complement reading of a 64-bit pattern.
pub open spec fn signed64(pattern: int) -> int {
    if pattern < 0x8000_0000_0000_0000 {
        pattern
    } else {
        pattern - 0x1_0000_0000_0000_0000
    }
}

/// The record stored in the 24 bytes of `bytes` from `at` on.
pub open spec fn slot_at(bytes: Seq<u8>, at: int, order: ByteOrder) -> InputEvent {
    InputEvent {
        time: timeval {
            tv_sec: signed64(unsigned(bytes, at, 8, order)) as i64,
            tv_usec: signed64(unsigned(bytes, at + 8, 8, order)) as i64,
        },
        kind: unsigned(bytes, at + 16, 2, order) as u16,
        code: unsigned(bytes, at + 18, 2, order) as u16,
        value: signed32(unsigned(bytes, at + 20, 4, order)) as i32,
    }
}

/// A scan code as announced, without the vendor's flag bits.
pub open spec fn strip_vendor_bits(value: i32) -> i32 {
    value & !VENDOR_BITS
}

/// The button event that a block with these first two records stands for:
/// one exists exactly when the first announces a scan code and the second is
/// a key-state change. The button is down unless the key value is zero.
pub open spec fn logical_event(first: InputEvent, second: InputEvent) -> Option<
    LogicalInputEvent,
> {
    if first.kind == EV_MSC && first.code == MSC_SCAN && second.kind == EV_KEY {
        Some(
            LogicalInputEvent {
                scancode: strip_vendor_bits(first.value),
                pressed: second.value != 0,
            },
        )
    } else {
        None
    }
}

/// The button event that the bytes of one read stand for. A read of any
/// other size than a whole block stands for none.
pub open spec fn event_of_bytes(bytes: Seq<u8>, order: ByteOrder) -> Option<LogicalInputEvent> {
    if bytes.len() == BLOCK_SIZE {
        logical_event(slot_at(bytes, 0, order), slot_at(bytes, SLOT_SIZE as int, order))
    } else {
        None
    }
}

impl InputEvents {
    /// The button event that this block stands for.
    pub open spec fn spec_event(self) -> Option<LogicalInputEvent> {
        logical_event(self.slots[0], self.slots[1])
    }

    /// Extracts the button event of this block, if it holds one. Records
    /// three to six are batching artifacts and are not looked at.
    pub fn event(&self) -> (r: Option<LogicalInputEvent>)
        ensures
            r == self.spec_event(),
    {
        let first = &self.slots[0];
        let second = &self.slots[1];
        if first.kind == EV_MSC && first.code == MSC_SCAN && second.kind == EV_KEY {
            Some(
                LogicalInputEvent { scancode: first.value & !VENDOR_BITS, pressed: second.value != 0 },
            )
        } else {
            None
        }
    }
}

/// The byte of significance `place` (0 is the least) of a field.
fn byte_at(bytes: &[u8], at: usize, width: usize, place: usize, order: ByteOrder) -> (b: u64)
    requires
        place < width,
        at + width <= bytes.len(),
    ensures
        b == match order {
            ByteOrder::LittleEndian => bytes@[at + place],
            ByteOrder::BigEndian => bytes@[at + width - 1 - place],
        },
{
    match order {
        ByteOrder::LittleEndian => bytes[at + place] as u64,
        ByteOrder::BigEndian => bytes[at + width - 1 - place] as u64,
    }
}

fn read_u16(bytes: &[u8], at: usize, order: ByteOrder) -> (v: u16)
    requires
        at + 2 <= bytes.len(),
    ensures
        v == unsigned(bytes@, at as int, 2, order),
{
    proof {
        reveal_with_fuel(unsigned, 3);
    }
    let b0 = byte_at(bytes, at, 2, 0, order);
    let b1 = byte_at(bytes, at, 2, 1, order);
    (b0 + 0x100 * b1) as u16
}

fn read_u32(bytes: &[u8], at: usize, order: ByteOrder) -> (v: u32)
    requires
        at + 4 <= bytes.len(),
    ensures
        v == unsigned(bytes@, at as int, 4, order),
{
    proof {
        reveal_with_fuel(unsigned, 5);
    }
    let b0 = byte_at(bytes, at, 4, 0, order);
    let b1 = byte_at(bytes, at, 4, 1, order);
    let b2 = byte_at(bytes, at, 4, 2, order);
    let b3 = byte_at(bytes, at, 4, 3, order);
    (b0 + 0x100 * b1 + 0x1_0000 * b2 + 0x100_0000 * b3) as u32
}

fn read_u64(bytes: &[u8], at: usize, order: ByteOrder) -> (v: u64)
    requires
        at + 8 <= bytes.len(),
    ensures
        v == unsigned(bytes@, at as int, 8, order),
{
    proof {
        reveal_with_fuel(unsigned, 9);
    }
    let b0 = byte_at(bytes, at, 8, 0, order);
    let b1 = byte_at(bytes, at, 8, 1, order);
    let b2 = byte_at(bytes, at, 8, 2, order);
    let b3 = byte_at(bytes, at, 8, 3, order);
    let b4 = byte_at(bytes, at, 8, 4, order);
    let b5 = byte_at(bytes, at, 8, 5, order);
    let b6 = byte_at(bytes, at, 8, 6, order);
    let b7 = byte_at(bytes, at, 8, 7, order);
    b0 + 0x100 * b1 + 0x1_0000 * b2 + 0x100_0000 * b3 + 0x1_0000_0000 * b4 + 0x100_0000_0000 * b5
        + 0x1_0000_0000_0000 * b6 + 0x100_0000_0000_0000 * b7
}

fn read_i32(bytes: &[u8], at: usize, order: ByteOrder) -> (v: i32)
    requires
        at + 4 <= bytes.len(),
    ensures
        v == signed32(unsigned(bytes@, at as int, 4, order)),
{
    let pattern = read_u32(bytes, at, order);
    if pattern < 0x8000_0000 {
        pattern as i32
    } else {
        (pattern - 0x8000_0000) as i32 + i32::MIN
    }
}

fn read_i64(bytes: &[u8], at: usize, order: ByteOrder) -> (v: i64)
    requires
        at + 8 <= bytes.len(),
    ensures
        v == signed64(unsigned(bytes@, at as int, 8, order)),
{
    let pattern = read_u64(bytes, at, order);
    if pattern < 0x8000_0000_0000_0000 {
        pattern as i64
    } else {
        (pattern - 0x8000_0000_0000_0000) as i64 + i64::MIN
    }
}

/// Decodes the record stored in the 24 bytes of `bytes` from `at` on.
fn decode_slot(bytes: &[u8], at: usize, order: ByteOrder) -> (slot: InputEvent)
    requires
        at + SLOT_SIZE <= bytes.len(),
    ensures
        slot == slot_at(bytes@, at as int, order),
{
    InputEvent {
        time: timeval { tv_sec: read_i64(bytes, at, order), tv_usec: read_i64(bytes, at + 8, order) },
        kind: read_u16(bytes, at + 16, order),
        code: read_u16(bytes, at + 18, order),
        value: read_i32(bytes, at + 20, order),
    }
}

/// Decodes the bytes of one read into its six records. A read that did not
/// return exactly one block is not interpreted.
pub fn decode_block(bytes: &[u8], order: ByteOrder) -> (r: Option<InputEvents>)
    ensures
        r is Some <==> bytes@.len() == BLOCK_SIZE,
        r matches Some(block) ==> forall|i: int|
            0 <= i < SLOT_COUNT ==> block.slots[i] == #[trigger] slot_at(
                bytes@,
                i * SLOT_SIZE,
                order,
            ),
{
    if bytes.len() != BLOCK_SIZE {
        return None;
    }
    let block = InputEvents {
        slots: [
            decode_slot(bytes, 0, order),
            decode_slot(bytes, SLOT_SIZE, order),
            decode_slot(bytes, 2 * SLOT_SIZE, order),
            decode_slot(bytes, 3 * SLOT_SIZE, order),
            decode_slot(bytes, 4 * SLOT_SIZE, order),
            decode_slot(bytes, 5 * SLOT_SIZE, order),
        ],
    };
    Some(block)
}

/// Decodes the bytes of one read into the button event they stand for, if
/// any. A short or empty read, and a block of any other shape than a
/// scan-code announcement followed by a key-state change, give `None`.
pub fn decode_event(bytes: &[u8], order: ByteOrder) -> (r: Option<LogicalInputEvent>)
    ensures
        r == event_of_bytes(bytes@, order),
{
    match decode_block(bytes, order) {
        Some(block) => {
            assert(block.slots[0] == slot_at(bytes@, 0 * SLOT_SIZE, order));
            assert(block.slots[1] == slot_at(bytes@, 1 * SLOT_SIZE, order));
            block.event()
        },
        None => None,
    }
}

/// A block that opens with a scan-code announcement followed by a key-state
/// change stands for a button event: its scan code is the announced value
/// with the bits `0x70000` cleared, and the button is down exactly when the
/// key value is not zero.
pub proof fn lemma_announced_button(first: InputEvent, second: InputEvent)
    requires
        first.kind == 4,
        first.code == 4,
        second.kind == 1,
    ensures
        logical_event(first, second) == Some(
            LogicalInputEvent { scancode: first.value & !0x70000i32, pressed: second.value != 0 },
        ),
{
}

/// A block that does not open with a scan-code announcement stands for no
/// button event, whatever else it holds.
pub proof fn lemma_unannounced_block(first: InputEvent, second: InputEvent)
    requires
        !(first.kind == 4 && first.code == 4),
    ensures
        logical_event(first, second) is None,
{
}

/// Records three to six play no part: two blocks whose first two records
/// agree stand for the same button event.
pub proof fn lemma_later_records_ignored(a: InputEvents, b: InputEvents)
    requires
        a.slots[0] == b.slots[0],
        a.slots[1] == b.slots[1],
    ensures
        a.spec_event() == b.spec_event(),
{
}

/// The same, on the bytes of a read: two blocks that agree on the bytes of
/// their first two records decode to the same button event.
pub proof fn lemma_later_bytes_ignored(a: Seq<u8>, b: Seq<u8>, order: ByteOrder)
    requires
        a.len() == BLOCK_SIZE,
        b.len() == BLOCK_SIZE,
        forall|i: int| 0 <= i < 2 * SLOT_SIZE ==> a[i] == b[i],
    ensures
        event_of_bytes(a, order) == event_of_bytes(b, order),
{
    reveal_with_fuel(unsigned, 9);
}

/// A read that did not return a whole block, because it came back short or
/// failed and so returned nothing, stands for no button event.
pub proof fn lemma_short_read_is_no_event(bytes: Seq<u8>, order: ByteOrder)
    requires
        bytes.len() != BLOCK_SIZE,
    ensures
        event_of_bytes(bytes, order) is None,
{
}

} // verus!
