//! The mount-point reparse record: how a target path is laid out in bytes,
//! and how a record read from disk is checked and read back.
//!
//! A record is little-endian throughout. Its first eight bytes are the
//! general header (tag, length of what follows, a reserved word), the next
//! eight give offset and length of the substitute name and of the print name,
//! both counted in bytes from the start of the path area, which begins at
//! byte sixteen. Each name is followed by a zero code unit.

use vstd::prelude::*;
use crate::error::JunctionError;
use crate::path::{external_form, to_external};

verus! {

/// The tag that marks a reparse record as a mount point.
pub const MOUNT_POINT_TAG: u32 = 0xA000_0003;

/// The largest reparse record the host accepts, in bytes.
pub const MAX_RECORD_SIZE: usize = 16384;

/// The general header: tag, data length, reserved word.
pub const HEADER_SIZE: usize = 8;

/// Where the path area starts: after the general header and the four words
/// that place the two names.
pub const PATH_AREA: usize = 16;

/// The value of two bytes read as a little-endian word.
pub open spec fn le16(lo: u8, hi: u8) -> int {
    lo + 256 * hi
}

/// The low byte of a word.
pub open spec fn low(x: int) -> u8 {
    (x % 256) as u8
}

/// The high byte of a word.
pub open spec fn high(x: int) -> u8 {
    (x / 256) as u8
}

/// A word as two bytes, low byte first.
pub open spec fn word(x: int) -> Seq<u8> {
    seq![low(x), high(x)]
}

/// A sequence of code units as bytes, each unit low byte first.
pub open spec fn wide_bytes(units: Seq<u16>) -> Seq<u8> {
    Seq::new(
        2 * units.len(),
        |i: int|
            if i % 2 == 0 {
                low(units[i / 2] as int)
            } else {
                high(units[i / 2] as int)
            },
    )
}

/// The mount-point tag as it stands in a record.
pub open spec fn tag_bytes() -> Seq<u8> {
    seq![0x03u8, 0x00u8, 0x00u8, 0xA0u8]
}

/// The size in bytes of the record that holds `target` as its substitute
/// name and the external form of `target` as its print name.
pub open spec fn record_size(target: Seq<u16>) -> int {
    20 + 2 * (target.len() as int) + 2 * (external_form(target).len() as int)
}

/// Whether the record for `target` stays within the host's limit.
pub open spec fn fits(target: Seq<u16>) -> bool {
    record_size(target) <= MAX_RECORD_SIZE
}

/// The sixteen bytes that precede the path area in the record for `target`.
pub open spec fn record_head(target: Seq<u16>) -> Seq<u8> {
    let sub_len: int = 2 * (target.len() as int);
    let print_len: int = 2 * (external_form(target).len() as int);
    tag_bytes() + word(sub_len + print_len + 12) + word(0) + word(0) + word(sub_len) + word(
        sub_len + 2,
    ) + word(print_len)
}

/// The path area of the record for `target`: the substitute name, a zero
/// unit, the print name, a zero unit.
pub open spec fn record_paths(target: Seq<u16>) -> Seq<u8> {
    wide_bytes(target) + word(0) + wide_bytes(external_form(target)) + word(0)
}

/// The record for `target`, byte for byte.
pub open spec fn record(target: Seq<u16>) -> Seq<u8> {
    record_head(target) + record_paths(target)
}

/// What laying out `target` gives: its record where that fits, else the
/// refusal.
pub open spec fn encoded(target: Seq<u16>) -> Result<Seq<u8>, JunctionError> {
    if fits(target) {
        Ok(record(target))
    } else {
        Err(JunctionError::BufferTooLarge)
    }
}

/// The record that asks the host to clear a mount point: the tag, no data.
pub open spec fn removal_record() -> Seq<u8> {
    tag_bytes() + word(0) + word(0)
}

/// Whether a record starts with the mount-point tag.
pub open spec fn has_mount_tag(bytes: Seq<u8>) -> bool {
    bytes.len() >= 4 && bytes.subrange(0, 4) == tag_bytes()
}

/// The word that a record holds at byte `at`.
pub open spec fn field(bytes: Seq<u8>, at: int) -> int {
    le16(bytes[at], bytes[at + 1])
}

/// Whether the lengths that a record declares agree with each other and with
/// the bytes that are there: the data ends inside the record, both names lie
/// inside the path area, and the substitute name is made of whole code units.
pub open spec fn consistent(bytes: Seq<u8>) -> bool {
    &&& bytes.len() >= PATH_AREA
    &&& field(bytes, 4) >= 8
    &&& HEADER_SIZE + field(bytes, 4) <= bytes.len()
    &&& field(bytes, 8) % 2 == 0
    &&& field(bytes, 10) % 2 == 0
    &&& field(bytes, 8) + field(bytes, 10) <= field(bytes, 4) - 8
    &&& field(bytes, 12) + field(bytes, 14) <= field(bytes, 4) - 8
}

/// The code units that a record holds from byte `start` on, `count` of them.
pub open spec fn wide_at(bytes: Seq<u8>, start: int, count: int) -> Seq<u16> {
    Seq::new(
        count as nat,
        |i: int| le16(bytes[start + 2 * i], bytes[start + 2 * i + 1]) as u16,
    )
}

/// The substitute name of a consistent record.
pub open spec fn substitute_name(bytes: Seq<u8>) -> Seq<u16> {
    wide_at(bytes, PATH_AREA + field(bytes, 8), field(bytes, 10) / 2)
}

/// What reading a record gives: its substitute name, or the reason why it
/// has none. The tag is judged first.
pub open spec fn decoded(bytes: Seq<u8>) -> Result<Seq<u16>, JunctionError> {
    if !has_mount_tag(bytes) {
        Err(JunctionError::NotAJunction)
    } else if !consistent(bytes) {
        Err(JunctionError::CorruptData)
    } else {
        Ok(substitute_name(bytes))
    }
}

fn push_word(out: &mut Vec<u8>, x: u16)
    ensures
        final(out)@ == old(out)@ + word(x as int),
{
    out.push((x % 256) as u8);
    out.push((x / 256) as u8);
    assert(out@ =~= old(out)@ + word(x as int));
}

fn push_wide(out: &mut Vec<u8>, units: &Vec<u16>)
    ensures
        final(out)@ == old(out)@ + wide_bytes(units@),
{
    let mut i: usize = 0;
    while i < units.len()
        invariant
            i <= units.len(),
            out@ == old(out)@ + wide_bytes(units@.take(i as int)),
        decreases units.len() - i,
    {
        push_word(out, units[i]);
        i += 1;
        assert(out@ =~= old(out)@ + wide_bytes(units@.take(i as int)));
    }
    assert(units@.take(i as int) =~= units@);
}

fn push_tag(out: &mut Vec<u8>)
    ensures
        final(out)@ == old(out)@ + tag_bytes(),
{
    out.push(0x03u8);
    out.push(0x00u8);
    out.push(0x00u8);
    out.push(0xA0u8);
    assert(out@ =~= old(out)@ + tag_bytes());
}

fn read_word(bytes: &Vec<u8>, at: usize) -> (x: u16)
    requires
        at + 1 < bytes.len(),
    ensures
        x == field(bytes@, at as int),
{
    let lo: u16 = bytes[at] as u16;
    let hi: u16 = bytes[at + 1] as u16;
    lo + 256 * hi
}

/// Lays out the record for `target`, which is taken as the substitute name as
/// it stands; the print name is its external form. A target whose record
/// would pass the host's limit is refused, never cut short.
pub fn encode(target: &Vec<u16>) -> (result: Result<Vec<u8>, JunctionError>)
    ensures
        match encoded(target@) {
            Ok(layout) => result matches Ok(bytes) && bytes@ == layout,
            Err(reason) => result matches Err(e) && e == reason,
        },
{
    if target.len() > MAX_RECORD_SIZE {
        return Err(JunctionError::BufferTooLarge);
    }
    let print = to_external(target);
    let sub_len: usize = 2 * target.len();
    let print_len: usize = 2 * print.len();
    if 20 + sub_len + print_len > MAX_RECORD_SIZE {
        return Err(JunctionError::BufferTooLarge);
    }
    let mut out: Vec<u8> = Vec::new();
    push_tag(&mut out);
    push_word(&mut out, (sub_len + print_len + 12) as u16);
    push_word(&mut out, 0);
    push_word(&mut out, 0);
    push_word(&mut out, sub_len as u16);
    push_word(&mut out, (sub_len + 2) as u16);
    push_word(&mut out, print_len as u16);
    assert(out@ =~= record_head(target@));
    push_wide(&mut out, target);
    push_word(&mut out, 0);
    push_wide(&mut out, &print);
    push_word(&mut out, 0);
    assert(out@ =~= record(target@));
    Ok(out)
}

/// The record that asks the host to clear a mount point.
pub fn removal_request() -> (bytes: Vec<u8>)
    ensures
        bytes@ == removal_record(),
{
    let mut out: Vec<u8> = Vec::new();
    push_tag(&mut out);
    push_word(&mut out, 0);
    push_word(&mut out, 0);
    assert(out@ =~= removal_record());
    out
}

/// Tells whether a record starts with the mount-point tag.
pub fn is_mount_point(bytes: &Vec<u8>) -> (found: bool)
    ensures
        found == has_mount_tag(bytes@),
{
    if bytes.len() < 4 {
        return false;
    }
    let found = bytes[0] == 0x03u8 && bytes[1] == 0x00u8 && bytes[2] == 0x00u8 && bytes[3]
        == 0xA0u8;
    proof {
        let head = bytes@.subrange(0, 4);
        if found {
            assert(head =~= tag_bytes());
        } else {
            assert(head[0] == bytes@[0] && head[1] == bytes@[1] && head[2] == bytes@[2]
                && head[3] == bytes@[3]);
        }
    }
    found
}

/// Checks a record read from disk and reads its substitute name. A record
/// with another tag is no junction; one with the right tag whose lengths do
/// not agree is corrupt.
pub fn decode(bytes: &Vec<u8>) -> (result: Result<Vec<u16>, JunctionError>)
    ensures
        match decoded(bytes@) {
            Ok(name) => result matches Ok(units) && units@ == name,
            Err(reason) => result matches Err(e) && e == reason,
        },
{
    if !is_mount_point(bytes) {
        return Err(JunctionError::NotAJunction);
    }
    if bytes.len() < PATH_AREA {
        return Err(JunctionError::CorruptData);
    }
    let data_len: usize = read_word(bytes, 4) as usize;
    let sub_at: usize = read_word(bytes, 8) as usize;
    let sub_len: usize = read_word(bytes, 10) as usize;
    let print_at: usize = read_word(bytes, 12) as usize;
    let print_len: usize = read_word(bytes, 14) as usize;
    if data_len < 8 || HEADER_SIZE + data_len > bytes.len() {
        return Err(JunctionError::CorruptData);
    }
    if sub_at % 2 != 0 || sub_len % 2 != 0 {
        return Err(JunctionError::CorruptData);
    }
    if sub_at + sub_len > data_len - 8 || print_at + print_len > data_len - 8 {
        return Err(JunctionError::CorruptData);
    }
    let start: usize = PATH_AREA + sub_at;
    let count: usize = sub_len / 2;
    let mut units: Vec<u16> = Vec::new();
    let mut i: usize = 0;
    while i < count
        invariant
            i <= count,
            start + 2 * count <= bytes.len(),
            units@ == wide_at(bytes@, start as int, i as int),
        decreases count - i,
    {
        let unit: u16 = read_word(bytes, start + 2 * i);
        units.push(unit);
        i += 1;
        assert(units@ =~= wide_at(bytes@, start as int, i as int));
    }
    Ok(units)
}

/// A record that was laid out for a target reads back as that target.
pub proof fn lemma_decode_of_encode(target: Seq<u16>)
    requires
        fits(target),
    ensures
        record(target).len() == record_size(target),
        has_mount_tag(record(target)),
        consistent(record(target)),
        decoded(record(target)) == Ok::<Seq<u16>, JunctionError>(target),
{
    let bytes = record(target);
    let head = record_head(target);
    let paths = record_paths(target);
    assert(head.len() == 16);
    assert(bytes.subrange(0, 4) =~= tag_bytes());
    assert forall|i: int| 0 <= i < 16 implies bytes[i] == head[i] by {}
    let name = substitute_name(bytes);
    assert forall|i: int| 0 <= i < target.len() implies name[i] == target[i] by {
        assert(bytes[16 + 2 * i] == paths[2 * i]);
        assert(bytes[16 + 2 * i + 1] == paths[2 * i + 1]);
    }
    assert(name =~= target);
}

} // verus!
