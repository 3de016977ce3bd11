//! The layout of a string in guest memory: the payload is UTF-16 in
//! little-endian byte order, and the four bytes before it hold the payload's
//! length in bytes as a little-endian unsigned number.
use crate::utf16::{utf16_text, utf16_units};
use vstd::prelude::*;

verus! {

/// Bytes that the length header takes in front of a payload.
pub const HEADER_BYTES: u64 = 4;

/// The little-endian bytes of code units, two for each.
pub open spec fn units_bytes(units: Seq<u16>) -> Seq<u8> {
    Seq::new(
        2 * units.len(),
        |i: int|
            if i % 2 == 0 {
                (units[i / 2] % 256) as u8
            } else {
                (units[i / 2] / 256) as u8
            },
    )
}

/// The code units that little-endian bytes hold. A last odd byte is left out.
pub open spec fn bytes_units(bytes: Seq<u8>) -> Seq<u16> {
    Seq::new((bytes.len() / 2) as nat, |i: int| (bytes[2 * i] + 256 * bytes[2 * i + 1]) as u16)
}

/// The number that four little-endian bytes hold.
pub open spec fn le_u32(bytes: Seq<u8>) -> int
    recommends
        bytes.len() == 4,
{
    bytes[0] + 256 * bytes[1] + 65536 * bytes[2] + 16777216 * bytes[3]
}

/// The four little-endian bytes of a number below 2^32.
pub open spec fn u32_bytes(n: int) -> Seq<u8>
    recommends
        0 <= n < 0x1_0000_0000,
{
    seq![
        (n % 256) as u8,
        (n / 256 % 256) as u8,
        (n / 65536 % 256) as u8,
        (n / 16777216 % 256) as u8,
    ]
}

/// The address that a guest pointer stands for: its 32 bits read as unsigned.
pub open spec fn address(ptr: i32) -> int {
    if ptr >= 0 {
        ptr as int
    } else {
        ptr + 0x1_0000_0000
    }
}

/// The payload length in bytes that the header in front of `at` gives.
pub open spec fn header_len(mem: Seq<u8>, at: int) -> int
    recommends
        4 <= at <= mem.len(),
{
    le_u32(mem.subrange(at - 4, at))
}

/// Header and payload of the string at `at` lie inside the memory.
pub open spec fn string_fits(mem: Seq<u8>, at: int) -> bool {
    &&& 4 <= at <= mem.len()
    &&& at + header_len(mem, at) <= mem.len()
}

/// The text of the string at `at`.
pub open spec fn string_at(mem: Seq<u8>, at: int) -> Seq<char>
    recommends
        string_fits(mem, at),
{
    utf16_text(bytes_units(mem.subrange(at, at + header_len(mem, at))))
}

/// The memory with `data` in place of what stood from `at` on.
pub open spec fn stored(mem: Seq<u8>, at: int, data: Seq<u8>) -> Seq<u8>
    recommends
        0 <= at,
        at + data.len() <= mem.len(),
{
    mem.subrange(0, at) + data + mem.subrange(at + data.len(), mem.len() as int)
}

/// The payload bytes of a text.
pub open spec fn payload(text: Seq<char>) -> Seq<u8> {
    units_bytes(utf16_units(text))
}

pub fn units_to_bytes(units: &Vec<u16>) -> (bytes: Vec<u8>)
    ensures
        bytes@ == units_bytes(units@),
{
    let mut bytes: Vec<u8> = Vec::new();
    let mut i: usize = 0;
    while i < units.len()
        invariant
            i <= units.len(),
            bytes@.len() == 2 * i,
            forall|k: int| 0 <= k < bytes@.len() ==> bytes@[k] == units_bytes(units@)[k],
        decreases units.len() - i,
    {
        let unit: u16 = units[i];
        bytes.push((unit % 256) as u8);
        bytes.push((unit / 256) as u8);
        i = i + 1;
    }
    assert(bytes@ =~= units_bytes(units@));
    bytes
}

pub fn bytes_to_units(bytes: &Vec<u8>) -> (units: Vec<u16>)
    ensures
        units@ == bytes_units(bytes@),
{
    let mut units: Vec<u16> = Vec::new();
    let count: usize = bytes.len() / 2;
    let mut i: usize = 0;
    while i < count
        invariant
            i <= count,
            count == bytes@.len() / 2,
            2 * count <= bytes.len(),
            units@.len() == i,
            forall|k: int| 0 <= k < i ==> units@[k] == bytes_units(bytes@)[k],
        decreases count - i,
    {
        let low: u16 = bytes[2 * i] as u16;
        let high: u16 = bytes[2 * i + 1] as u16;
        units.push(low + 256 * high);
        i = i + 1;
    }
    assert(units@ =~= bytes_units(bytes@));
    units
}

/// The number in the first four bytes.
pub fn read_le_u32(bytes: &Vec<u8>) -> (n: u32)
    requires
        bytes@.len() >= 4,
    ensures
        n == le_u32(bytes@),
{
    let b0: u32 = bytes[0] as u32;
    let b1: u32 = bytes[1] as u32;
    let b2: u32 = bytes[2] as u32;
    let b3: u32 = bytes[3] as u32;
    b0 + 256 * b1 + 65536 * b2 + 16777216 * b3
}

/// Code units come back unchanged from their own bytes.
pub proof fn lemma_units_bytes_round_trip(units: Seq<u16>)
    ensures
        units_bytes(units).len() == 2 * units.len(),
        bytes_units(units_bytes(units)) == units,
{
    assert(bytes_units(units_bytes(units)) =~= units);
}

/// A number below 2^32 comes back unchanged from its own four bytes.
pub proof fn lemma_u32_bytes_round_trip(n: int)
    requires
        0 <= n < 0x1_0000_0000,
    ensures
        u32_bytes(n).len() == 4,
        le_u32(u32_bytes(n)) == n,
{
}

/// A string as a well-behaved guest lays it out: the header with the
/// payload's length in bytes, then the payload.
pub open spec fn guest_string(text: Seq<char>) -> Seq<u8> {
    u32_bytes(payload(text).len() as int) + payload(text)
}

/// Writing a payload leaves the header in front of it as it was.
pub proof fn lemma_stored_keeps_header(mem: Seq<u8>, at: int, data: Seq<u8>)
    requires
        4 <= at,
        at + data.len() <= mem.len(),
    ensures
        stored(mem, at, data).len() == mem.len(),
        header_len(stored(mem, at, data), at) == header_len(mem, at),
{
    assert(stored(mem, at, data).subrange(at - 4, at) =~= mem.subrange(at - 4, at));
}

/// Round trip: once a text's payload is written at a pointer whose header
/// gives the payload's length, the string at that pointer is the text.
pub proof fn lemma_round_trip(mem: Seq<u8>, ptr: i32, text: Seq<char>)
    requires
        4 <= address(ptr),
        address(ptr) + payload(text).len() <= mem.len(),
        header_len(mem, address(ptr)) == payload(text).len(),
    ensures
        string_fits(stored(mem, address(ptr), payload(text)), address(ptr)),
        string_at(stored(mem, address(ptr), payload(text)), address(ptr)) == text,
{
    let at = address(ptr);
    let data = payload(text);
    let after = stored(mem, at, data);
    lemma_stored_keeps_header(mem, at, data);
    assert(after.subrange(at, at + data.len()) =~= data);
    lemma_units_bytes_round_trip(utf16_units(text));
    crate::utf16::lemma_utf16_round_trip(text);
}

/// Header invariant: where a memory holds a text as a guest lays it out,
/// with the payload at `at`, the four bytes before `at` give twice the
/// number of the text's code units, and the string at `at` is the text.
pub proof fn lemma_guest_string_reads_back(mem: Seq<u8>, at: int, text: Seq<char>)
    requires
        4 <= at,
        at + payload(text).len() <= mem.len(),
        payload(text).len() < 0x1_0000_0000,
        mem.subrange(at - 4, at + payload(text).len()) == guest_string(text),
    ensures
        header_len(mem, at) == 2 * utf16_units(text).len(),
        string_fits(mem, at),
        string_at(mem, at) == text,
{
    let data = payload(text);
    let whole = mem.subrange(at - 4, at + data.len());
    lemma_u32_bytes_round_trip(data.len() as int);
    assert(mem.subrange(at - 4, at) =~= whole.subrange(0, 4));
    assert(whole.subrange(0, 4) =~= u32_bytes(data.len() as int));
    assert(mem.subrange(at, at + data.len()) =~= whole.subrange(4, 4 + data.len() as int));
    assert(whole.subrange(4, 4 + data.len() as int) =~= data);
    lemma_units_bytes_round_trip(utf16_units(text));
    crate::utf16::lemma_utf16_round_trip(text);
}

} // verus!
