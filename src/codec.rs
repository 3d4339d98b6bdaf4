//! Wire format of one channel record: a field id byte, the payload length in
//! UTF-16 code units as a little-endian `u32`, the payload as UTF-16LE, and a
//! zero terminator byte.
use vstd::prelude::*;

verus! {

/// Bytes taken by a record besides its payload: id, length, terminator.
pub const RECORD_OVERHEAD: usize = 6;

/// What can go wrong while building or reading a record.
#[derive(Clone, Copy, Debug, PartialEq, Eq, Structural)]
pub enum CodecError {
    /// The record would not fit the space it is meant for.
    RecordTooLarge,
    /// The bytes do not hold a consistent record: the declared length runs
    /// past the slot, or the terminator is missing.
    ProtocolViolation,
}

/// One decoded record.
#[derive(Clone, Debug)]
pub struct Message {
    pub field_id: u8,
    pub payload: Vec<u16>,
}

/// The four bytes of `n`, least significant first.
pub open spec fn le_u32_bytes(n: u32) -> Seq<u8> {
    seq![
        (n & 0xffu32) as u8,
        ((n >> 8u32) & 0xffu32) as u8,
        ((n >> 16u32) & 0xffu32) as u8,
        ((n >> 24u32) & 0xffu32) as u8,
    ]
}

/// The `u32` whose little-endian bytes are `b0..b3`.
pub open spec fn le_u32(b0: u8, b1: u8, b2: u8, b3: u8) -> u32 {
    (b0 as u32) | ((b1 as u32) << 8u32) | ((b2 as u32) << 16u32) | ((b3 as u32) << 24u32)
}

/// The `u16` whose little-endian bytes are `lo` and `hi`.
pub open spec fn le_u16(lo: u8, hi: u8) -> u16 {
    (lo as u16) | ((hi as u16) << 8u16)
}

/// Byte `k` of the little-endian encoding of the code units `u`.
pub open spec fn unit_byte(u: Seq<u16>, k: int) -> u8 {
    if k % 2 == 0 {
        (u[k / 2] & 0xffu16) as u8
    } else {
        (u[k / 2] >> 8u16) as u8
    }
}

/// The code units `u` as UTF-16LE bytes.
pub open spec fn units_le_bytes(u: Seq<u16>) -> Seq<u8> {
    Seq::new(2 * u.len(), |k: int| unit_byte(u, k))
}

/// Whether a record with `n` code units of payload fits in `capacity` bytes.
pub open spec fn record_fits(n: int, capacity: int) -> bool {
    n <= u32::MAX && 2 * n + RECORD_OVERHEAD <= capacity
}

/// The record that carries `payload` under `field_id`.
pub open spec fn record_bytes(field_id: u8, payload: Seq<u16>) -> Seq<u8> {
    seq![field_id] + le_u32_bytes(payload.len() as u32) + units_le_bytes(payload) + seq![0u8]
}

/// The payload length that a record at the start of `slot` declares.
pub open spec fn declared_len(slot: Seq<u8>) -> int {
    le_u32(slot[1], slot[2], slot[3], slot[4]) as int
}

/// Whether the start of `slot` holds a complete record: its header, the
/// declared payload and a zero terminator all lie inside the slot.
pub open spec fn holds_record(slot: Seq<u8>) -> bool {
    &&& slot.len() >= 5
    &&& 2 * declared_len(slot) + RECORD_OVERHEAD <= slot.len()
    &&& slot[5 + 2 * declared_len(slot)] == 0
}

/// The payload of the record at the start of `slot`.
pub open spec fn record_payload(slot: Seq<u8>) -> Seq<u16> {
    Seq::new(
        declared_len(slot) as nat,
        |i: int| le_u16(slot[5 + 2 * i], slot[6 + 2 * i]),
    )
}

proof fn lemma_le_u32_round_trip(n: u32)
    ensures
        le_u32(le_u32_bytes(n)[0], le_u32_bytes(n)[1], le_u32_bytes(n)[2], le_u32_bytes(n)[3])
            == n,
{
    let b0 = (n & 0xffu32) as u8;
    let b1 = ((n >> 8u32) & 0xffu32) as u8;
    let b2 = ((n >> 16u32) & 0xffu32) as u8;
    let b3 = ((n >> 24u32) & 0xffu32) as u8;
    assert((b0 as u32) | ((b1 as u32) << 8u32) | ((b2 as u32) << 16u32) | ((b3 as u32) << 24u32)
        == n) by (bit_vector)
        requires
            b0 == (n & 0xffu32) as u8,
            b1 == ((n >> 8u32) & 0xffu32) as u8,
            b2 == ((n >> 16u32) & 0xffu32) as u8,
            b3 == ((n >> 24u32) & 0xffu32) as u8,
    ;
}

proof fn lemma_le_u16_round_trip(u: u16)
    ensures
        le_u16((u & 0xffu16) as u8, (u >> 8u16) as u8) == u,
{
    let lo = (u & 0xffu16) as u8;
    let hi = (u >> 8u16) as u8;
    assert((lo as u16) | ((hi as u16) << 8u16) == u) by (bit_vector)
        requires
            lo == (u & 0xffu16) as u8,
            hi == (u >> 8u16) as u8,
    ;
}

/// Decoding a slot that starts with the record of `field_id` and `payload`
/// gives back that field id and that payload, whatever follows the record.
pub proof fn lemma_record_round_trip(field_id: u8, payload: Seq<u16>, slot: Seq<u8>)
    requires
        payload.len() <= u32::MAX,
        record_bytes(field_id, payload).len() <= slot.len(),
        slot.subrange(0, record_bytes(field_id, payload).len() as int) == record_bytes(
            field_id,
            payload,
        ),
    ensures
        holds_record(slot),
        slot[0] == field_id,
        record_payload(slot) == payload,
{
    let rec = record_bytes(field_id, payload);
    let n = payload.len() as u32;
    assert(rec.len() == 6 + 2 * payload.len());
    assert forall|k: int| 0 <= k < rec.len() implies slot[k] == rec[k] by {
        assert(slot.subrange(0, rec.len() as int)[k] == slot[k]);
    }
    lemma_le_u32_round_trip(n);
    assert(slot[1] == le_u32_bytes(n)[0]);
    assert(slot[2] == le_u32_bytes(n)[1]);
    assert(slot[3] == le_u32_bytes(n)[2]);
    assert(slot[4] == le_u32_bytes(n)[3]);
    assert(declared_len(slot) == payload.len());
    assert(slot[5 + 2 * payload.len() as int] == rec[5 + 2 * payload.len() as int]);
    assert forall|i: int| 0 <= i < payload.len() implies #[trigger] record_payload(slot)[i]
        == payload[i] by {
        assert(slot[5 + 2 * i] == rec[5 + 2 * i]);
        assert(slot[6 + 2 * i] == rec[6 + 2 * i]);
        assert(rec[5 + 2 * i] == units_le_bytes(payload)[2 * i]);
        assert(rec[6 + 2 * i] == units_le_bytes(payload)[2 * i + 1]);
        assert((2 * i) / 2 == i);
        assert((2 * i + 1) / 2 == i);
        assert((2 * i + 1) % 2 == 1);
        lemma_le_u16_round_trip(payload[i]);
    }
    assert(record_payload(slot) =~= payload);
}

/// Builds the record of `field_id` and `payload` for a slot of `capacity`
/// bytes; fails, writing nothing, where it would not fit.
pub fn encode(field_id: u8, payload: &Vec<u16>, capacity: usize) -> (r: Result<
    Vec<u8>,
    CodecError,
>)
    ensures
        match r {
            Ok(bytes) => record_fits(payload@.len() as int, capacity as int) && bytes@
                == record_bytes(field_id, payload@),
            Err(e) => !record_fits(payload@.len() as int, capacity as int) && e
                == CodecError::RecordTooLarge,
        },
{
    let n = payload.len();
    if n > u32::MAX as usize || capacity < RECORD_OVERHEAD || n > (capacity - RECORD_OVERHEAD)
        / 2 {
        return Err(CodecError::RecordTooLarge);
    }
    let len = n as u32;
    let mut out: Vec<u8> = Vec::new();
    out.push(field_id);
    out.push((len & 0xff) as u8);
    out.push(((len >> 8) & 0xff) as u8);
    out.push(((len >> 16) & 0xff) as u8);
    out.push(((len >> 24) & 0xff) as u8);
    let ghost header = seq![field_id] + le_u32_bytes(len);
    assert(out@ =~= header);
    let mut i: usize = 0;
    while i < n
        invariant
            n == payload@.len(),
            i <= n,
            out@.len() == 5 + 2 * i,
            forall|j: int| 0 <= j < 5 ==> out@[j] == header[j],
            forall|k: int| 0 <= k < 2 * i ==> out@[5 + k] == unit_byte(payload@, k),
        decreases n - i,
    {
        let u = payload[i];
        out.push((u & 0xff) as u8);
        out.push((u >> 8) as u8);
        proof {
            assert((2 * i as int) / 2 == i as int);
            assert((2 * i as int + 1) / 2 == i as int);
            assert((2 * i as int + 1) % 2 == 1);
        }
        i = i + 1;
    }
    out.push(0u8);
    assert(out@ =~= record_bytes(field_id, payload@));
    Ok(out)
}

/// Reads the record at the start of `slot`. Every read stays inside the
/// slot: a declared length that runs past it is a protocol violation.
pub fn decode(slot: &[u8]) -> (r: Result<Message, CodecError>)
    ensures
        match r {
            Ok(m) => holds_record(slot@) && m.field_id == slot@[0] && m.payload@ == record_payload(
                slot@,
            ),
            Err(e) => !holds_record(slot@) && e == CodecError::ProtocolViolation,
        },
{
    if slot.len() < 5 {
        return Err(CodecError::ProtocolViolation);
    }
    let len: u32 = (slot[1] as u32) | ((slot[2] as u32) << 8) | ((slot[3] as u32) << 16) | ((
    slot[4] as u32) << 24);
    assert(len == declared_len(slot@));
    let n = len as u64;
    if 2 * n + 6 > slot.len() as u64 {
        return Err(CodecError::ProtocolViolation);
    }
    let n = len as usize;
    if slot[5 + 2 * n] != 0 {
        return Err(CodecError::ProtocolViolation);
    }
    let mut payload: Vec<u16> = Vec::new();
    let mut i: usize = 0;
    while i < n
        invariant
            n == declared_len(slot@),
            2 * n + 6 <= slot.len(),
            i <= n,
            payload@.len() == i,
            forall|j: int| 0 <= j < i ==> payload@[j] == record_payload(slot@)[j],
        decreases n - i,
    {
        let lo = slot[5 + 2 * i];
        let hi = slot[6 + 2 * i];
        payload.push((lo as u16) | ((hi as u16) << 8));
        i = i + 1;
    }
    assert(payload@ =~= record_payload(slot@));
    Ok(Message { field_id: slot[0], payload })
}

/// The UTF-16 code units of the character `c`: one unit below 0x10000,
/// else a high and a low surrogate.
pub open spec fn char_utf16(c: char) -> Seq<u16> {
    let v = c as u32;
    if v < 0x10000 {
        seq![v as u16]
    } else {
        let w = (v - 0x10000) as u32;
        seq![(0xD800 + w / 0x400) as u16, (0xDC00 + w % 0x400) as u16]
    }
}

/// The UTF-16 code units of the text `s`.
pub open spec fn utf16_of(s: Seq<char>) -> Seq<u16>
    decreases s.len(),
{
    if s.len() == 0 {
        Seq::empty()
    } else {
        utf16_of(s.drop_last()) + char_utf16(s.last())
    }
}

/// Relies on `str::encode_utf16`: the string encoded as UTF-16, character
/// by character.
#[verifier::external_body]
pub(crate) fn to_utf16(s: &str) -> (r: Vec<u16>)
    ensures
        r@ == utf16_of(s@),
{
    s.encode_utf16().collect()
}

/// Relies on `String::from_utf16`: it decodes valid UTF-16 into the one text
/// that encodes to it, and fails on anything else.
#[verifier::external_body]
fn from_utf16(units: &[u16]) -> (r: Option<String>)
    ensures
        r is Some ==> utf16_of(r->0@) == units@,
        forall|t: Seq<char>| #[trigger] utf16_of(t) == units@ ==> r is Some && r->0@ == t,
{
    String::from_utf16(units).ok()
}

/// Reads the record at the start of `slot` as a field id and a text; a
/// payload that is not valid UTF-16 is a protocol violation too.
pub fn decode_text(slot: &[u8]) -> (r: Result<(u8, String), CodecError>)
    ensures
        match r {
            Ok((id, text)) => holds_record(slot@) && id == slot@[0] && utf16_of(text@)
                == record_payload(slot@),
            Err(e) => e == CodecError::ProtocolViolation,
        },
        forall|t: Seq<char>|
            holds_record(slot@) && #[trigger] utf16_of(t) == record_payload(slot@) ==> r
                == Ok::<(u8, String), CodecError>((slot@[0], r->Ok_0.1)) && r->Ok_0.1@ == t,
{
    let m = decode(slot)?;
    match from_utf16(m.payload.as_slice()) {
        Some(text) => Ok((m.field_id, text)),
        None => Err(CodecError::ProtocolViolation),
    }
}

/// Builds the record of `field_id` and the UTF-16 form of `text` for a slot
/// of `capacity` bytes; fails, writing nothing, where it would not fit.
pub fn encode_text(field_id: u8, text: &str, capacity: usize) -> (r: Result<Vec<u8>, CodecError>)
    ensures
        match r {
            Ok(bytes) => record_fits(utf16_of(text@).len() as int, capacity as int) && bytes@
                == record_bytes(field_id, utf16_of(text@)),
            Err(e) => !record_fits(utf16_of(text@).len() as int, capacity as int) && e
                == CodecError::RecordTooLarge,
        },
{
    let units = to_utf16(text);
    encode(field_id, &units, capacity)
}

/// A slot whose first record declares more payload than the slot holds is
/// never read as a record: `decode` and `decode_text` refuse it as a
/// protocol violation.
pub proof fn lemma_overlong_record_refused(slot: Seq<u8>)
    requires
        slot.len() >= 5,
        2 * declared_len(slot) + RECORD_OVERHEAD > slot.len(),
    ensures
        !holds_record(slot),
{
}

/// A payload of `n` code units whose record, `2 * n` payload bytes plus six
/// bytes of id, length and terminator, would overrun a slot of `capacity`
/// bytes does not fit it, so `encode` fails rather than write a cut record.
pub proof fn lemma_oversized_payload_refused(n: nat, capacity: nat)
    requires
        2 * n + RECORD_OVERHEAD > capacity,
    ensures
        !record_fits(n as int, capacity as int),
{
}

} // verus!
