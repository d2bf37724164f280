//! Identifiers: event ids, device/boot ids, and deterministic process uids.
use vstd::prelude::*;
use vstd::utf8::*;
use vstd::string::*;

verus! {

// ---- lowercase hex ----

/// The lowercase hex digit for a value below 16.
pub open spec fn hex_char(n: u8) -> char {
    if n < 10 {
        (('0' as u8) + n) as char
    } else {
        (('a' as u8) + (n - 10)) as char
    }
}

/// Lowercase hex, two characters per byte, high nibble first.
pub open spec fn hex(bytes: Seq<u8>) -> Seq<char>
    decreases bytes.len(),
{
    if bytes.len() == 0 {
        seq![]
    } else {
        hex(bytes.drop_last()) + seq![hex_char(bytes.last() >> 4), hex_char(bytes.last() & 15)]
    }
}

/// The value of a lowercase hex digit character, or -1 for any other
/// character.
pub open spec fn hex_digit_value(c: char) -> int {
    if '0' <= c && c <= '9' {
        c as int - '0' as int
    } else if 'a' <= c && c <= 'f' {
        c as int - 'a' as int + 10
    } else {
        -1
    }
}

/// Hex text has two lowercase digits per byte, in byte order: the digit at
/// `2i` is the high half of byte `i` (`b[i] / 16`) and the one at `2i + 1`
/// the low half (`b[i] % 16`), so the text gives back the bytes.
pub proof fn lemma_hex_digits(b: Seq<u8>)
    ensures
        hex(b).len() == 2 * b.len(),
        forall|i: int| 0 <= i < b.len() ==> {
            &&& hex_digit_value(#[trigger] hex(b)[2 * i]) == b[i] / 16
            &&& hex_digit_value(hex(b)[2 * i + 1]) == b[i] % 16
        },
    decreases b.len(),
{
    if b.len() > 0 {
        let init = b.drop_last();
        lemma_hex_digits(init);
        let x = b.last();
        assert(x >> 4 == x / 16 && x & 15 == x % 16 && x >> 4 < 16 && x & 15 < 16) by (bit_vector);
        lemma_hex_char_value(x >> 4);
        lemma_hex_char_value(x & 15);
        assert forall|i: int| 0 <= i < b.len() implies {
            &&& hex_digit_value(#[trigger] hex(b)[2 * i]) == b[i] / 16
            &&& hex_digit_value(hex(b)[2 * i + 1]) == b[i] % 16
        } by {
            if i < init.len() {
                assert(hex(b)[2 * i] == hex(init)[2 * i]);
                assert(hex(b)[2 * i + 1] == hex(init)[2 * i + 1]);
                assert(b[i] == init[i]);
            }
        }
    }
}

/// The digit for a value below 16 is a lowercase hex digit of that value.
pub proof fn lemma_hex_char_value(n: u8)
    requires
        n < 16,
    ensures
        hex_digit_value(hex_char(n)) == n,
        ('0' <= hex_char(n) && hex_char(n) <= '9') || ('a' <= hex_char(n) && hex_char(n) <= 'f'),
{
}

fn hex_digit(n: u8) -> (r: &'static str)
    requires
        n < 16,
    ensures
        r@ == seq![hex_char(n)],
{
    proof {
        reveal_strlit("0");
        reveal_strlit("1");
        reveal_strlit("2");
        reveal_strlit("3");
        reveal_strlit("4");
        reveal_strlit("5");
        reveal_strlit("6");
        reveal_strlit("7");
        reveal_strlit("8");
        reveal_strlit("9");
        reveal_strlit("a");
        reveal_strlit("b");
        reveal_strlit("c");
        reveal_strlit("d");
        reveal_strlit("e");
        reveal_strlit("f");
    }
    match n {
        0 => "0",
        1 => "1",
        2 => "2",
        3 => "3",
        4 => "4",
        5 => "5",
        6 => "6",
        7 => "7",
        8 => "8",
        9 => "9",
        10 => "a",
        11 => "b",
        12 => "c",
        13 => "d",
        14 => "e",
        _ => "f",
    }
}

/// Appends the lowercase hex of `bytes[start..end]` to `out`.
fn push_hex(out: &mut String, bytes: &[u8], start: usize, end: usize)
    requires
        start <= end <= bytes@.len(),
    ensures
        final(out)@ == old(out)@ + hex(bytes@.subrange(start as int, end as int)),
{
    let mut i = start;
    assert(bytes@.subrange(start as int, start as int) =~= Seq::<u8>::empty());
    while i < end
        invariant
            start <= i <= end <= bytes@.len(),
            out@ == old(out)@ + hex(bytes@.subrange(start as int, i as int)),
        decreases end - i,
    {
        let b = bytes[i];
        assert(b >> 4 < 16 && b & 15 < 16) by (bit_vector);
        out.append(hex_digit(b >> 4));
        out.append(hex_digit(b & 15));
        i += 1;
        assert(bytes@.subrange(start as int, i as int).drop_last() =~= bytes@.subrange(start as int, i - 1));
    }
}

/// Lowercase hex of `bytes`.
pub fn to_hex(bytes: &[u8]) -> (r: String)
    ensures
        r@ == hex(bytes@),
{
    let mut s = String::new();
    push_hex(&mut s, bytes, 0, bytes.len());
    assert(bytes@.subrange(0, bytes@.len() as int) =~= bytes@);
    s
}

// ---- 16-byte ids ----

/// Random id generated once at agent install (`device.uid`).
#[derive(Debug, Clone, Copy, PartialEq, Eq, Hash, PartialOrd, Ord)]
pub struct DeviceUid(pub [u8; 16]);

/// Opaque per-boot id (`device.boot_id`). Derivation is the sensor's job.
#[derive(Debug, Clone, Copy, PartialEq, Eq, Hash, PartialOrd, Ord)]
pub struct BootId(pub [u8; 16]);

/// Deterministic process id (`process.uid`); see [`process_uid`].
#[derive(Debug, Clone, Copy, PartialEq, Eq, Hash, PartialOrd, Ord)]
pub struct ProcessUid(pub [u8; 16]);

/// The text `Name(hex)` that names an id of type `name`.
pub open spec fn debug_text(name: Seq<char>, bytes: Seq<u8>) -> Seq<char> {
    name + seq!['('] + hex(bytes) + seq![')']
}

fn debug_string(name: &str, bytes: &[u8]) -> (r: String)
    ensures
        r@ == debug_text(name@, bytes@),
{
    let mut s = name.to_owned();
    proof {
        reveal_strlit("(");
        reveal_strlit(")");
    }
    s.append("(");
    push_hex(&mut s, bytes, 0, bytes.len());
    assert(bytes@.subrange(0, bytes@.len() as int) =~= bytes@);
    s.append(")");
    s
}

impl DeviceUid {
    pub fn from_bytes(bytes: [u8; 16]) -> (r: Self)
        ensures
            r.0 == bytes,
    {
        DeviceUid(bytes)
    }

    pub fn as_bytes(&self) -> (r: &[u8; 16])
        ensures
            *r == self.0,
    {
        &self.0
    }

    /// Lowercase hex, 32 characters.
    pub fn to_string(&self) -> (r: String)
        ensures
            r@ == hex(self.0@),
    {
        to_hex(&self.0)
    }

    /// `DeviceUid(` then the lowercase hex, then `)`.
    pub fn to_debug_string(&self) -> (r: String)
        ensures
            r@ == debug_text("DeviceUid"@, self.0@),
    {
        debug_string("DeviceUid", &self.0)
    }
}

impl BootId {
    pub fn from_bytes(bytes: [u8; 16]) -> (r: Self)
        ensures
            r.0 == bytes,
    {
        BootId(bytes)
    }

    pub fn as_bytes(&self) -> (r: &[u8; 16])
        ensures
            *r == self.0,
    {
        &self.0
    }

    /// Lowercase hex, 32 characters.
    pub fn to_string(&self) -> (r: String)
        ensures
            r@ == hex(self.0@),
    {
        to_hex(&self.0)
    }

    /// `BootId(` then the lowercase hex, then `)`.
    pub fn to_debug_string(&self) -> (r: String)
        ensures
            r@ == debug_text("BootId"@, self.0@),
    {
        debug_string("BootId", &self.0)
    }
}

impl ProcessUid {
    pub fn from_bytes(bytes: [u8; 16]) -> (r: Self)
        ensures
            r.0 == bytes,
    {
        ProcessUid(bytes)
    }

    pub fn as_bytes(&self) -> (r: &[u8; 16])
        ensures
            *r == self.0,
    {
        &self.0
    }

    /// Lowercase hex, 32 characters.
    pub fn to_string(&self) -> (r: String)
        ensures
            r@ == hex(self.0@),
    {
        to_hex(&self.0)
    }

    /// `ProcessUid(` then the lowercase hex, then `)`.
    pub fn to_debug_string(&self) -> (r: String)
        ensures
            r@ == debug_text("ProcessUid"@, self.0@),
    {
        debug_string("ProcessUid", &self.0)
    }
}

// ---- event ids (UUIDv7) ----

/// The variant field of a UUID (the high bits of byte 8).
#[derive(Debug, Clone, Copy, PartialEq, Eq, Structural)]
pub enum UuidVariant {
    Ncs,
    Rfc4122,
    Microsoft,
    Future,
}

/// The variant that byte 8 of a UUID selects.
pub open spec fn uuid_variant_of(byte8: u8) -> UuidVariant {
    if byte8 & 0x80 == 0 {
        UuidVariant::Ncs
    } else if byte8 & 0xc0 == 0x80 {
        UuidVariant::Rfc4122
    } else if byte8 & 0xe0 == 0xc0 {
        UuidVariant::Microsoft
    } else {
        UuidVariant::Future
    }
}

/// A UUID (as its 16 bytes) of version 7 with the RFC 9562 variant.
pub open spec fn is_uuid_v7(bytes: [u8; 16]) -> bool {
    bytes[6] >> 4 == 7 && uuid_variant_of(bytes[8]) == UuidVariant::Rfc4122
}

/// `uuid::Uuid::get_version_num` on the UUID with these bytes. The uuid
/// source computes it as the high nibble of byte 6.
#[verifier::external_body]
fn uuid_version_num(bytes: [u8; 16]) -> (r: usize)
    ensures
        r == bytes[6] >> 4,
{
    uuid::Uuid::from_bytes(bytes).get_version_num()
}

/// `uuid::Uuid::get_variant` on the UUID with these bytes. The uuid source
/// reads it from the high bits of byte 8, as `uuid_variant_of` states.
#[verifier::external_body]
fn uuid_variant(bytes: [u8; 16]) -> (r: UuidVariant)
    ensures
        r == uuid_variant_of(bytes[8]),
{
    match uuid::Uuid::from_bytes(bytes).get_variant() {
        uuid::Variant::NCS => UuidVariant::Ncs,
        uuid::Variant::RFC4122 => UuidVariant::Rfc4122,
        uuid::Variant::Microsoft => UuidVariant::Microsoft,
        _ => UuidVariant::Future,
    }
}

/// `uuid::Uuid::now_v7`, as bytes. The result depends on the clock and on
/// random bits; the uuid source always sets version 7 (high nibble of byte 6)
/// and the RFC 9562 variant (bits `10` at the top of byte 8). Nothing else
/// about the bytes is stated.
#[verifier::external_body]
fn uuid_now_v7() -> (r: [u8; 16])
    ensures
        r[6] >> 4 == 7,
        r[8] & 0xc0 == 0x80,
{
    uuid::Uuid::now_v7().into_bytes()
}

/// `meta.event_id`: always a UUIDv7 (RFC 9562 variant).
#[derive(Debug, Clone, Copy, PartialEq, Eq, Hash, PartialOrd, Ord)]
pub struct EventId([u8; 16]);

impl View for EventId {
    type V = [u8; 16];

    closed spec fn view(&self) -> [u8; 16] {
        self.0
    }
}

impl EventId {
    #[verifier::type_invariant]
    spec fn is_v7(self) -> bool {
        is_uuid_v7(self.0)
    }

    /// Two event ids with the same bytes are the same id.
    pub proof fn lemma_view_injective(a: EventId, b: EventId)
        requires
            a@ == b@,
        ensures
            a == b,
    {
    }

    /// A fresh time-ordered id for a newly created event.
    pub fn new_v7() -> (r: Self)
        ensures
            is_uuid_v7(r@),
    {
        let bytes = uuid_now_v7();
        let b6 = bytes[6];
        let b8 = bytes[8];
        assert(b8 & 0xc0 == 0x80 ==> b8 & 0x80 != 0) by (bit_vector);
        EventId(bytes)
    }

    /// Accepts only UUIDv7 with the RFC 9562 variant (the UUID given as its
    /// 16 bytes).
    pub fn from_uuid(uuid: [u8; 16]) -> (r: Option<Self>)
        ensures
            r is Some <==> is_uuid_v7(uuid),
            r is Some <==> (uuid[6] >> 4 == 7 && uuid[8] & 0xc0 == 0x80),
            r matches Some(id) ==> id@ == uuid,
    {
        proof {
            lemma_uuid_v7_bits(uuid);
        }
        if uuid_version_num(uuid) == 7 && uuid_variant(uuid) == UuidVariant::Rfc4122 {
            Some(EventId(uuid))
        } else {
            None
        }
    }

    /// The UUID, as its 16 bytes.
    pub fn as_uuid(&self) -> (r: [u8; 16])
        ensures
            r == self@,
            is_uuid_v7(r),
    {
        proof {
            use_type_invariant(self);
        }
        self.0
    }

    pub fn as_bytes(&self) -> (r: &[u8; 16])
        ensures
            *r == self@,
            is_uuid_v7(*r),
    {
        proof {
            use_type_invariant(self);
        }
        &self.0
    }

    /// The hyphenated lowercase form, e.g. `01922a6e-5b00-7000-8000-000000000001`.
    pub fn to_string(&self) -> (r: String)
        ensures
            r@ == uuid_text(self@@),
    {
        let b: &[u8] = &self.0;
        let mut s = String::new();
        proof {
            reveal_strlit("-");
        }
        push_hex(&mut s, b, 0, 4);
        s.append("-");
        push_hex(&mut s, b, 4, 6);
        s.append("-");
        push_hex(&mut s, b, 6, 8);
        s.append("-");
        push_hex(&mut s, b, 8, 10);
        s.append("-");
        push_hex(&mut s, b, 10, 16);
        assert(s@ =~= uuid_text(self@@));
        s
    }
}

/// The hyphenated form of a UUID: hex groups of 4, 2, 2, 2 and 6 bytes.
pub open spec fn uuid_text(b: Seq<u8>) -> Seq<char> {
    hex(b.subrange(0, 4)) + seq!['-'] + hex(b.subrange(4, 6)) + seq!['-'] + hex(b.subrange(6, 8))
        + seq!['-'] + hex(b.subrange(8, 10)) + seq!['-'] + hex(b.subrange(10, 16))
}

/// A UUID is a UUIDv7 with the RFC 9562 variant exactly when the high
/// nibble of byte 6 is 7 and the top two bits of byte 8 are `10`: acceptance
/// depends on those six bits and on nothing else.
pub proof fn lemma_uuid_v7_bits(b: [u8; 16])
    ensures
        is_uuid_v7(b) <==> (b[6] >> 4 == 7 && b[8] & 0xc0 == 0x80),
{
    let b8 = b[8];
    assert((b8 & 0x80 != 0 && b8 & 0xc0 == 0x80) <==> b8 & 0xc0 == 0x80) by (bit_vector);
}

/// Acceptance of an event id ignores every bit but the version nibble and
/// the two variant bits: two UUIDs that agree on those bits are both
/// accepted or both refused.
pub proof fn lemma_uuid_v7_only_those_bits(a: [u8; 16], b: [u8; 16])
    requires
        a[6] >> 4 == b[6] >> 4,
        a[8] & 0xc0 == b[8] & 0xc0,
    ensures
        is_uuid_v7(a) <==> is_uuid_v7(b),
{
    lemma_uuid_v7_bits(a);
    lemma_uuid_v7_bits(b);
}

// ---- process uids ----

/// The BLAKE3 hash (32 bytes) of `input`.
pub uninterp spec fn blake3_digest(input: Seq<u8>) -> Seq<u8>;

/// `blake3::hash`: the 32-byte BLAKE3 digest of `input`. The contract names
/// the digest and states nothing else about it.
#[verifier::external_body]
fn blake3_hash(input: &[u8]) -> (r: [u8; 32])
    ensures
        r@ == blake3_digest(input@),
{
    *blake3::hash(input).as_bytes()
}

/// Domain-separation tag for the v1 process uid formula, as UTF-8 bytes.
pub open spec fn process_uid_tag() -> Seq<u8> {
    encode_utf8("atlas.process.v1"@)
}

/// The 8 little-endian bytes of `v`.
pub open spec fn u64_le_bytes(v: u64) -> Seq<u8> {
    seq![
        (v & 0xff) as u8,
        ((v >> 8) & 0xff) as u8,
        ((v >> 16) & 0xff) as u8,
        ((v >> 24) & 0xff) as u8,
        ((v >> 32) & 0xff) as u8,
        ((v >> 40) & 0xff) as u8,
        ((v >> 48) & 0xff) as u8,
        ((v >> 56) & 0xff) as u8,
    ]
}

/// The hashed input: `"atlas.process.v1" ‖ device.uid ‖ boot_id ‖ start_key LE`.
pub open spec fn process_uid_input(device: [u8; 16], boot: [u8; 16], start_key: u64) -> Seq<u8> {
    process_uid_tag() + device@ + boot@ + u64_le_bytes(start_key)
}

fn push_all(out: &mut Vec<u8>, bytes: &[u8])
    ensures
        final(out)@ == old(out)@ + bytes@,
{
    let mut i: usize = 0;
    while i < bytes.len()
        invariant
            i <= bytes@.len(),
            out@ == old(out)@ + bytes@.subrange(0, i as int),
        decreases bytes@.len() - i,
    {
        out.push(bytes[i]);
        i += 1;
        assert(bytes@.subrange(0, i as int) =~= bytes@.subrange(0, i - 1).push(bytes@[i - 1]));
    }
    assert(bytes@.subrange(0, bytes@.len() as int) =~= bytes@);
}

/// The bytes that [`process_uid`] hashes:
/// `"atlas.process.v1" ‖ device.uid ‖ boot_id ‖ start_key LE`.
pub fn process_uid_preimage(device: &DeviceUid, boot: &BootId, start_key: u64) -> (r: Vec<u8>)
    ensures
        r@ == process_uid_input(device.0, boot.0, start_key),
        r@.len() == 56,
        r@.subrange(0, 16) == process_uid_tag(),
        r@.subrange(16, 32) == device.0@,
        r@.subrange(32, 48) == boot.0@,
        le_value(r@.subrange(48, 56)) == start_key,
{
    proof {
        lemma_process_uid_input_layout(device.0, boot.0, start_key);
    }
    let mut input: Vec<u8> = Vec::new();
    push_all(&mut input, "atlas.process.v1".as_bytes());
    push_all(&mut input, device.as_bytes());
    push_all(&mut input, boot.as_bytes());
    input.push((start_key & 0xff) as u8);
    input.push(((start_key >> 8) & 0xff) as u8);
    input.push(((start_key >> 16) & 0xff) as u8);
    input.push(((start_key >> 24) & 0xff) as u8);
    input.push(((start_key >> 32) & 0xff) as u8);
    input.push(((start_key >> 40) & 0xff) as u8);
    input.push(((start_key >> 48) & 0xff) as u8);
    input.push(((start_key >> 56) & 0xff) as u8);
    assert(input@ =~= process_uid_input(device.0, boot.0, start_key));
    input
}

/// The process uid that a 32-byte digest gives: its first 16 bytes.
pub fn process_uid_from_digest(digest: &[u8; 32]) -> (r: ProcessUid)
    ensures
        r.0@ == digest@.subrange(0, 16),
{
    let mut out = [0u8; 16];
    let mut i: usize = 0;
    while i < 16
        invariant
            i <= 16,
            digest@.len() == 32,
            forall|j: int| 0 <= j < i ==> out@[j] == digest@[j],
        decreases 16 - i,
    {
        out.set(i, digest[i]);
        i += 1;
    }
    assert(out@ =~= digest@.subrange(0, 16));
    ProcessUid(out)
}

/// The number that 8 bytes give when read least significant byte first.
pub open spec fn le_value(s: Seq<u8>) -> int {
    s[0] + 0x100 * s[1] + 0x1_0000 * s[2] + 0x100_0000 * s[3] + 0x1_0000_0000 * s[4]
        + 0x100_0000_0000 * s[5] + 0x1_0000_0000_0000 * s[6] + 0x100_0000_0000_0000 * s[7]
}

/// The domain-separation tag is the ASCII text `atlas.process.v1`, one byte
/// per character.
pub proof fn lemma_process_uid_tag_bytes()
    ensures
        process_uid_tag() == seq![
            0x61u8, 0x74, 0x6c, 0x61, 0x73, 0x2e, 0x70, 0x72,
            0x6f, 0x63, 0x65, 0x73, 0x73, 0x2e, 0x76, 0x31,
        ],
{
    reveal_strlit("atlas.process.v1");
    let c = "atlas.process.v1"@;
    assert(c =~= seq!['a', 't', 'l', 'a', 's', '.', 'p', 'r', 'o', 'c', 'e', 's', 's', '.', 'v', '1']);
    assert(is_ascii_chars(c));
    is_ascii_chars_encode_utf8(c);
    assert(process_uid_tag() =~= seq![
        0x61u8, 0x74, 0x6c, 0x61, 0x73, 0x2e, 0x70, 0x72,
        0x6f, 0x63, 0x65, 0x73, 0x73, 0x2e, 0x76, 0x31,
    ]);
}

/// The layout of the hashed bytes: 56 bytes, the 16-byte tag, the device
/// uid, the boot id, then the start key, which the last 8 bytes give back
/// when read little-endian.
pub proof fn lemma_process_uid_input_layout(device: [u8; 16], boot: [u8; 16], start_key: u64)
    ensures
        process_uid_input(device, boot, start_key).len() == 56,
        process_uid_input(device, boot, start_key).subrange(0, 16) == process_uid_tag(),
        process_uid_input(device, boot, start_key).subrange(16, 32) == device@,
        process_uid_input(device, boot, start_key).subrange(32, 48) == boot@,
        le_value(process_uid_input(device, boot, start_key).subrange(48, 56)) == start_key,
{
    broadcast use vstd::array::group_array_axioms;
    lemma_process_uid_tag_bytes();
    let s = process_uid_input(device, boot, start_key);
    let k = start_key;
    assert(s.subrange(0, 16) =~= process_uid_tag());
    assert(s.subrange(16, 32) =~= device@);
    assert(s.subrange(32, 48) =~= boot@);
    assert(s.subrange(48, 56) =~= u64_le_bytes(k));
    assert(
        ((k & 0xff) as u8) as int
        + 0x100 * (((k >> 8) & 0xff) as u8) as int
        + 0x1_0000 * (((k >> 16) & 0xff) as u8) as int
        + 0x100_0000 * (((k >> 24) & 0xff) as u8) as int
        + 0x1_0000_0000 * (((k >> 32) & 0xff) as u8) as int
        + 0x100_0000_0000 * (((k >> 40) & 0xff) as u8) as int
        + 0x1_0000_0000_0000 * (((k >> 48) & 0xff) as u8) as int
        + 0x100_0000_0000_0000 * (((k >> 56) & 0xff) as u8) as int == k
    ) by (bit_vector);
}

/// Different device uids, boot ids or start keys give different hashed
/// bytes: the hashed bytes determine all three inputs.
pub proof fn lemma_process_uid_input_injective(
    d1: [u8; 16], b1: [u8; 16], k1: u64,
    d2: [u8; 16], b2: [u8; 16], k2: u64,
)
    requires
        process_uid_input(d1, b1, k1) == process_uid_input(d2, b2, k2),
    ensures
        d1@ == d2@,
        b1@ == b2@,
        k1 == k2,
{
    lemma_process_uid_input_layout(d1, b1, k1);
    lemma_process_uid_input_layout(d2, b2, k2);
}

/// `process.uid = BLAKE3("atlas.process.v1" ‖ device.uid ‖ boot_id ‖ start_key LE)[0..16]`.
///
/// `start_key` is the Windows process start key, treated as an opaque u64.
pub fn process_uid(device: &DeviceUid, boot: &BootId, start_key: u64) -> (r: ProcessUid)
    ensures
        r.0@ == blake3_digest(process_uid_input(device.0, boot.0, start_key)).subrange(0, 16),
{
    let input = process_uid_preimage(device, boot, start_key);
    let digest = blake3_hash(input.as_slice());
    process_uid_from_digest(&digest)
}

} // verus!
