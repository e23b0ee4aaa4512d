//! Little-endian primitives: the mathematical value of a run of bytes, and the
//! readers and writers that compute it.

use crate::addr::BdAddr;
use crate::enums::WireEnum;
use crate::error::{agrees, FlicError, UnmarshalError, UnmarshalErrorView};
use vstd::prelude::*;
use vstd::slice::{slice_subrange, slice_to_vec};
use vstd::string::StringExecFns;
use vstd::utf8::{decode_utf8, valid_utf8};

verus! {

/// How many bytes the buffer of a length-prefixed string field holds.
pub const FIELD_CAPACITY: usize = 16;

/// The unsigned number that `data[o .. o + 2]` spells, least significant byte first.
pub open spec fn spec_load_u16(data: Seq<u8>, o: int) -> u16 {
    (data[o] as int + 0x100 * (data[o + 1] as int)) as u16
}

/// The unsigned number that `data[o .. o + 4]` spells, least significant byte first.
pub open spec fn spec_load_u32(data: Seq<u8>, o: int) -> u32 {
    (data[o] as int + 0x100 * (data[o + 1] as int) + 0x1_0000 * (data[o + 2] as int) + 0x100_0000
        * (data[o + 3] as int)) as u32
}

/// The unsigned number that `data[o .. o + 8]` spells, least significant byte first.
pub open spec fn spec_load_u64(data: Seq<u8>, o: int) -> u64 {
    (spec_load_u32(data, o) as int + 0x1_0000_0000 * (spec_load_u32(data, o + 4) as int)) as u64
}

/// Two's complement reading of a byte.
pub open spec fn spec_i8(b: u8) -> i8 {
    if b < 0x80 {
        b as i8
    } else {
        (b as int - 0x100) as i8
    }
}

/// Two's complement reading of `data[o .. o + 2]`.
pub open spec fn spec_load_i16(data: Seq<u8>, o: int) -> i16 {
    let u = spec_load_u16(data, o);
    if u < 0x8000 {
        u as i16
    } else {
        (u as int - 0x1_0000) as i16
    }
}

/// Two's complement reading of `data[o .. o + 8]`.
pub open spec fn spec_load_i64(data: Seq<u8>, o: int) -> i64 {
    let u = spec_load_u64(data, o);
    if u < 0x8000_0000_0000_0000 {
        u as i64
    } else {
        (u as int - 0x1_0000_0000_0000_0000) as i64
    }
}

/// A protocol boolean is true exactly when its byte is 1.
pub open spec fn spec_load_bool(data: Seq<u8>, o: int) -> bool {
    data[o] == 1
}

/// Reads the protocol boolean at `o`.
pub fn load_bool(data: &[u8], o: usize) -> (b: bool)
    requires
        o < data.len(),
    ensures
        b == spec_load_bool(data@, o as int),
{
    data[o] == 1
}

/// Reads the two-byte unsigned number at `o`.
pub fn load_u16(data: &[u8], o: usize) -> (v: u16)
    requires
        o + 2 <= data.len(),
    ensures
        v == spec_load_u16(data@, o as int),
{
    data[o] as u16 + 0x100 * (data[o + 1] as u16)
}

/// Reads the four-byte unsigned number at `o`.
pub fn load_u32(data: &[u8], o: usize) -> (v: u32)
    requires
        o + 4 <= data.len(),
    ensures
        v == spec_load_u32(data@, o as int),
{
    data[o] as u32 + 0x100 * (data[o + 1] as u32) + 0x1_0000 * (data[o + 2] as u32) + 0x100_0000
        * (data[o + 3] as u32)
}

/// Reads a byte as a signed number.
pub fn load_i8(data: &[u8], o: usize) -> (v: i8)
    requires
        o < data.len(),
    ensures
        v == spec_i8(data@[o as int]),
{
    let b: u8 = data[o];
    if b < 0x80 {
        b as i8
    } else {
        ((b - 0x80) as i8) - 0x40 - 0x40
    }
}

/// Reads the two-byte signed number at `o`.
pub fn load_i16(data: &[u8], o: usize) -> (v: i16)
    requires
        o + 2 <= data.len(),
    ensures
        v == spec_load_i16(data@, o as int),
{
    let u: u16 = load_u16(data, o);
    if u < 0x8000 {
        u as i16
    } else {
        ((u - 0x8000) as i16) - 0x4000 - 0x4000
    }
}

/// Reads the eight-byte signed number at `o`.
pub fn load_i64(data: &[u8], o: usize) -> (v: i64)
    requires
        o + 8 <= data.len(),
    ensures
        v == spec_load_i64(data@, o as int),
{
    let lo: u64 = load_u32(data, o) as u64;
    let hi: u64 = load_u32(data, o + 4) as u64;
    let u: u64 = lo + 0x1_0000_0000 * hi;
    if u < 0x8000_0000_0000_0000 {
        u as i64
    } else {
        ((u - 0x8000_0000_0000_0000) as i64) - 0x4000_0000_0000_0000 - 0x4000_0000_0000_0000
    }
}

/// The two bytes that spell `x`, least significant first.
pub open spec fn spec_store_u16(x: u16) -> Seq<u8> {
    seq![(x % 0x100) as u8, (x / 0x100) as u8]
}

/// The four bytes that spell `x`, least significant first.
pub open spec fn spec_store_u32(x: u32) -> Seq<u8> {
    seq![
        (x % 0x100) as u8,
        (x / 0x100 % 0x100) as u8,
        (x / 0x1_0000 % 0x100) as u8,
        (x / 0x100_0000) as u8,
    ]
}

/// The digits of a two-byte number, least significant first, are its bytes.
proof fn lemma_digits_u16(b0: u16, b1: u16)
    requires
        b0 < 0x100,
        b1 < 0x100,
    ensures
        (b0 + 0x100 * b1) % 0x100 == b0,
        (b0 + 0x100 * b1) / 0x100 == b1,
{
    assert((b0 + 0x100 * b1) % 0x100 == b0 && (b0 + 0x100 * b1) / 0x100 == b1) by (bit_vector)
        requires
            b0 < 0x100,
            b1 < 0x100,
    ;
}

/// The digits of a four-byte number, least significant first, are its bytes.
proof fn lemma_digits_u32(b0: u32, b1: u32, b2: u32, b3: u32)
    requires
        b0 < 0x100,
        b1 < 0x100,
        b2 < 0x100,
        b3 < 0x100,
    ensures
        ({
            let x = b0 + 0x100 * b1 + 0x1_0000 * b2 + 0x100_0000 * b3;
            &&& x % 0x100 == b0
            &&& x / 0x100 % 0x100 == b1
            &&& x / 0x1_0000 % 0x100 == b2
            &&& x / 0x100_0000 == b3
        }),
{
    assert({
        let x = b0 + 0x100 * b1 + 0x1_0000 * b2 + 0x100_0000 * b3;
        &&& x % 0x100 == b0
        &&& x / 0x100 % 0x100 == b1
        &&& x / 0x1_0000 % 0x100 == b2
        &&& x / 0x100_0000 == b3
    }) by (bit_vector)
        requires
            b0 < 0x100,
            b1 < 0x100,
            b2 < 0x100,
            b3 < 0x100,
    ;
}

/// Reading undoes writing: the bytes that spell a number spell that number.
pub proof fn lemma_load_store_u16(x: u16)
    ensures
        spec_store_u16(x).len() == 2,
        spec_load_u16(spec_store_u16(x), 0) == x,
{
    assert(x % 0x100 + 0x100 * (x / 0x100) == x && x % 0x100 < 0x100 && x / 0x100 < 0x100)
        by (bit_vector);
}

/// Reading undoes writing: the bytes that spell a number spell that number.
pub proof fn lemma_load_store_u32(x: u32)
    ensures
        spec_store_u32(x).len() == 4,
        spec_load_u32(spec_store_u32(x), 0) == x,
{
    assert(x % 0x100 + 0x100 * (x / 0x100 % 0x100) + 0x1_0000 * (x / 0x1_0000 % 0x100) + 0x100_0000
        * (x / 0x100_0000) == x && x % 0x100 < 0x100 && x / 0x100 % 0x100 < 0x100 && x / 0x1_0000
        % 0x100 < 0x100 && x / 0x100_0000 < 0x100) by (bit_vector);
}

/// Writing undoes reading: two bytes are the spelling of the number they spell.
pub proof fn lemma_store_load_u16(data: Seq<u8>, o: int)
    requires
        0 <= o,
        o + 2 <= data.len(),
    ensures
        spec_store_u16(spec_load_u16(data, o)) == data.subrange(o, o + 2),
{
    lemma_digits_u16(data[o] as u16, data[o + 1] as u16);
    assert(spec_store_u16(spec_load_u16(data, o)) =~= data.subrange(o, o + 2));
}

/// Writing undoes reading: four bytes are the spelling of the number they spell.
pub proof fn lemma_store_load_u32(data: Seq<u8>, o: int)
    requires
        0 <= o,
        o + 4 <= data.len(),
    ensures
        spec_store_u32(spec_load_u32(data, o)) == data.subrange(o, o + 4),
{
    lemma_digits_u32(data[o] as u32, data[o + 1] as u32, data[o + 2] as u32, data[o + 3] as u32);
    assert(spec_store_u32(spec_load_u32(data, o)) =~= data.subrange(o, o + 4));
}

/// A number written anywhere in a body reads back from there.
pub proof fn lemma_load_u16_at(body: Seq<u8>, o: int, x: u16)
    requires
        0 <= o,
        o + 2 <= body.len(),
        body.subrange(o, o + 2) == spec_store_u16(x),
    ensures
        spec_load_u16(body, o) == x,
{
    lemma_load_store_u16(x);
    let part = body.subrange(o, o + 2);
    assert(part[0] == body[o] && part[1] == body[o + 1]);
}

/// A number written anywhere in a body reads back from there.
pub proof fn lemma_load_u32_at(body: Seq<u8>, o: int, x: u32)
    requires
        0 <= o,
        o + 4 <= body.len(),
        body.subrange(o, o + 4) == spec_store_u32(x),
    ensures
        spec_load_u32(body, o) == x,
{
    lemma_load_store_u32(x);
    let part = body.subrange(o, o + 4);
    assert(part[0] == body[o] && part[1] == body[o + 1] && part[2] == body[o + 2] && part[3]
        == body[o + 3]);
}

/// Appends the two bytes that spell `x`.
pub fn store_u16(v: &mut Vec<u8>, x: u16)
    ensures
        final(v)@ == old(v)@ + spec_store_u16(x),
{
    v.push((x % 0x100) as u8);
    v.push((x / 0x100) as u8);
    assert(v@ =~= old(v)@ + spec_store_u16(x));
}

/// Appends the four bytes that spell `x`.
pub fn store_u32(v: &mut Vec<u8>, x: u32)
    ensures
        final(v)@ == old(v)@ + spec_store_u32(x),
{
    v.push((x % 0x100) as u8);
    v.push((x / 0x100 % 0x100) as u8);
    v.push((x / 0x1_0000 % 0x100) as u8);
    v.push((x / 0x100_0000) as u8);
    assert(v@ =~= old(v)@ + spec_store_u32(x));
}

/// Appends `bytes` as they are.
pub fn store_bytes(v: &mut Vec<u8>, bytes: &[u8])
    ensures
        final(v)@ == old(v)@ + bytes@,
{
    let mut i: usize = 0;
    while i < bytes.len()
        invariant
            i <= bytes.len(),
            v@ == old(v)@ + bytes@.subrange(0, i as int),
        decreases bytes.len() - i,
    {
        v.push(bytes[i]);
        i += 1;
        assert(v@ =~= old(v)@ + bytes@.subrange(0, i as int));
    }
    assert(bytes@.subrange(0, i as int) =~= bytes@);
}

/// The address that `data[o .. o + 6]` holds.
pub open spec fn spec_load_bd_addr(data: Seq<u8>, o: int) -> BdAddr {
    BdAddr([data[o], data[o + 1], data[o + 2], data[o + 3], data[o + 4], data[o + 5]])
}

/// The sixteen bytes `data[o .. o + 16]`.
pub open spec fn spec_load_uuid(data: Seq<u8>, o: int) -> [u8; 16] {
    [
        data[o],
        data[o + 1],
        data[o + 2],
        data[o + 3],
        data[o + 4],
        data[o + 5],
        data[o + 6],
        data[o + 7],
        data[o + 8],
        data[o + 9],
        data[o + 10],
        data[o + 11],
        data[o + 12],
        data[o + 13],
        data[o + 14],
        data[o + 15],
    ]
}

/// Reads the address at `o`.
pub fn load_bd_addr(data: &[u8], o: usize) -> (a: BdAddr)
    requires
        o + 6 <= data.len(),
    ensures
        a == spec_load_bd_addr(data@, o as int),
{
    BdAddr([data[o], data[o + 1], data[o + 2], data[o + 3], data[o + 4], data[o + 5]])
}

/// Reads the sixteen bytes at `o`.
pub fn load_uuid(data: &[u8], o: usize) -> (u: [u8; 16])
    requires
        o + 16 <= data.len(),
    ensures
        u == spec_load_uuid(data@, o as int),
{
    [
        data[o],
        data[o + 1],
        data[o + 2],
        data[o + 3],
        data[o + 4],
        data[o + 5],
        data[o + 6],
        data[o + 7],
        data[o + 8],
        data[o + 9],
        data[o + 10],
        data[o + 11],
        data[o + 12],
        data[o + 13],
        data[o + 14],
        data[o + 15],
    ]
}

/// A body passes when it is exactly `want` bytes long.
pub open spec fn spec_check_sz(data: Seq<u8>, want: nat) -> Result<(), UnmarshalErrorView> {
    if data.len() == want {
        Ok(())
    } else {
        Err(UnmarshalErrorView::BadLength(data.len(), want))
    }
}

/// A body passes when it is at least `want` bytes long.
pub open spec fn spec_check_sz_at_least(data: Seq<u8>, want: nat) -> Result<
    (),
    UnmarshalErrorView,
> {
    if data.len() >= want {
        Ok(())
    } else {
        Err(UnmarshalErrorView::BadLengthAtLeast(data.len(), want))
    }
}

/// Refuses a body shorter than `want_len`.
pub fn check_sz_at_least(data: &[u8], want_len: usize) -> (r: Result<(), FlicError>)
    ensures
        agrees(r, spec_check_sz_at_least(data@, want_len as nat)),
{
    if data.len() >= want_len {
        return Ok(());
    }
    Err(FlicError::Unmarshal(UnmarshalError::BadLengthAtLeast(data.len(), want_len)))
}

/// Refuses a body of any other length than `want_len`.
pub fn check_sz(data: &[u8], want_len: usize) -> (r: Result<(), FlicError>)
    ensures
        agrees(r, spec_check_sz(data@, want_len as nat)),
{
    if data.len() == want_len {
        return Ok(());
    }
    Err(FlicError::Unmarshal(UnmarshalError::BadLength(data.len(), want_len)))
}

/// `String::from_utf8` of the standard library: it succeeds exactly on
/// well-formed UTF-8, and the string it gives holds the characters that the
/// bytes encode.
pub assume_specification[ String::from_utf8 ](vec: Vec<u8>) -> (r: Result<
    String,
    std::string::FromUtf8Error,
>)
    ensures
        r is Ok <==> valid_utf8(vec@),
        r matches Ok(s) ==> s@ == decode_utf8(vec@),
;

/// The text that `data[o .. o + sz]` encodes.
pub open spec fn spec_load_string(data: Seq<u8>, o: int, sz: int) -> Result<
    Seq<char>,
    UnmarshalErrorView,
> {
    let bytes = data.subrange(o, o + sz);
    if valid_utf8(bytes) {
        Ok(decode_utf8(bytes))
    } else {
        Err(UnmarshalErrorView::BadString)
    }
}

/// Reads `data[o .. o + sz]` as UTF-8 text.
pub fn load_string(data: &[u8], o: usize, sz: usize) -> (r: Result<String, FlicError>)
    requires
        o + sz <= data.len(),
    ensures
        agrees(r, spec_load_string(data@, o as int, sz as int)),
{
    let res = String::from_utf8(slice_to_vec(slice_subrange(data, o, o + sz)));
    match res {
        Ok(s) => Ok(s),
        Err(err) => Err(FlicError::Unmarshal(UnmarshalError::BadString(err))),
    }
}

/// The text of a length-prefixed string field at `o`: one byte that gives the
/// length, then a buffer of [`FIELD_CAPACITY`] bytes of which only that many
/// count. The rest of the buffer is padding and is not looked at. A length
/// that the buffer cannot hold is refused.
pub open spec fn spec_load_field(data: Seq<u8>, o: int) -> Result<Seq<char>, UnmarshalErrorView> {
    let n = data[o] as nat;
    if n > FIELD_CAPACITY {
        Err(UnmarshalErrorView::BadLengthAtLeast(FIELD_CAPACITY as nat, n))
    } else {
        spec_load_string(data, o + 1, n as int)
    }
}

/// Reads the length-prefixed string field at `o`.
pub fn load_field(data: &[u8], o: usize) -> (r: Result<String, FlicError>)
    requires
        o + 1 + FIELD_CAPACITY <= data.len(),
    ensures
        agrees(r, spec_load_field(data@, o as int)),
{
    let n: usize = data[o] as usize;
    if n > FIELD_CAPACITY {
        return Err(FlicError::Unmarshal(UnmarshalError::BadLengthAtLeast(FIELD_CAPACITY, n)));
    }
    load_string(data, o + 1, n)
}

/// The member of `E` that the byte at `o` stands for; `name` is what the
/// error calls the set when the byte stands for none.
pub open spec fn spec_load_enum<E: WireEnum>(data: Seq<u8>, o: int, name: Seq<char>) -> Result<
    E,
    UnmarshalErrorView,
> {
    match E::spec_from_u8(data[o]) {
        Some(e) => Ok(e),
        None => Err(UnmarshalErrorView::BadEnum(data[o], name)),
    }
}

/// Reads the byte at `o` as a member of `E`.
pub fn load_enum<E: WireEnum>(data: &[u8], o: usize, name: &str) -> (r: Result<E, FlicError>)
    requires
        o < data.len(),
    ensures
        match r {
            Ok(e) => spec_load_enum::<E>(data@, o as int, name@) == Ok::<E, UnmarshalErrorView>(e),
            Err(FlicError::Unmarshal(u)) => spec_load_enum::<E>(data@, o as int, name@) == Err::<
                E,
                UnmarshalErrorView,
            >(u@),
            Err(_) => false,
        },
{
    match E::from_u8(data[o]) {
        Some(e) => Ok(e),
        None => Err(
            FlicError::Unmarshal(UnmarshalError::BadEnum(data[o], String::from_str(name))),
        ),
    }
}

} // verus!
