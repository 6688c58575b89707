use vstd::prelude::*;
use crate::error::StorzError;

verus! {

/// The unsigned value of two bytes in little-endian order.
pub open spec fn le_u16(b0: u8, b1: u8) -> int {
    b0 + 256 * b1
}

/// The unsigned value of four bytes in little-endian order.
pub open spec fn le_u32(b0: u8, b1: u8, b2: u8, b3: u8) -> int {
    b0 + 256 * b1 + 65536 * b2 + 16777216 * b3
}

/// The little-endian encoding of a 16-bit value.
pub open spec fn le_bytes_u16(v: u16) -> Seq<u8> {
    seq![(v % 256) as u8, (v / 256) as u8]
}

/// The little-endian encoding of a 32-bit value.
pub open spec fn le_bytes_u32(v: u32) -> Seq<u8> {
    seq![
        (v % 256) as u8,
        ((v / 256) % 256) as u8,
        ((v / 65536) % 256) as u8,
        (v / 16777216) as u8,
    ]
}

/// The message of the error for a reading that is too short.
pub open spec fn short_reading_message() -> Seq<char> {
    "temperature reading too short"@
}

/// The message of the error for a temperature that cannot be encoded.
pub open spec fn out_of_range_message() -> Seq<char> {
    "temperature out of range"@
}

/// What decoding a 16-bit temperature reading gives: the first two bytes
/// in little-endian order, in tenths of a degree Celsius.
pub open spec fn spec_raw_to_tenths_u16(data: Seq<u8>) -> Option<u16> {
    if data.len() >= 2 {
        Some(le_u16(data[0], data[1]) as u16)
    } else {
        None
    }
}

/// What decoding a 32-bit temperature reading gives: the first four bytes
/// in little-endian order, in tenths of a degree Celsius.
pub open spec fn spec_raw_to_tenths_u32(data: Seq<u8>) -> Option<u32> {
    if data.len() >= 4 {
        Some(le_u32(data[0], data[1], data[2], data[3]) as u32)
    } else {
        None
    }
}

fn short_reading() -> (e: StorzError)
    ensures
        e.is_parse_error_with(short_reading_message()),
{
    StorzError::ParseError(String::from_str("temperature reading too short"))
}

fn out_of_range() -> (e: StorzError)
    ensures
        e.is_parse_error_with(out_of_range_message()),
{
    StorzError::ParseError(String::from_str("temperature out of range"))
}

/// Decode a 16-bit little-endian temperature reading (tenths of a degree
/// Celsius). Fails when fewer than two bytes were received; bytes after the
/// second are ignored.
pub fn raw_to_tenths_u16(data: &[u8]) -> (res: Result<u16, StorzError>)
    ensures
        res.is_ok() <==> data@.len() >= 2,
        res matches Ok(v) ==> Some(v) == spec_raw_to_tenths_u16(data@),
        res matches Err(e) ==> e.is_parse_error_with(short_reading_message()),
{
    if data.len() < 2 {
        return Err(short_reading());
    }
    let v: u16 = data[0] as u16 + 256 * (data[1] as u16);
    Ok(v)
}

/// Decode a 32-bit little-endian temperature reading (tenths of a degree
/// Celsius). Fails when fewer than four bytes were received; bytes after the
/// fourth are ignored.
pub fn raw_to_tenths_u32(data: &[u8]) -> (res: Result<u32, StorzError>)
    ensures
        res.is_ok() <==> data@.len() >= 4,
        res matches Ok(v) ==> Some(v) == spec_raw_to_tenths_u32(data@),
        res matches Err(e) ==> e.is_parse_error_with(short_reading_message()),
{
    if data.len() < 4 {
        return Err(short_reading());
    }
    let v: u32 = data[0] as u32 + 256 * (data[1] as u32) + 65536 * (data[2] as u32) + 16777216
        * (data[3] as u32);
    Ok(v)
}

/// Encode a value as two little-endian bytes.
pub fn u16_to_le_bytes(v: u16) -> (bytes: Vec<u8>)
    ensures
        bytes@ == le_bytes_u16(v),
{
    let mut bytes: Vec<u8> = Vec::new();
    bytes.push((v % 256) as u8);
    bytes.push((v / 256) as u8);
    bytes
}

/// Encode a value as four little-endian bytes.
pub fn u32_to_le_bytes(v: u32) -> (bytes: Vec<u8>)
    ensures
        bytes@ == le_bytes_u32(v),
{
    let mut bytes: Vec<u8> = Vec::new();
    bytes.push((v % 256) as u8);
    bytes.push(((v / 256) % 256) as u8);
    bytes.push(((v / 65536) % 256) as u8);
    bytes.push((v / 16777216) as u8);
    bytes
}

/// Encode a temperature given in tenths of a degree Celsius as a 16-bit
/// little-endian value. Fails when it is negative or above `u16::MAX`.
pub fn tenths_to_raw_u16(tenths: i64) -> (res: Result<Vec<u8>, StorzError>)
    ensures
        res.is_ok() <==> 0 <= tenths <= u16::MAX,
        res matches Ok(bytes) ==> bytes@ == le_bytes_u16(tenths as u16),
        res matches Err(e) ==> e.is_parse_error_with(out_of_range_message()),
{
    if tenths < 0 || tenths > 65535 {
        return Err(out_of_range());
    }
    Ok(u16_to_le_bytes(tenths as u16))
}

/// Encode a temperature given in tenths of a degree Celsius as a 32-bit
/// little-endian value. Fails when it is negative or above `u32::MAX`.
pub fn tenths_to_raw_u32(tenths: i64) -> (res: Result<Vec<u8>, StorzError>)
    ensures
        res.is_ok() <==> 0 <= tenths <= u32::MAX,
        res matches Ok(bytes) ==> bytes@ == le_bytes_u32(tenths as u32),
        res matches Err(e) ==> e.is_parse_error_with(out_of_range_message()),
{
    if tenths < 0 || tenths > 4294967295 {
        return Err(out_of_range());
    }
    Ok(u32_to_le_bytes(tenths as u32))
}

/// Readings are little-endian: the first byte is the least significant; a
/// 16-bit reading needs two bytes and a 32-bit reading four, and any bytes
/// after those do not change the value.
pub proof fn lemma_readings_little_endian(data: Seq<u8>, extra: Seq<u8>)
    ensures
        spec_raw_to_tenths_u16(data) is Some <==> data.len() >= 2,
        spec_raw_to_tenths_u32(data) is Some <==> data.len() >= 4,
        data.len() >= 2 ==> spec_raw_to_tenths_u16(data) == Some((data[0] + 256 * data[1]) as u16),
        data.len() >= 4 ==> spec_raw_to_tenths_u32(data) == Some(
            (data[0] + 256 * data[1] + 65536 * data[2] + 16777216 * data[3]) as u32,
        ),
        data.len() >= 2 ==> spec_raw_to_tenths_u16(data + extra) == spec_raw_to_tenths_u16(data),
        data.len() >= 4 ==> spec_raw_to_tenths_u32(data + extra) == spec_raw_to_tenths_u32(data),
{
    if data.len() >= 2 {
        assert((data + extra)[0] == data[0] && (data + extra)[1] == data[1]);
    }
    if data.len() >= 4 {
        assert((data + extra)[2] == data[2] && (data + extra)[3] == data[3]);
    }
}

/// Encodings are little-endian: for a 16-bit value v the bytes are
/// v mod 256 then v div 256, and they decode back to v.
pub proof fn lemma_encodings_little_endian(v: u16, w: u32)
    ensures
        le_bytes_u16(v).len() == 2,
        le_bytes_u16(v)[0] + 256 * le_bytes_u16(v)[1] == v,
        le_bytes_u32(w).len() == 4,
        le_bytes_u32(w)[0] + 256 * le_bytes_u32(w)[1] + 65536 * le_bytes_u32(w)[2] + 16777216
            * le_bytes_u32(w)[3] == w,
{
    let (b0, b1, b2, b3) = (
        le_bytes_u32(w)[0] as int,
        le_bytes_u32(w)[1] as int,
        le_bytes_u32(w)[2] as int,
        le_bytes_u32(w)[3] as int,
    );
    let x = w as int;
    assert(b0 + 256 * b1 + 65536 * b2 + 16777216 * b3 == x) by (nonlinear_arith)
        requires
            0 <= x < 0x1_0000_0000,
            b0 == x % 256,
            b1 == (x / 256) % 256,
            b2 == (x / 65536) % 256,
            b3 == x / 16777216,
    ;
}

/// Decoding an encoded 16-bit value gives the value back.
pub proof fn lemma_u16_encode_decode(v: u16)
    ensures
        spec_raw_to_tenths_u16(le_bytes_u16(v)) == Some(v),
{
}

/// Decoding an encoded 32-bit value gives the value back.
pub proof fn lemma_u32_encode_decode(v: u32)
    ensures
        spec_raw_to_tenths_u32(le_bytes_u32(v)) == Some(v),
{
}

/// Encoding a decoded 16-bit reading gives back the bytes that were read.
pub proof fn lemma_u16_decode_encode(data: Seq<u8>)
    requires
        data.len() >= 2,
    ensures
        le_bytes_u16(spec_raw_to_tenths_u16(data).unwrap()) == data.take(2),
{
}

/// Encoding a decoded 32-bit reading gives back the bytes that were read.
pub proof fn lemma_u32_decode_encode(data: Seq<u8>)
    requires
        data.len() >= 4,
    ensures
        le_bytes_u32(spec_raw_to_tenths_u32(data).unwrap()) == data.take(4),
{
    let (b0, b1, b2, b3) = (data[0] as int, data[1] as int, data[2] as int, data[3] as int);
    let v = b0 + 256 * b1 + 65536 * b2 + 16777216 * b3;
    assert(v % 256 == b0 && (v / 256) % 256 == b1 && (v / 65536) % 256 == b2 && v / 16777216
        == b3) by (nonlinear_arith)
        requires
            0 <= b0 < 256,
            0 <= b1 < 256,
            0 <= b2 < 256,
            0 <= b3 < 256,
            v == b0 + 256 * b1 + 65536 * b2 + 16777216 * b3,
    ;
    assert(le_bytes_u32(spec_raw_to_tenths_u32(data).unwrap()) =~= data.take(4));
}

} // verus!
