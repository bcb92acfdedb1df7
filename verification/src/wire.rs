//! Little-endian wire primitives.
//!
//! Every multi-byte integer on the wire is little-endian; variable-length
//! byte strings travel behind a four-byte length.  The writers state exactly
//! which bytes they append; the readers state exactly which value the bytes
//! at the cursor stand for, and fail with `Io` exactly when the buffer is
//! too short.

use vstd::prelude::*;
use vstd::arithmetic::div_mod::lemma_fundamental_div_mod_converse;
use crate::srd_errors::SrdError;

verus! {

/// The two little-endian bytes of a 16-bit integer.
pub open spec fn spec_u16_le(v: u16) -> Seq<u8> {
    seq![(v % 256) as u8, (v / 256) as u8]
}

/// The four little-endian bytes of a 32-bit integer.
pub open spec fn spec_u32_le(v: u32) -> Seq<u8> {
    seq![
        (v % 256) as u8,
        ((v / 256) % 256) as u8,
        ((v / 65536) % 256) as u8,
        (v / 16777216) as u8,
    ]
}

/// The 16-bit integer that two little-endian bytes stand for.
pub open spec fn spec_u16_val(s: Seq<u8>) -> u16
    recommends
        s.len() == 2,
{
    (s[0] + s[1] * 256) as u16
}

/// The 32-bit integer that four little-endian bytes stand for.
pub open spec fn spec_u32_val(s: Seq<u8>) -> u32
    recommends
        s.len() == 4,
{
    (s[0] + s[1] * 256 + s[2] * 65536 + s[3] * 16777216) as u32
}

/// A byte string behind its four-byte little-endian length.
pub open spec fn spec_block(s: Seq<u8>) -> Seq<u8>
    recommends
        s.len() <= u32::MAX,
{
    spec_u32_le(s.len() as u32) + s
}

/// Reading back the two bytes of a 16-bit integer returns the integer.
pub proof fn lemma_u16_le_val(v: u16)
    ensures
        spec_u16_val(spec_u16_le(v)) == v,
{
}

/// Reading back the four bytes of a 32-bit integer returns the integer.
pub proof fn lemma_u32_le_val(v: u32)
    ensures
        spec_u32_val(spec_u32_le(v)) == v,
{
    assert(v % 256 + ((v / 256) % 256) * 256 + ((v / 65536) % 256) * 65536 + (v / 16777216)
        * 16777216 == v) by (bit_vector);
}

/// Two little-endian bytes are the rendering of the value they stand for.
pub proof fn lemma_u16_val_le(s: Seq<u8>)
    requires
        s.len() == 2,
    ensures
        spec_u16_le(spec_u16_val(s)) == s,
{
    let v = (s[0] + s[1] * 256) as int;
    lemma_fundamental_div_mod_converse(v, 256, s[1] as int, s[0] as int);
    assert(spec_u16_le(spec_u16_val(s)) =~= s);
}

/// Four little-endian bytes are the rendering of the value they stand for.
pub proof fn lemma_u32_val_le(s: Seq<u8>)
    requires
        s.len() == 4,
    ensures
        spec_u32_le(spec_u32_val(s)) == s,
{
    let v = spec_u32_val(s);
    let b0 = s[0];
    let b1 = s[1];
    let b2 = s[2];
    let b3 = s[3];
    assert(v == b0 + b1 * 256 + b2 * 65536 + b3 * 16777216);
    assert(v % 256 == b0 && (v / 256) % 256 == b1 && (v / 65536) % 256 == b2 && v / 16777216
        == b3) by (bit_vector)
        requires
            v == b0 + b1 * 256 + b2 * 65536 + b3 * 16777216,
    ;
    assert(spec_u32_le(v) =~= s);
}

/// Append one byte.
pub fn write_u8(buffer: &mut Vec<u8>, v: u8)
    ensures
        final(buffer)@ == old(buffer)@ + seq![v],
{
    buffer.push(v);
    assert(final(buffer)@ =~= old(buffer)@ + seq![v]);
}

/// Append a 16-bit integer, little-endian.
pub fn write_u16(buffer: &mut Vec<u8>, v: u16)
    ensures
        final(buffer)@ == old(buffer)@ + spec_u16_le(v),
{
    buffer.push((v % 256) as u8);
    buffer.push((v / 256) as u8);
    assert(final(buffer)@ =~= old(buffer)@ + spec_u16_le(v));
}

/// Append a 32-bit integer, little-endian.
pub fn write_u32(buffer: &mut Vec<u8>, v: u32)
    ensures
        final(buffer)@ == old(buffer)@ + spec_u32_le(v),
{
    buffer.push((v % 256) as u8);
    buffer.push(((v / 256) % 256) as u8);
    buffer.push(((v / 65536) % 256) as u8);
    buffer.push((v / 16777216) as u8);
    assert(final(buffer)@ =~= old(buffer)@ + spec_u32_le(v));
}

/// Append a byte string as it stands.
pub fn write_bytes(buffer: &mut Vec<u8>, v: &Vec<u8>)
    ensures
        final(buffer)@ == old(buffer)@ + v@,
{
    let mut i: usize = 0;
    while i < v.len()
        invariant
            i <= v@.len(),
            buffer@ == old(buffer)@ + v@.take(i as int),
        decreases v@.len() - i,
    {
        buffer.push(v[i]);
        assert(buffer@ =~= old(buffer)@ + v@.take(i + 1));
        i += 1;
    }
    assert(v@.take(v@.len() as int) =~= v@);
}

/// Append a byte string behind its four-byte length.
pub fn write_block(buffer: &mut Vec<u8>, v: &Vec<u8>)
    requires
        v@.len() <= u32::MAX,
    ensures
        final(buffer)@ == old(buffer)@ + spec_block(v@),
{
    write_u32(buffer, v.len() as u32);
    write_bytes(buffer, v);
    assert(final(buffer)@ =~= old(buffer)@ + spec_block(v@));
}

/// Read one byte at the cursor.
pub fn read_u8(buffer: &Vec<u8>, pos: &mut usize) -> (r: Result<u8, SrdError>)
    requires
        *old(pos) <= buffer@.len(),
    ensures
        match r {
            Ok(v) => *old(pos) + 1 <= buffer@.len() && *final(pos) == *old(pos) + 1 && v
                == buffer@[*old(pos) as int],
            Err(e) => e == SrdError::Io && *old(pos) + 1 > buffer@.len() && *final(pos) == *old(
                pos,
            ),
        },
{
    if buffer.len() - *pos < 1 {
        return Err(SrdError::Io);
    }
    let v = buffer[*pos];
    *pos = *pos + 1;
    Ok(v)
}

/// Read a 16-bit little-endian integer at the cursor.
pub fn read_u16(buffer: &Vec<u8>, pos: &mut usize) -> (r: Result<u16, SrdError>)
    requires
        *old(pos) <= buffer@.len(),
    ensures
        match r {
            Ok(v) => *old(pos) + 2 <= buffer@.len() && *final(pos) == *old(pos) + 2 && v
                == spec_u16_val(buffer@.subrange(*old(pos) as int, *old(pos) + 2)),
            Err(e) => e == SrdError::Io && *old(pos) + 2 > buffer@.len() && *final(pos) == *old(
                pos,
            ),
        },
{
    if buffer.len() - *pos < 2 {
        return Err(SrdError::Io);
    }
    let b0 = buffer[*pos];
    let b1 = buffer[*pos + 1];
    let v = b0 as u16 + (b1 as u16) * 256;
    proof {
        let s = buffer@.subrange(*old(pos) as int, *old(pos) + 2);
        assert(s[0] == b0 && s[1] == b1);
    }
    *pos = *pos + 2;
    Ok(v)
}

/// Read a 32-bit little-endian integer at the cursor.
pub fn read_u32(buffer: &Vec<u8>, pos: &mut usize) -> (r: Result<u32, SrdError>)
    requires
        *old(pos) <= buffer@.len(),
    ensures
        match r {
            Ok(v) => *old(pos) + 4 <= buffer@.len() && *final(pos) == *old(pos) + 4 && v
                == spec_u32_val(buffer@.subrange(*old(pos) as int, *old(pos) + 4)),
            Err(e) => e == SrdError::Io && *old(pos) + 4 > buffer@.len() && *final(pos) == *old(
                pos,
            ),
        },
{
    if buffer.len() - *pos < 4 {
        return Err(SrdError::Io);
    }
    let b0 = buffer[*pos];
    let b1 = buffer[*pos + 1];
    let b2 = buffer[*pos + 2];
    let b3 = buffer[*pos + 3];
    let v = b0 as u32 + (b1 as u32) * 256 + (b2 as u32) * 65536 + (b3 as u32) * 16777216;
    proof {
        let s = buffer@.subrange(*old(pos) as int, *old(pos) + 4);
        assert(s[0] == b0 && s[1] == b1 && s[2] == b2 && s[3] == b3);
    }
    *pos = *pos + 4;
    Ok(v)
}

/// Read a fixed number of bytes at the cursor.
pub fn read_bytes(buffer: &Vec<u8>, pos: &mut usize, n: usize) -> (r: Result<Vec<u8>, SrdError>)
    requires
        *old(pos) <= buffer@.len(),
    ensures
        match r {
            Ok(v) => *old(pos) + n <= buffer@.len() && *final(pos) == *old(pos) + n && v@
                == buffer@.subrange(*old(pos) as int, *old(pos) + n),
            Err(e) => e == SrdError::Io && *old(pos) + n > buffer@.len() && *final(pos) == *old(
                pos,
            ),
        },
{
    if buffer.len() - *pos < n {
        return Err(SrdError::Io);
    }
    let mut v: Vec<u8> = Vec::new();
    let mut i: usize = 0;
    while i < n
        invariant
            i <= n,
            *pos + n <= buffer@.len(),
            buffer@.len() <= usize::MAX,
            v@ == buffer@.subrange(*pos as int, *pos + i),
        decreases n - i,
    {
        v.push(buffer[*pos + i]);
        assert(v@ =~= buffer@.subrange(*pos as int, *pos + i + 1));
        i += 1;
    }
    *pos = *pos + n;
    Ok(v)
}

/// Read a byte string behind its four-byte length at the cursor.
pub fn read_block(buffer: &Vec<u8>, pos: &mut usize) -> (r: Result<Vec<u8>, SrdError>)
    requires
        *old(pos) <= buffer@.len(),
    ensures
        match r {
            Ok(v) => {
                &&& *old(pos) + 4 <= buffer@.len()
                &&& v@.len() == spec_u32_val(buffer@.subrange(*old(pos) as int, *old(pos) + 4))
                &&& *old(pos) + 4 + v@.len() <= buffer@.len()
                &&& v@ == buffer@.subrange(*old(pos) + 4, *old(pos) + 4 + v@.len())
                &&& *final(pos) == *old(pos) + 4 + v@.len()
            },
            Err(e) => {
                &&& e == SrdError::Io
                &&& *final(pos) == *old(pos)
                &&& (*old(pos) + 4 > buffer@.len() || *old(pos) + 4 + spec_u32_val(
                    buffer@.subrange(*old(pos) as int, *old(pos) + 4),
                ) > buffer@.len())
            },
        },
{
    let start = *pos;
    let n = match read_u32(buffer, pos) {
        Ok(n) => n,
        Err(e) => {
            return Err(e);
        },
    };
    match read_bytes(buffer, pos, n as usize) {
        Ok(v) => Ok(v),
        Err(e) => {
            *pos = start;
            Err(e)
        },
    }
}

} // verus!
