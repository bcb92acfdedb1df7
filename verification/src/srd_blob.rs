//! The opaque typed credential that the handshake delivers.
//!
//! A blob is a 32-bit type tag and raw bytes.  Its envelope — the tag, then
//! the bytes behind a four-byte length — is what DELEGATE carries encrypted;
//! decoding accepts exactly the envelopes that encoding produces.

use vstd::prelude::*;
use crate::srd_errors::SrdError;
use crate::wire::read_block;
use crate::wire::read_u32;
use crate::wire::spec_block;
use crate::wire::spec_u32_le;
use crate::wire::spec_u32_val;
use crate::wire::write_block;
use crate::wire::write_u32;

verus! {

/// An opaque typed credential payload.
#[derive(Debug, Clone)]
pub struct SrdBlob {
    pub blob_type: u32,
    pub data: Vec<u8>,
}

/// Mathematical image of `SrdBlob`.
pub ghost struct SrdBlobV {
    pub blob_type: u32,
    pub data: Seq<u8>,
}

impl View for SrdBlob {
    type V = SrdBlobV;

    open spec fn view(&self) -> SrdBlobV {
        SrdBlobV { blob_type: self.blob_type, data: self.data@ }
    }
}

/// Well-formed blob: its bytes fit behind a four-byte length.
pub open spec fn blob_wf(v: SrdBlobV) -> bool {
    v.data.len() <= u32::MAX
}

/// The envelope of a blob: type tag, then length-prefixed bytes.
pub open spec fn spec_write_blob(v: SrdBlobV) -> Seq<u8> {
    spec_u32_le(v.blob_type) + spec_block(v.data)
}

/// What an envelope stands for; nothing, unless it is exactly a tag and a
/// length-prefixed byte string that fills the buffer.
pub open spec fn spec_parse_blob(s: Seq<u8>) -> Option<SrdBlobV> {
    if s.len() < 8 {
        None
    } else if 8 + spec_u32_val(s.subrange(4, 8)) != s.len() {
        None
    } else {
        Some(
            SrdBlobV {
                blob_type: spec_u32_val(s.subrange(0, 4)),
                data: s.subrange(8, s.len() as int),
            },
        )
    }
}

impl SrdBlob {
    /// A blob with the given type tag and bytes.
    pub fn new(blob_type: u32, data: Vec<u8>) -> (r: SrdBlob)
        ensures
            r@ == (SrdBlobV { blob_type, data: data@ }),
    {
        SrdBlob { blob_type, data }
    }

    /// The envelope of this blob.
    pub fn encode(&self) -> (r: Vec<u8>)
        requires
            blob_wf(self@),
        ensures
            r@ == spec_write_blob(self@),
    {
        let mut buffer: Vec<u8> = Vec::new();
        write_u32(&mut buffer, self.blob_type);
        write_block(&mut buffer, &self.data);
        assert(buffer@ =~= spec_write_blob(self@));
        buffer
    }

    /// Decode an envelope; fails with `InvalidBlob` on anything that
    /// `encode` cannot have produced.
    pub fn decode(buffer: &Vec<u8>) -> (r: Result<SrdBlob, SrdError>)
        ensures
            match spec_parse_blob(buffer@) {
                Some(v) => r matches Ok(b) && b@ == v && blob_wf(v),
                None => r matches Err(e) && e == SrdError::InvalidBlob,
            },
    {
        if buffer.len() < 8 {
            return Err(SrdError::InvalidBlob);
        }
        let mut pos: usize = 0;
        let blob_type = match read_u32(buffer, &mut pos) {
            Ok(v) => v,
            Err(_) => {
                return Err(SrdError::InvalidBlob);
            },
        };
        let data = match read_block(buffer, &mut pos) {
            Ok(v) => v,
            Err(_) => {
                return Err(SrdError::InvalidBlob);
            },
        };
        if pos != buffer.len() {
            return Err(SrdError::InvalidBlob);
        }
        Ok(SrdBlob { blob_type, data })
    }
}

/// Decoding inverts encoding: every well-formed blob's envelope parses back
/// to the same blob.
pub proof fn lemma_blob_roundtrip(v: SrdBlobV)
    requires
        blob_wf(v),
    ensures
        spec_parse_blob(spec_write_blob(v)) == Some(v),
{
    let s = spec_write_blob(v);
    assert(s.subrange(0, 4) =~= spec_u32_le(v.blob_type));
    assert(s.subrange(4, 8) =~= spec_u32_le(v.data.len() as u32));
    crate::wire::lemma_u32_le_val(v.blob_type);
    crate::wire::lemma_u32_le_val(v.data.len() as u32);
    assert(s.subrange(8, s.len() as int) =~= v.data);
}

/// Encoding inverts decoding: whatever the blob parser accepts is well
/// formed and encodes back to the very bytes it was read from.
pub proof fn lemma_blob_canonical(s: Seq<u8>, v: SrdBlobV)
    requires
        spec_parse_blob(s) == Some(v),
    ensures
        blob_wf(v),
        spec_write_blob(v) == s,
{
    crate::wire::lemma_u32_val_le(s.subrange(0, 4));
    crate::wire::lemma_u32_val_le(s.subrange(4, 8));
    assert(spec_write_blob(v) =~= s);
}

} // verus!
