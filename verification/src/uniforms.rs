//! The presentation pipeline's uniform record.
//!
//! The presentation shader reads one small uniform buffer: a frame
//! counter padded to 16 bytes, the alignment the binding declares as its
//! minimum size.  The record is rewritten every frame by `prepare`.

use vstd::prelude::*;
use crate::bytes::u32_le_bytes;
use crate::bytes::push_u32_le;

verus! {

/// Bytes the uniform record occupies: one counter plus padding.
pub const UNIFORM_BYTE_LEN: usize = 16;

/// Alignment the uniform binding requires of the record.
pub const UNIFORM_ALIGN: usize = 16;

/// The per-frame uniform record: a frame counter padded with three
/// zero words to the required 16 bytes.
#[derive(Clone, Copy, Debug, PartialEq, Eq, Structural)]
pub struct Uniforms {
    /// Frames driven so far.
    pub frame: u32,
    /// Padding word, always zero.
    pub pad1: u32,
    /// Padding word, always zero.
    pub pad2: u32,
    /// Padding word, always zero.
    pub pad3: u32,
}

/// The uniform record for frame `frame`.
pub open spec fn frame_uniforms_spec(frame: u32) -> Uniforms {
    Uniforms { frame, pad1: 0, pad2: 0, pad3: 0 }
}

impl Uniforms {
    /// The uniform record for frame `frame`, padding zeroed.
    pub fn for_frame(frame: u32) -> (r: Self)
        ensures
            r == frame_uniforms_spec(frame),
    {
        Uniforms { frame, pad1: 0, pad2: 0, pad3: 0 }
    }
}

/// The 16-byte buffer image of the uniform record: each word
/// little-endian, in field order.
pub open spec fn uniforms_bytes(u: Uniforms) -> Seq<u8> {
    u32_le_bytes(u.frame) + u32_le_bytes(u.pad1) + u32_le_bytes(u.pad2) + u32_le_bytes(u.pad3)
}

/// The uniform image fills the binding's declared size exactly and
/// meets its 16-byte alignment.
pub proof fn lemma_uniforms_bytes_aligned(u: Uniforms)
    ensures
        uniforms_bytes(u).len() == UNIFORM_BYTE_LEN,
        UNIFORM_BYTE_LEN as int % UNIFORM_ALIGN as int == 0,
{
}

/// Builds the buffer image of `u`.
pub fn encode_uniforms(u: &Uniforms) -> (r: Vec<u8>)
    ensures
        r@ == uniforms_bytes(*u),
        r@.len() == UNIFORM_BYTE_LEN,
{
    let mut out: Vec<u8> = Vec::new();
    push_u32_le(&mut out, u.frame);
    push_u32_le(&mut out, u.pad1);
    push_u32_le(&mut out, u.pad2);
    push_u32_le(&mut out, u.pad3);
    proof {
        assert(out@ =~= uniforms_bytes(*u));
    }
    out
}

} // verus!
