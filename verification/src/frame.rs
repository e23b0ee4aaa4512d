//! Framing: the record that carries one command or one event on the stream.
//!
//! A frame is a two-byte length, least significant byte first, then that
//! many bytes of payload: one opcode byte and the body. The layer counts
//! bytes; what a body means is the codec's business.

use crate::commands::{Command, MAX_BODY};
use crate::wire::{
    lemma_load_store_u16, load_u16, spec_load_u16, spec_store_u16, store_bytes, store_u16,
};
use vstd::prelude::*;

verus! {

/// How many bytes the length header takes.
pub const HEADER_LEN: usize = 2;

/// The frame that carries `body` under `opcode`.
pub open spec fn spec_frame(opcode: u8, body: Seq<u8>) -> Seq<u8> {
    spec_store_u16((body.len() + 1) as u16) + seq![opcode] + body
}

/// The number of payload bytes that a length header announces.
pub open spec fn spec_payload_len(header: Seq<u8>) -> nat {
    spec_load_u16(header, 0) as nat
}

/// `bytes` is one whole frame and nothing else: a header, and exactly the
/// payload that the header announces, which has at least its opcode.
pub open spec fn is_frame(bytes: Seq<u8>) -> bool {
    &&& bytes.len() >= 3
    &&& bytes.len() == 2 + spec_payload_len(bytes.subrange(0, 2))
}

/// Builds the frame for `body` under `opcode` as one buffer, to be handed to
/// the stream in a single write.
pub fn write_frame(opcode: u8, body: &[u8]) -> (bytes: Vec<u8>)
    requires
        body.len() <= MAX_BODY,
    ensures
        bytes@ == spec_frame(opcode, body@),
{
    let mut bytes: Vec<u8> = Vec::with_capacity(body.len() + 3);
    store_u16(&mut bytes, (body.len() + 1) as u16);
    bytes.push(opcode);
    store_bytes(&mut bytes, body);
    bytes
}

/// Builds the frame that sends `cmd`.
pub fn frame_command<C: Command>(cmd: &C) -> (bytes: Vec<u8>)
    ensures
        bytes@ == spec_frame(cmd.spec_opcode(), cmd.spec_marshal()),
{
    let opcode = cmd.opcode();
    let body = cmd.marshal();
    write_frame(opcode, body.as_slice())
}

/// Reads a length header: how many bytes of payload follow it.
pub fn payload_len(header: &[u8; 2]) -> (n: usize)
    ensures
        n == spec_payload_len(header@),
{
    load_u16(header.as_slice(), 0) as usize
}

/// What is written is one well-formed frame: the header announces exactly
/// the bytes that follow it, the first of them is the opcode and the rest is
/// the body. A reader that takes two bytes and then as many as they announce
/// takes this frame whole and is left at the start of the next one.
pub proof fn lemma_frame_well_formed(opcode: u8, body: Seq<u8>)
    requires
        body.len() <= MAX_BODY,
    ensures
        is_frame(spec_frame(opcode, body)),
        spec_frame(opcode, body).len() == body.len() + 3,
        spec_payload_len(spec_frame(opcode, body).subrange(0, 2)) == body.len() + 1,
        spec_frame(opcode, body)[2] == opcode,
        spec_frame(opcode, body).subrange(3, body.len() as int + 3) == body,
{
    let n = (body.len() + 1) as u16;
    let f = spec_frame(opcode, body);
    lemma_load_store_u16(n);
    assert(f.subrange(0, 2) =~= spec_store_u16(n));
    assert(f.subrange(3, body.len() as int + 3) =~= body);
}

/// Two frames written one after the other never run together: the first is
/// a prefix that a reader can cut off by its own header alone.
pub proof fn lemma_frames_split(opcode: u8, body: Seq<u8>, rest: Seq<u8>)
    requires
        body.len() <= MAX_BODY,
    ensures
        ({
            let stream = spec_frame(opcode, body) + rest;
            let n = spec_payload_len(stream.subrange(0, 2)) as int;
            &&& stream.subrange(0, 2 + n) == spec_frame(opcode, body)
            &&& stream.subrange(2 + n, stream.len() as int) == rest
        }),
{
    lemma_frame_well_formed(opcode, body);
    let f = spec_frame(opcode, body);
    let stream = f + rest;
    assert(stream.subrange(0, 2) =~= f.subrange(0, 2));
    let n = spec_payload_len(stream.subrange(0, 2)) as int;
    assert(stream.subrange(0, 2 + n) =~= f);
    assert(stream.subrange(2 + n, stream.len() as int) =~= rest);
}

} // verus!
