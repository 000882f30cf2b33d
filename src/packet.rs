use vstd::prelude::*;

use rand::RngCore;

verus! {

#[verifier::external_type_specification]
#[verifier::external_body]
pub struct ExIoError(std::io::Error);

/// Why a file cannot serve as the payload.
#[derive(Debug)]
pub enum ReadPacketError {
    ReadFailed(std::io::Error),
    ZeroSize,
}

/// Relies on rand's `thread_rng().fill_bytes`: it overwrites every byte of the
/// buffer with random data and keeps its length.
#[verifier::external_body]
fn fill_random(buffer: &mut Vec<u8>)
    ensures
        final(buffer)@.len() == old(buffer)@.len(),
{
    rand::thread_rng().fill_bytes(buffer.as_mut_slice());
}

/// A payload of `length` random bytes.
pub fn random_packet(length: usize) -> (r: Vec<u8>)
    requires
        length >= 1,
    ensures
        r@.len() == length,
{
    let mut buffer: Vec<u8> = Vec::with_capacity(length);
    let mut i: usize = 0;
    while i < length
        invariant
            i <= length,
            buffer@.len() == i,
        decreases length - i,
    {
        buffer.push(0u8);
        i = i + 1;
    }
    fill_random(&mut buffer);
    buffer
}

/// Accepts what was read from a payload file, unless it is empty.
pub fn check_packet(content: Vec<u8>) -> (r: Result<Vec<u8>, ReadPacketError>)
    ensures
        content@.len() == 0 <==> r matches Err(ReadPacketError::ZeroSize),
        content@.len() > 0 <==> r is Ok,
        r is Ok ==> r->Ok_0@ == content@,
{
    if content.len() == 0 {
        Err(ReadPacketError::ZeroSize)
    } else {
        Ok(content)
    }
}

/// The payload read from a file, or why it cannot be one: the read's own
/// error, or an empty file.
pub fn packet_from_read(read: Result<Vec<u8>, std::io::Error>) -> (r: Result<Vec<u8>, ReadPacketError>)
    ensures
        read is Err ==> r matches Err(ReadPacketError::ReadFailed(_)),
        read is Ok ==> (read->Ok_0@.len() == 0 <==> r matches Err(ReadPacketError::ZeroSize)),
        read is Ok ==> (read->Ok_0@.len() > 0 <==> r is Ok),
        r is Ok ==> read is Ok && r->Ok_0@ == read->Ok_0@,
{
    match read {
        Err(error) => Err(ReadPacketError::ReadFailed(error)),
        Ok(content) => check_packet(content),
    }
}

} // verus!
