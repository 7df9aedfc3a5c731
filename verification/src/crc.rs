//! Frame check codes.
//!
//! The control protocol carries a CRC-16/IBM-3740 over the first 18 header
//! bytes and a CRC-32/ISO-HDLC (the Ethernet polynomial) over the payload
//! bytes; the streaming protocol carries the same CRC-32 over timestamp and
//! payload.  Both computations are done by the `crc` crate; the names below
//! stand for their results, so that contracts can say that a stored check
//! code is the checksum of exactly the right byte range.

use vstd::prelude::*;

verus! {

/// The CRC-16/IBM-3740 checksum of a byte sequence.
pub uninterp spec fn crc16_of(b: Seq<u8>) -> u16;

/// The CRC-32/ISO-HDLC checksum of a byte sequence.
pub uninterp spec fn crc32_of(b: Seq<u8>) -> u32;

/// Relies on crc::Crc::<u16>::checksum with the CRC_16_IBM_3740 algorithm
/// from the crc crate: a table-driven computation whose result depends on
/// the input bytes alone.
#[verifier::external_body]
pub fn crc16_checksum(b: &[u8]) -> (r: u16)
    ensures
        r == crc16_of(b@),
{
    crc::Crc::<u16>::new(&crc::CRC_16_IBM_3740).checksum(b)
}

/// Relies on crc::Crc::<u32>::checksum with the CRC_32_ISO_HDLC algorithm
/// from the crc crate: a table-driven computation whose result depends on
/// the input bytes alone.
#[verifier::external_body]
pub fn crc32_checksum(b: &[u8]) -> (r: u32)
    ensures
        r == crc32_of(b@),
{
    crc::Crc::<u32>::new(&crc::CRC_32_ISO_HDLC).checksum(b)
}

} // verus!
