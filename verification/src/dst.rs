//! The frame-parsing engine: a generic split of a raw byte buffer into a
//! fixed-size header and its variable-length payload.
//!
//! A header type describes itself through [`DstHeader`]: its static byte
//! size, how its bytes are validated and decoded, and its length strategy —
//! how the declared length field (together with the tag, whose element size
//! it may need) turns into the number of payload bytes actually present.
//! The engine then:
//!
//! 1. splits the buffer at the header size, failing with a size error that
//!    reports expected and found byte counts if the buffer is too short;
//! 2. validates and decodes the header bytes, failing with a validity error
//!    naming the offending field if a bit pattern is illegal;
//! 3. computes the payload byte count via the header's length strategy;
//! 4. hands back the header together with a view of exactly that many
//!    payload bytes, ignoring anything beyond them, or a size error if
//!    fewer are present.
//!
//! No step copies payload bytes: the returned view borrows the input buffer.

use vstd::prelude::*;

use crate::error::Error;

verus! {

/// A fixed-size header describing the length and tag of the variable-sized
/// data that follows it.
pub trait DstHeader: Sized {
    /// The static byte size of the header.
    spec fn spec_size() -> usize;

    /// What a run of exactly [`spec_size`](Self::spec_size) bytes decodes
    /// to: the header, or the first validity error.
    spec fn spec_parse(b: Seq<u8>) -> Result<Self, Error>;

    /// The payload byte count this header declares, by its length strategy,
    /// or the error when the declared length is itself illegal.
    spec fn spec_payload_size(self) -> Result<usize, Error>;

    /// The static byte size of the header.
    fn size() -> (r: usize)
        ensures
            r == Self::spec_size(),
    ;

    /// Validates and decodes exactly [`size`](Self::size) header bytes.
    fn parse(b: &[u8]) -> (r: Result<Self, Error>)
        requires
            b@.len() == Self::spec_size(),
        ensures
            r == Self::spec_parse(b@),
    ;

    /// The payload byte count this header declares, by its length strategy.
    fn payload_size(&self) -> (r: Result<usize, Error>)
        ensures
            r == self.spec_payload_size(),
    ;
}

/// The typed length strategy: the header's declared length already is the
/// payload's element count, and the element byte size is known from the
/// tag, so the payload holds `count * elem_size` bytes.
pub struct TypedLen;

/// The untyped length strategy: the header's declared length is the byte
/// length of the whole frame, header included, so the payload holds
/// `declared - header_size` bytes; a declared length smaller than the
/// header itself is a size error.
pub struct UntypedLen;

impl TypedLen {
    /// The payload byte count: `count * elem_size`.
    pub open spec fn spec_payload_bytes(count: u16, elem_size: usize) -> usize {
        (count * elem_size) as usize
    }

    /// The payload byte count: `count * elem_size`.
    pub fn payload_bytes(count: u16, elem_size: usize) -> (r: usize)
        requires
            count * elem_size <= usize::MAX,
        ensures
            r == Self::spec_payload_bytes(count, elem_size),
    {
        (count as usize) * elem_size
    }
}

impl UntypedLen {
    /// The payload byte count: `declared - header_size`, or the size error
    /// when the declared length cannot even cover the header.
    pub open spec fn spec_payload_bytes(declared: u16, header_size: usize) -> Result<usize, Error> {
        if declared < header_size {
            Err(Error::InvalidSize { expect: header_size, found: declared as usize })
        } else {
            Ok((declared - header_size) as usize)
        }
    }

    /// The payload byte count: `declared - header_size`, or the size error
    /// when the declared length cannot even cover the header.
    pub fn payload_bytes(declared: u16, header_size: usize) -> (r: Result<usize, Error>)
        ensures
            r == Self::spec_payload_bytes(declared, header_size),
    {
        if (declared as usize) < header_size {
            Err(Error::invalid_size(header_size, declared as usize))
        } else {
            Ok(declared as usize - header_size)
        }
    }
}

/// A decoded header paired with a borrowed view of its payload bytes.
///
/// The view is exactly the payload the header declares; it never outlives
/// the buffer it was parsed from, and it is not a copy.
#[derive(Debug)]
pub struct DstRef<'a, H> {
    /// The decoded, validated header.
    pub header: H,
    /// The payload bytes the header declares, borrowed from the input.
    pub data: &'a [u8],
}

/// What splitting a buffer into header and remainder yields: the decoded
/// header and the bytes after it, or the first error.
pub open spec fn spec_split_header<H: DstHeader>(bytes: Seq<u8>) -> Result<(H, Seq<u8>), Error> {
    if bytes.len() < H::spec_size() {
        Err(Error::InvalidSize { expect: H::spec_size(), found: bytes.len() as usize })
    } else {
        match H::spec_parse(bytes.take(H::spec_size() as int)) {
            Err(e) => Err(e),
            Ok(h) => Ok((h, bytes.skip(H::spec_size() as int))),
        }
    }
}

/// What selecting the payload out of the remainder yields: the first
/// `spec_payload_size` bytes, or a size error when fewer are present.
pub open spec fn spec_take_payload<H: DstHeader>(header: H, tail: Seq<u8>) -> Result<
    Seq<u8>,
    Error,
> {
    match header.spec_payload_size() {
        Err(e) => Err(e),
        Ok(n) => if tail.len() < n {
            Err(Error::InvalidSize { expect: n, found: tail.len() as usize })
        } else {
            Ok(tail.take(n as int))
        },
    }
}

/// What the whole engine yields on a buffer: header plus payload view, or
/// the first error of steps 1-4.
pub open spec fn spec_parse_frame<H: DstHeader>(bytes: Seq<u8>) -> Result<(H, Seq<u8>), Error> {
    match spec_split_header::<H>(bytes) {
        Err(e) => Err(e),
        Ok((h, tail)) => match spec_take_payload::<H>(h, tail) {
            Err(e) => Err(e),
            Ok(data) => Ok((h, data)),
        },
    }
}

/// Splits the buffer at the header size and decodes the header, returning
/// it with the borrowed remainder.  A buffer shorter than the header size
/// fails with a size error reporting expected and found byte counts.
pub fn split_header<'a, H: DstHeader>(bytes: &'a [u8]) -> (r: Result<(H, &'a [u8]), Error>)
    ensures
        match r {
            Ok(p) => spec_split_header::<H>(bytes@) == Ok::<_, Error>((p.0, p.1@)),
            Err(e) => spec_split_header::<H>(bytes@) == Err::<(H, Seq<u8>), _>(e),
        },
        bytes@.len() < H::spec_size() ==> r == Err::<(H, &'a [u8]), Error>(
            Error::InvalidSize { expect: H::spec_size(), found: bytes@.len() as usize },
        ),
{
    let size = H::size();
    if bytes.len() < size {
        return Err(Error::invalid_size(size, bytes.len()));
    }
    let head = vstd::slice::slice_subrange(bytes, 0, size);
    proof {
        assert(head@ =~= bytes@.take(H::spec_size() as int));
    }
    let header = H::parse(head)?;
    let tail = vstd::slice::slice_subrange(bytes, size, bytes.len());
    proof {
        assert(tail@ =~= bytes@.skip(H::spec_size() as int));
    }
    Ok((header, tail))
}

/// Selects the payload out of the remainder after the header: exactly the
/// byte count the header's length strategy declares.  Extra bytes beyond it
/// are ignored; fewer fail with a size error reporting expected and found.
pub fn take_payload<'a, H: DstHeader>(header: &H, tail: &'a [u8]) -> (r: Result<&'a [u8], Error>)
    ensures
        match r {
            Ok(data) => spec_take_payload::<H>(*header, tail@) == Ok::<_, Error>(data@),
            Err(e) => spec_take_payload::<H>(*header, tail@) == Err::<Seq<u8>, _>(e),
        },
{
    let n = header.payload_size()?;
    if tail.len() < n {
        return Err(Error::invalid_size(n, tail.len()));
    }
    let data = vstd::slice::slice_subrange(tail, 0, n);
    proof {
        assert(data@ =~= tail@.take(n as int));
    }
    Ok(data)
}

impl<'a, H: DstHeader> DstRef<'a, H> {
    /// Pairs an already decoded header with its payload view.
    pub fn new(header: H, data: &'a [u8]) -> (r: Self)
        ensures
            r.header == header,
            r.data == data,
    {
        DstRef { header, data }
    }

    /// Runs the whole engine on a buffer: split, validate, compute the
    /// payload length, and return the borrowed frame, or the first error.
    pub fn try_ref_from_bytes(bytes: &'a [u8]) -> (r: Result<Self, Error>)
        ensures
            match r {
                Ok(f) => spec_parse_frame::<H>(bytes@) == Ok::<_, Error>((f.header, f.data@)),
                Err(e) => spec_parse_frame::<H>(bytes@) == Err::<(H, Seq<u8>), _>(e),
            },
            bytes@.len() < H::spec_size() ==> (r matches Err(e) && e == (Error::InvalidSize {
                expect: H::spec_size(),
                found: bytes@.len() as usize,
            })),
    {
        let (header, tail) = split_header::<H>(bytes)?;
        let data = take_payload::<H>(&header, tail)?;
        Ok(DstRef { header, data })
    }

    /// The mutable counterpart of [`DstRef::try_ref_from_bytes`]: the same
    /// split and validation over a mutable buffer, yielding a mutable payload
    /// view for in-place decode or encode.  The bytes before and after the
    /// payload view are left unchanged.
    pub fn try_mut_from_bytes(bytes: &'a mut [u8]) -> (r: Result<
        (H, &'a mut [u8]),
        Error,
    >)
        ensures
            match r {
                Ok(p) => spec_parse_frame::<H>(old(bytes)@) == Ok::<_, Error>((p.0, p.1@)),
                Err(e) => spec_parse_frame::<H>(old(bytes)@) == Err::<(H, Seq<u8>), _>(e),
            },
            r matches Ok(p) ==> final(bytes)@ == old(bytes)@.take(H::spec_size() as int) + final(p.1)@
                + old(bytes)@.skip(H::spec_size() + p.1@.len()),
            r is Err ==> final(bytes)@ == old(bytes)@,
    {
        let size = H::size();
        let n = bytes.len();
        if n < size {
            return Err(Error::invalid_size(size, n));
        }
        let (head, tail) = bytes.split_at_mut(size);
        let header = match H::parse(head) {
            Err(e) => {
                return Err(e);
            },
            Ok(h) => h,
        };
        let plen = match header.payload_size() {
            Err(e) => {
                return Err(e);
            },
            Ok(p) => p,
        };
        if tail.len() < plen {
            return Err(Error::invalid_size(plen, tail.len()));
        }
        proof {
            assert(head@ =~= old(bytes)@.take(H::spec_size() as int));
            assert(tail@ =~= old(bytes)@.skip(H::spec_size() as int));
        }
        let ghost tail_view = tail@;
        let (data, _rest) = tail.split_at_mut(plen);
        proof {
            assert(data@ =~= tail_view.take(plen as int));
        }
        Ok((header, data))
    }
}


} // verus!
