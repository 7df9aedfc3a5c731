//! The error taxonomy shared by every parser in the crate.
//!
//! There are two kinds of parse failure: structural/size errors (a buffer
//! shorter than a declared or required length, or a payload byte count that
//! does not fit the element size) and content/validity errors (a header field
//! whose bit pattern is outside its legal set, or a tag outside the known set
//! for its protocol).  Every failure is returned as a value; no parser panics.

use vstd::prelude::*;

verus! {

/// The closed tag sets a parser may dispatch on.  An unknown-tag error names
/// one of these so the caller sees which values would have been accepted.
#[derive(Debug, Clone, Copy, PartialEq, Eq, Structural)]
pub enum ExpectedTags {
    /// The control command ids handled by the discovery channel.
    ControlCommand,
    /// The streaming data tag carrying inertial samples.
    StreamingImu,
    /// The three streaming data tags carrying point-cloud samples.
    StreamingPoint,
}

impl ExpectedTags {
    /// The members of the set, as raw tag values.
    pub open spec fn spec_values(self) -> Seq<u64> {
        match self {
            ExpectedTags::ControlCommand => seq![0u64],
            ExpectedTags::StreamingImu => seq![0u64],
            ExpectedTags::StreamingPoint => seq![1u64, 2u64, 3u64],
        }
    }

    /// The members of the set, as raw tag values.
    pub fn values(&self) -> (r: Vec<u64>)
        ensures
            r@ == self.spec_values(),
    {
        match self {
            ExpectedTags::ControlCommand => {
                let mut v: Vec<u64> = Vec::new();
                v.push(0);
                proof {
                    assert(v@ =~= seq![0u64]);
                }
                v
            },
            ExpectedTags::StreamingImu => {
                let mut v: Vec<u64> = Vec::new();
                v.push(0);
                proof {
                    assert(v@ =~= seq![0u64]);
                }
                v
            },
            ExpectedTags::StreamingPoint => {
                let mut v: Vec<u64> = Vec::new();
                v.push(1);
                v.push(2);
                v.push(3);
                proof {
                    assert(v@ =~= seq![1u64, 2u64, 3u64]);
                }
                v
            },
        }
    }
}

/// A parse failure, returned as a value by every parser in the crate.
#[derive(Debug, Clone, Copy, PartialEq, Eq, Structural)]
#[allow(inconsistent_fields)]
pub enum Error {
    /// A buffer shorter than a declared or required length, or a payload
    /// byte count that does not match what the header requires.
    InvalidSize { expect: usize, found: usize },
    /// A header field whose bit pattern is not a legal value for its type:
    /// the byte offset of the field and the value found there.
    InvalidField { offset: usize, found: u64 },
    /// A tag value outside the known set for the protocol: the set that
    /// would have been accepted and the value actually found.
    UnknownType { expect: ExpectedTags, found: u64 },
    /// A discovery acknowledgement whose return code is not zero.
    InvalidAck { ret_code: u8 },
}

impl Error {
    /// A structural/size error: `expect` bytes were needed, `found` were there.
    pub fn invalid_size(expect: usize, found: usize) -> (r: Error)
        ensures
            r == (Error::InvalidSize { expect, found }),
    {
        Error::InvalidSize { expect, found }
    }

    /// A content error: the tag value `found` is not in the set `expect`.
    pub fn unknown_type(expect: ExpectedTags, found: u64) -> (r: Error)
        ensures
            r == (Error::UnknownType { expect, found }),
    {
        Error::UnknownType { expect, found }
    }

    /// A content error: the field at byte `offset` holds the illegal value `found`.
    pub fn invalid_field(offset: usize, found: u64) -> (r: Error)
        ensures
            r == (Error::InvalidField { offset, found }),
    {
        Error::InvalidField { offset, found }
    }
}

} // verus!
