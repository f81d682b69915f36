//! The indexation feature block of an output.

use crate::message::error::Error;
use crate::message::reader::ByteReader;
use core::ops::RangeInclusive;
use vstd::prelude::*;
use vstd::slice::slice_to_vec;

verus! {

/// Whether a tag may have this many bytes.
pub open spec fn is_valid_length(len: int) -> bool {
    1 <= len <= 64
}

/// The binary form of a tag: one byte with the length of the tag, then the tag.
pub open spec fn packed_tag(tag: Seq<u8>) -> Seq<u8> {
    seq![tag.len() as u8] + tag
}

/// The tag whose binary form `bytes` begins with. With `check`, a tag of an
/// invalid length is refused, as soon as its length is known.
pub open spec fn unpacked_tag(bytes: Seq<u8>, check: bool) -> Result<Seq<u8>, Error> {
    if bytes.len() == 0 {
        Err(Error::UnexpectedEof)
    } else if check && !is_valid_length(bytes[0] as int) {
        Err(Error::InvalidIndexationIndexLength(bytes[0] as usize))
    } else if bytes.len() <= bytes[0] {
        Err(Error::UnexpectedEof)
    } else {
        Ok(bytes.subrange(1, 1 + bytes[0]))
    }
}

/// Defines an indexation tag to which the output will be indexed.
///
/// Every way to make one but [unpacking](Self::unpack_inner) without checks
/// gives a tag of a [valid length](Self::length_range).
#[derive(Debug, Eq, PartialEq, Ord, PartialOrd)]
pub struct IndexationFeatureBlock(
    // Binary indexation tag.
    Vec<u8>,
);

impl View for IndexationFeatureBlock {
    type V = Seq<u8>;

    closed spec fn view(&self) -> Seq<u8> {
        self.0@
    }
}

impl Clone for IndexationFeatureBlock {
    fn clone(&self) -> (block: Self)
        ensures
            block@ == self@,
    {
        proof {
            use_type_invariant(self);
        }
        let tag: Vec<u8> = self.0.clone();
        assert(tag@ == self.0@);
        IndexationFeatureBlock(tag)
    }
}

impl TryFrom<&[u8]> for IndexationFeatureBlock {
    type Error = Error;

    fn try_from(tag: &[u8]) -> (block: Result<Self, Error>)
        ensures
            is_valid_length(tag@.len() as int) ==> (block matches Ok(block) && block@ == tag@),
            !is_valid_length(tag@.len() as int) ==> (block matches Err(error) && error
                == Error::InvalidIndexationIndexLength(tag@.len() as usize)),
    {
        match validate_length(tag.len()) {
            Ok(()) => Ok(IndexationFeatureBlock(slice_to_vec(tag))),
            Err(error) => Err(error),
        }
    }
}

// A block is told apart by its tag alone, so `try_from` states what it returns
// over the tag, and not as a function to blocks.
impl vstd::std_specs::convert::TryFromSpecImpl<&[u8]> for IndexationFeatureBlock {
    open spec fn obeys_try_from_spec() -> bool {
        false
    }

    open spec fn try_from_spec(tag: &[u8]) -> Result<Self, Error> {
        arbitrary()
    }
}

impl IndexationFeatureBlock {
    /// The kind of an indexation feature block among the feature blocks.
    pub const KIND: u8 = 8;

    /// The length of a tag fits in the byte in which it is packed.
    #[verifier::type_invariant]
    spec fn length_fits_in_a_byte(self) -> bool {
        self.0@.len() <= u8::MAX
    }

    /// Valid lengths for an indexation feature block.
    pub fn length_range() -> (range: RangeInclusive<usize>)
        ensures
            range@.start == 1,
            range@.end == 64,
            !range@.exhausted,
    {
        1..=64
    }

    /// Creates a new indexation feature block.
    pub fn new(tag: &[u8]) -> (block: Result<Self, Error>)
        ensures
            is_valid_length(tag@.len() as int) ==> (block matches Ok(block) && block@ == tag@),
            !is_valid_length(tag@.len() as int) ==> (block matches Err(error) && error
                == Error::InvalidIndexationIndexLength(tag@.len() as usize)),
    {
        Self::try_from(tag)
    }

    /// Returns the tag. Its length fits in the byte in which it is packed.
    pub fn tag(&self) -> (tag: &[u8])
        ensures
            tag@ == self@,
            tag@.len() <= u8::MAX,
    {
        proof {
            use_type_invariant(self);
        }
        self.0.as_slice()
    }

    /// The number of bytes of the binary form.
    pub fn packed_len(&self) -> (len: usize)
        ensures
            len == packed_tag(self@).len(),
            len == 1 + self@.len(),
    {
        proof {
            use_type_invariant(self);
        }
        1 + self.0.len()
    }

    /// Appends the binary form to `writer`.
    pub fn pack(&self, writer: &mut Vec<u8>) -> (packed: Result<(), Error>)
        ensures
            packed is Ok,
            final(writer)@ == old(writer)@ + packed_tag(self@),
            final(writer)@.len() == old(writer)@.len() + 1 + self@.len(),
            final(writer)@[old(writer)@.len() as int] == self@.len(),
            forall|i: int|
                0 <= i < self@.len() ==> final(writer)@[old(writer)@.len() + 1 + i]
                    == #[trigger] self@[i],
    {
        proof {
            use_type_invariant(self);
        }
        writer.push(self.0.len() as u8);
        writer.extend_from_slice(self.0.as_slice());
        assert(writer@ == old(writer)@ + packed_tag(self@));
        Ok(())
    }

    /// Reads a block from its binary form. With `CHECK`, tags of an invalid
    /// length are refused.
    ///
    /// After a failure the reader stands behind the byte with the length, if
    /// there was one.
    pub fn unpack_inner<const CHECK: bool>(reader: &mut ByteReader<'_>) -> (block: Result<
        Self,
        Error,
    >)
        ensures
            match (block, unpacked_tag(old(reader).rest(), CHECK)) {
                (Ok(block), Ok(tag)) => block@ == tag && final(reader).rest() == old(
                    reader,
                ).rest().skip(packed_tag(tag).len() as int),
                (Err(error), Err(expected)) => error == expected && final(reader).rest() == if old(
                    reader,
                ).rest().len() == 0 {
                    old(reader).rest()
                } else {
                    old(reader).rest().skip(1)
                },
                _ => false,
            },
            block matches Ok(block) ==> {
                let bytes = old(reader).rest();
                &&& bytes.len() > block@.len()
                &&& bytes[0] == block@.len()
                &&& forall|i: int| 0 <= i < block@.len() ==> #[trigger] block@[i] == bytes[1 + i]
                &&& final(reader).rest() == bytes.skip(1 + bytes[0])
            },
    {
        let length: &[u8] = match reader.read_exact(1) {
            Ok(length) => length,
            Err(error) => {
                return Err(error);
            },
        };
        let tag_length: usize = length[0] as usize;
        if CHECK {
            match validate_length(tag_length) {
                Ok(()) => {},
                Err(error) => {
                    return Err(error);
                },
            }
        }
        match reader.read_exact(tag_length) {
            Ok(tag) => {
                let block = IndexationFeatureBlock(slice_to_vec(tag));
                assert(block@ == unpacked_tag(old(reader).rest(), CHECK)->Ok_0);
                assert(reader.rest() == old(reader).rest().skip(packed_tag(block@).len() as int));
                Ok(block)
            },
            Err(error) => Err(error),
        }
    }
}

/// Checks that a tag may have this length.
pub fn validate_length(tag_length: usize) -> (valid: Result<(), Error>)
    ensures
        is_valid_length(tag_length as int) ==> valid == Ok::<(), Error>(()),
        !is_valid_length(tag_length as int) ==> valid == Err::<(), Error>(
            Error::InvalidIndexationIndexLength(tag_length),
        ),
{
    if !IndexationFeatureBlock::length_range().contains(&tag_length) {
        return Err(Error::InvalidIndexationIndexLength(tag_length));
    }
    Ok(())
}

/// Unpacking gives back the tag that was packed, whatever follows its binary
/// form. With checks, this takes a tag of a valid length.
pub proof fn law_unpack_gives_back_packed(tag: Seq<u8>, tail: Seq<u8>, check: bool)
    requires
        tag.len() <= u8::MAX,
        check ==> is_valid_length(tag.len() as int),
    ensures
        unpacked_tag(packed_tag(tag) + tail, check) == Ok::<Seq<u8>, Error>(tag),
{
    let bytes = packed_tag(tag) + tail;
    assert(bytes[0] == tag.len());
    assert(bytes.subrange(1, 1 + bytes[0]) == tag);
}

/// With checks, the binary form of a tag of an invalid length is refused, and
/// the error tells the length.
pub proof fn law_checked_unpack_refuses_invalid_length(tag: Seq<u8>, tail: Seq<u8>)
    requires
        tag.len() <= u8::MAX,
        !is_valid_length(tag.len() as int),
    ensures
        unpacked_tag(packed_tag(tag) + tail, true) == Err::<Seq<u8>, Error>(
            Error::InvalidIndexationIndexLength(tag.len() as usize),
        ),
{
    assert((packed_tag(tag) + tail)[0] == tag.len());
}

/// Packing gives back the bytes from which a tag was unpacked: each tag has one
/// binary form.
pub proof fn law_pack_gives_back_unpacked(bytes: Seq<u8>, check: bool)
    requires
        unpacked_tag(bytes, check) is Ok,
    ensures
        ({
            let packed = packed_tag(unpacked_tag(bytes, check)->Ok_0);
            packed.len() <= bytes.len() && packed == bytes.take(packed.len() as int)
        }),
{
    let tag = unpacked_tag(bytes, check)->Ok_0;
    assert(packed_tag(tag) == bytes.take(packed_tag(tag).len() as int));
}

/// What unpacking with checks accepts has a valid length, and unpacking without
/// checks accepts it as well, with the same tag.
pub proof fn law_checked_unpack_is_stricter(bytes: Seq<u8>)
    requires
        unpacked_tag(bytes, true) is Ok,
    ensures
        is_valid_length(unpacked_tag(bytes, true)->Ok_0.len() as int),
        unpacked_tag(bytes, false) == unpacked_tag(bytes, true),
{
}

/// A tag may have from 1 to 64 bytes, and no other number of them.
pub proof fn law_valid_lengths(len: int)
    ensures
        is_valid_length(len) <==> len >= 1 && len <= 64,
{
}

/// In the binary form of a tag its length comes first, in one byte, and the
/// bytes of the tag follow in their order, each at its place.
pub proof fn law_packed_form(tag: Seq<u8>)
    requires
        tag.len() <= 255,
    ensures
        packed_tag(tag).len() == 1 + tag.len(),
        packed_tag(tag)[0] == tag.len(),
        forall|i: int| 0 <= i < tag.len() ==> packed_tag(tag)[1 + i] == #[trigger] tag[i],
{
}

/// Bytes are unpacked if and only if they hold a length, one from 1 to 64 where
/// lengths are checked, and at least as many bytes behind it. The tag is then
/// made of the bytes behind the length, in their order.
pub proof fn law_unpacked_form(bytes: Seq<u8>, check: bool)
    ensures
        unpacked_tag(bytes, check) is Ok <==> {
            &&& bytes.len() >= 1
            &&& check ==> 1 <= bytes[0] <= 64
            &&& bytes.len() >= 1 + bytes[0]
        },
        unpacked_tag(bytes, check) matches Ok(tag) ==> {
            &&& tag.len() == bytes[0]
            &&& forall|i: int| 0 <= i < tag.len() ==> #[trigger] tag[i] == bytes[1 + i]
        },
{
}

/// Where unpacking fails, a length that is there, is checked, and is not from 1
/// to 64 is the reason, and told; in every other case bytes are missing.
pub proof fn law_unpacking_failures(bytes: Seq<u8>, check: bool)
    requires
        unpacked_tag(bytes, check) is Err,
    ensures
        unpacked_tag(bytes, check)->Err_0 == if check && bytes.len() >= 1 && (bytes[0] == 0
            || bytes[0] > 64) {
            Error::InvalidIndexationIndexLength(bytes[0] as usize)
        } else {
            Error::UnexpectedEof
        },
{
}

} // verus!
