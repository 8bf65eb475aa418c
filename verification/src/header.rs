//! Block headers, as far as the choice of a consensus engine reads them.

use sp_runtime::traits::BlakeTwo256;
use vstd::prelude::*;

verus! {

/// What `sp_runtime::traits::BlakeTwo256` makes of some bytes.
pub uninterp spec fn blake_two_256(data: Seq<u8>) -> Seq<u8>;

/// Calls `sp_runtime::traits::Hash::hash` for `BlakeTwo256`, the 256 bit Blake2 hash of a byte
/// string. The contract claims that the hash depends on the bytes alone, and names it; what the
/// hash of given bytes is stays unsaid.
#[verifier::external_body]
fn hash_bytes(data: &[u8]) -> (hash: [u8; 32])
    ensures
        hash@ == blake_two_256(data@),
{
    <BlakeTwo256 as sp_runtime::traits::Hash>::hash(data).to_fixed_bytes()
}

/// A block header: the hash of its parent block, and the SCALE encoding of the whole header.
///
/// The hash of a header is that of its encoding, which is how the headers of `sp_runtime` take
/// their own.
pub struct Header {
    pub parent_hash: [u8; 32],
    pub encoded: Vec<u8>,
}

impl Header {
    /// The two go together: the encoding of a header begins with the hash of its parent.
    pub open spec fn wf(self) -> bool {
        self.encoded@.len() >= 32 && self.encoded@.subrange(0, 32) == self.parent_hash@
    }

    /// Whether the encoding says that the block of this header is on top of that of `parent`.
    pub open spec fn is_on_top_of(self, parent: Header) -> bool {
        self.encoded@.len() >= 32 && self.encoded@.subrange(0, 32) == parent.block_hash()
    }

    /// Reads a header off its encoding. There is none in fewer bytes than the hash of a parent
    /// has.
    pub fn from_encoded(encoded: Vec<u8>) -> (header: Option<Header>)
        ensures
            match header {
                Some(header) => header.wf() && header.encoded@ == encoded@,
                None => encoded@.len() < 32,
            },
            header is Some <==> encoded@.len() >= 32,
            header matches Some(header) ==> forall|i: int|
                0 <= i < 32 ==> #[trigger] header.parent_hash@[i] == encoded@[i],
    {
        if encoded.len() < 32 {
            return None;
        }
        let mut parent_hash: [u8; 32] = [0; 32];
        let mut i: usize = 0;
        while i < 32
            invariant
                i <= 32,
                encoded@.len() >= 32,
                parent_hash@.subrange(0, i as int) == encoded@.subrange(0, i as int),
            decreases 32 - i,
        {
            parent_hash[i] = encoded[i];
            i += 1;
            assert(parent_hash@.subrange(0, i as int) =~= parent_hash@.subrange(0, i - 1).push(
                encoded@[i - 1],
            ));
            assert(encoded@.subrange(0, i as int) =~= encoded@.subrange(0, i - 1).push(
                encoded@[i - 1],
            ));
        }
        assert(parent_hash@.subrange(0, 32) =~= parent_hash@);
        assert forall|i: int| 0 <= i < 32 implies #[trigger] parent_hash@[i] == encoded@[i] by {
            assert(parent_hash@[i] == parent_hash@.subrange(0, 32)[i]);
            assert(encoded@[i] == encoded@.subrange(0, 32)[i]);
        }
        Some(Header { parent_hash, encoded })
    }

    /// The hash by which the block of this header is known.
    pub open spec fn block_hash(self) -> Seq<u8> {
        blake_two_256(self.encoded@)
    }

    /// Computes the hash of the header.
    pub fn hash(&self) -> (hash: [u8; 32])
        ensures
            hash@ == self.block_hash(),
            hash@ == blake_two_256(self.encoded@),
    {
        hash_bytes(self.encoded.as_slice())
    }
}

/// A block is known by the hash of the whole encoding of its header, however long that is; so
/// headers with one encoding are of one block.
pub proof fn law_block_is_known_by_whole_encoding(header: Header, other: Header)
    ensures
        header.block_hash() == blake_two_256(header.encoded@),
        header.encoded@ == other.encoded@ ==> header.block_hash() == other.block_hash(),
{
}

/// A header is well-formed if and only if the first 32 bytes of its encoding are, one by one,
/// those of the hash of its parent; and its encoding says that it is on top of a parent if and
/// only if these bytes are those of the hash of the whole encoding of that parent.
pub proof fn law_encoding_begins_with_parent(header: Header, parent: Header)
    ensures
        header.wf() <==> header.encoded@.len() >= 32 && forall|i: int|
            0 <= i < 32 ==> #[trigger] header.parent_hash@[i] == header.encoded@[i],
        header.is_on_top_of(parent) <==> header.encoded@.len() >= 32 && header.encoded@.take(32)
            == blake_two_256(parent.encoded@),
{
    assert(header.encoded@.len() >= 32 ==> header.encoded@.take(32) == header.encoded@.subrange(
        0,
        32,
    ));
    if header.encoded@.len() >= 32 {
        let first = header.encoded@.subrange(0, 32);
        if first == header.parent_hash@ {
            assert forall|i: int| 0 <= i < 32 implies #[trigger] header.parent_hash@[i]
                == header.encoded@[i] by {
                assert(first[i] == header.encoded@[i]);
            }
        }
        if forall|i: int| 0 <= i < 32 ==> #[trigger] header.parent_hash@[i] == header.encoded@[i] {
            assert(first =~= header.parent_hash@);
        }
    }
}

/// The hash of a header is that of all the bytes of its encoding, however many there are.
pub proof fn law_hash_is_of_whole_encoding(header: Header, hash: [u8; 32])
    requires
        call_ensures(Header::hash, (&header,), hash),
    ensures
        hash@ == blake_two_256(header.encoded@),
        call_requires(Header::hash, (&header,)),
{
}

/// A header can be read off every encoding that is long enough, and no other; it has all the bytes
/// of the encoding, and the first 32 of them, one by one, as the hash of its parent.
pub proof fn law_header_is_read_off_encoding(encoded: Vec<u8>, header: Option<Header>)
    requires
        call_ensures(Header::from_encoded, (encoded,), header),
    ensures
        header is Some <==> encoded@.len() >= 32,
        header matches Some(header) ==> {
            &&& header.encoded@ == encoded@
            &&& forall|i: int| 0 <= i < 32 ==> #[trigger] header.parent_hash@[i] == encoded@[i]
        },
        call_requires(Header::from_encoded, (encoded,)),
{
}

} // verus!
