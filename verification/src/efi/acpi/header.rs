//! The header that every system description table begins with.
use crate::efi::EfiError;
use crate::mem::{le_u32, tag4, tag4_at, tag6, tag6_at, tag8, tag8_at, u32_at, PhysMem};
use vstd::prelude::*;

verus! {

/// Size in bytes of a description header.
pub const DESCRIPTION_HEADER_SIZE: usize = 36;

/// All system description tables begin with this structure; its
/// `signature` determines the content of the table.
#[derive(Clone, Copy, Debug, PartialEq, Eq)]
pub struct DescriptionHeader {
    /// The ASCII string that identifies the table.
    pub signature: [u8; 4],
    /// Length of the table in bytes, the header included.
    pub length: u32,
    /// Revision of the structure that the signature names.
    pub revision: u8,
    /// Set so that the bytes of the entire table add to zero.
    pub checksum: u8,
    /// Identifies the OEM.
    pub oemid: [u8; 6],
    /// Identifies the table to the OEM.
    pub oem_table_id: [u8; 8],
    /// Revision number that the OEM supplies.
    pub oem_revision: u32,
    /// Vendor of the utility that created the table.
    pub creator_id: u32,
    /// Revision of the utility that created the table.
    pub creator_revision: u32,
}

impl DescriptionHeader {
    /// The header stored in the first 36 bytes of `s`.
    pub open spec fn decode(s: Seq<u8>) -> DescriptionHeader {
        DescriptionHeader {
            signature: tag4(s, 0),
            length: le_u32(s, 4),
            revision: s[8],
            checksum: s[9],
            oemid: tag6(s, 10),
            oem_table_id: tag8(s, 16),
            oem_revision: le_u32(s, 24),
            creator_id: le_u32(s, 28),
            creator_revision: le_u32(s, 32),
        }
    }

    /// What reading a header at `addr` gives: the 36 bytes there, decoded,
    /// unless they are not all readable or the length they declare is
    /// smaller than the header itself.
    pub open spec fn parse(mem: PhysMem, addr: u64) -> Result<DescriptionHeader, EfiError> {
        if !mem.covers(addr, 36) {
            Err(EfiError::OutOfBounds)
        } else if Self::decode(mem.span(addr, 36)).length < 36 {
            Err(EfiError::Validation)
        } else {
            Ok(Self::decode(mem.span(addr, 36)))
        }
    }

    /// Reads the header of the table at `addr`.
    pub fn from_addr(mem: &PhysMem, addr: u64) -> (r: Result<Self, EfiError>)
        ensures
            r == Self::parse(*mem, addr),
    {
        let s = match mem.slice(addr, DESCRIPTION_HEADER_SIZE) {
            Some(s) => s,
            None => {
                return Err(EfiError::OutOfBounds);
            },
        };
        let header = DescriptionHeader {
            signature: tag4_at(s, 0),
            length: u32_at(s, 4),
            revision: s[8],
            checksum: s[9],
            oemid: tag6_at(s, 10),
            oem_table_id: tag8_at(s, 16),
            oem_revision: u32_at(s, 24),
            creator_id: u32_at(s, 28),
            creator_revision: u32_at(s, 32),
        };
        if header.length < 36 {
            return Err(EfiError::Validation);
        }
        Ok(header)
    }

    /// Whether the table is signed with `tag`.
    pub fn has_signature(&self, tag: &[u8; 4]) -> (r: bool)
        ensures
            r <==> self.signature == *tag,
    {
        let r = self.signature[0] == tag[0] && self.signature[1] == tag[1] && self.signature[2]
            == tag[2] && self.signature[3] == tag[3];
        assert(r <==> self.signature =~= *tag);
        r
    }
}

} // verus!
