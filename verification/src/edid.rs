//! Finding the CEC physical address of a display in its EDID: the address
//! stands in the HDMI vendor-specific data block of a CTA extension block.
//!
//! The scan is permissive: many displays ship EDIDs that break the letter of
//! the standard, so only what is needed to find the block is checked.

use crate::address::PhysicalAddress;
use vstd::prelude::*;

verus! {

/// The length of an EDID block.
pub const EDID_BLOCK_LEN: usize = 128;

/// Whether the three bytes at `i` are the IEEE OUI of HDMI Licensing,
/// 00-0C-03, least significant byte first.
pub open spec fn is_hdmi_oui_at(edid: Seq<u8>, i: int) -> bool {
    &&& edid[i] == 0x03
    &&& edid[i + 1] == 0x0C
    &&& edid[i + 2] == 0x00
}

/// The number of bytes of the data block whose header byte is `header`,
/// header included.
pub open spec fn data_block_size(header: u8) -> int {
    (header & 0x1Fu8) + 1
}

/// Whether a data block header marks a vendor-specific data block.
pub open spec fn is_vendor_block(header: u8) -> bool {
    header & 0xE0u8 == 0x60u8
}

/// The physical address held by the vendor-specific data block at `offset`.
pub open spec fn address_at(edid: Seq<u8>, offset: int) -> PhysicalAddress {
    PhysicalAddress((edid[offset + 4] * 256 + edid[offset + 5]) as u16)
}

/// The address found by scanning the data blocks of an extension block from
/// `offset`, stopping before `end`: blocks shorter than six bytes and blocks
/// that are not the HDMI vendor-specific data block are stepped over, and a
/// block that runs past `end` ends the scan.
pub open spec fn scan_data_blocks(edid: Seq<u8>, offset: int, end: int) -> Option<PhysicalAddress>
    decreases if offset < end {
        end - offset
    } else {
        0
    },
{
    if !(offset + 1 < edid.len() && offset < end) {
        None
    } else {
        let header = edid[offset];
        let size = data_block_size(header);
        if size < 6 {
            scan_data_blocks(edid, offset + size, end)
        } else if offset + size > end {
            None
        } else if !is_vendor_block(header) || !is_hdmi_oui_at(edid, offset + 1) {
            scan_data_blocks(edid, offset + size, end)
        } else {
            Some(address_at(edid, offset))
        }
    }
}

/// Where the data blocks of the extension block at `block` end: at the
/// offset that its third byte gives, when that is at least 4 and at most
/// 127, and otherwise at the block's last byte.
pub open spec fn data_blocks_end(edid: Seq<u8>, block: int) -> int {
    let d = edid[block + 2];
    block + if d >= 4 {
        if d <= 127 {
            d as int
        } else {
            127
        }
    } else {
        127
    }
}

/// Whether the extension block at `block` is skipped: it is neither tagged
/// as a CTA block nor of CTA revision 3 or newer.
pub open spec fn is_skipped_block(edid: Seq<u8>, block: int) -> bool {
    edid[block] != 2 && edid[block + 1] < 3
}

/// The address found in the extension blocks from `block` on: the first
/// extension block, in order, whose data blocks yield an address.
pub open spec fn scan_extension_blocks(edid: Seq<u8>, block: nat) -> Option<PhysicalAddress>
    decreases edid.len() - block,
{
    if block + 128 > edid.len() {
        None
    } else if is_skipped_block(edid, block as int) {
        scan_extension_blocks(edid, block + 128)
    } else {
        match scan_data_blocks(edid, block + 4int, data_blocks_end(edid, block as int)) {
            Some(pa) => Some(pa),
            None => scan_extension_blocks(edid, block + 128),
        }
    }
}

/// The physical address that an EDID announces: the scan starts after the
/// base block, at the first extension block.
pub open spec fn edid_physical_address(edid: Seq<u8>) -> Option<PhysicalAddress> {
    scan_extension_blocks(edid, 128)
}

/// Whether the data block at `o` is an HDMI vendor-specific data block of at
/// least six bytes that ends by `end` and holds the address `pa`.
pub open spec fn is_hdmi_block_at(edid: Seq<u8>, o: int, end: int, pa: PhysicalAddress) -> bool {
    &&& 0 <= o
    &&& is_vendor_block(edid[o])
    &&& data_block_size(edid[o]) >= 6
    &&& o + data_block_size(edid[o]) <= end
    &&& is_hdmi_oui_at(edid, o + 1)
    &&& pa == address_at(edid, o)
}

/// An address found among the data blocks from `offset` stands in an HDMI
/// vendor-specific data block at or after `offset`.
proof fn lemma_scan_data_blocks_found(edid: Seq<u8>, offset: int, end: int, pa: PhysicalAddress)
    requires
        scan_data_blocks(edid, offset, end) == Some(pa),
        offset >= 0,
    ensures
        exists|o: int| offset <= o && #[trigger] is_hdmi_block_at(edid, o, end, pa),
    decreases
            if offset < end {
                end - offset
            } else {
                0
            },
{
    let header = edid[offset];
    let size = data_block_size(header);
    assert(header & 0x1Fu8 <= 31) by (bit_vector);
    if size < 6 || !is_vendor_block(header) || !is_hdmi_oui_at(edid, offset + 1) {
        lemma_scan_data_blocks_found(edid, offset + size, end, pa);
        let o = choose|o: int| offset + size <= o && #[trigger] is_hdmi_block_at(edid, o, end, pa);
        assert(offset <= o && is_hdmi_block_at(edid, o, end, pa));
    } else {
        assert(is_hdmi_block_at(edid, offset, end, pa));
    }
}

/// Where an address that an EDID announces stands: in an HDMI
/// vendor-specific data block of at least six bytes, inside the data blocks
/// of a CTA extension block (one tagged as CTA or of revision 3 or newer)
/// that lies whole in the EDID, past the base block and at a multiple of 128
/// bytes; the address is the block's fifth and sixth bytes.
pub proof fn lemma_edid_address_found(edid: Seq<u8>, pa: PhysicalAddress)
    requires
        edid_physical_address(edid) == Some(pa),
    ensures
        exists|b: int, o: int|
            {
                &&& b >= 128
                &&& b % 128 == 0
                &&& b + 128 <= edid.len()
                &&& !is_skipped_block(edid, b)
                &&& b + 4 <= o
                &&& #[trigger] is_hdmi_block_at(edid, o, data_blocks_end(edid, b), pa)
            },
{
    lemma_scan_extension_blocks_found(edid, 128, pa);
}

/// An address found in the extension blocks from `block` on stands in one of
/// them.
proof fn lemma_scan_extension_blocks_found(edid: Seq<u8>, block: nat, pa: PhysicalAddress)
    requires
        scan_extension_blocks(edid, block) == Some(pa),
        block % 128 == 0,
        block >= 128,
    ensures
        exists|b: int, o: int|
            {
                &&& b >= 128
                &&& b % 128 == 0
                &&& b + 128 <= edid.len()
                &&& !is_skipped_block(edid, b)
                &&& b + 4 <= o
                &&& #[trigger] is_hdmi_block_at(edid, o, data_blocks_end(edid, b), pa)
            },
    decreases edid.len() - block,
{
    if is_skipped_block(edid, block as int) {
        lemma_scan_extension_blocks_found(edid, block + 128, pa);
    } else {
        match scan_data_blocks(edid, block + 4int, data_blocks_end(edid, block as int)) {
            Some(found) => {
                lemma_scan_data_blocks_found(edid, block + 4int, data_blocks_end(edid, block as int), pa);
                let o = choose|o: int|
                    block + 4 <= o && #[trigger] is_hdmi_block_at(
                        edid,
                        o,
                        data_blocks_end(edid, block as int),
                        pa,
                    );
                assert(is_hdmi_block_at(edid, o, data_blocks_end(edid, block as int), pa));
            },
            None => {
                lemma_scan_extension_blocks_found(edid, block + 128, pa);
            },
        }
    }
}

/// The scan of data blocks from `offset` is the same whether it starts at an
/// offset at or past `end` or at `end` itself: it finds nothing.
proof fn lemma_scan_past_end(edid: Seq<u8>, offset: int, end: int)
    requires
        offset >= end,
    ensures
        scan_data_blocks(edid, offset, end) is None,
{
}

/// Scans the data blocks from `offset` up to `end`, as
/// [`scan_data_blocks`] describes.
fn find_in_data_blocks(edid: &[u8], start: usize, end: usize) -> (r: Option<PhysicalAddress>)
    requires
        end < edid@.len(),
        start <= end,
    ensures
        r == scan_data_blocks(edid@, start as int, end as int),
{
    let mut offset = start;
    while offset < end && edid.len() - offset > 1
        invariant
            end < edid@.len(),
            offset <= end,
            scan_data_blocks(edid@, offset as int, end as int) == scan_data_blocks(
                edid@,
                start as int,
                end as int,
            ),
        decreases end - offset,
    {
        let header = edid[offset];
        assert(header & 0x1Fu8 <= 31) by (bit_vector);
        let size = ((header & 0x1F) + 1) as usize;
        assert(size == data_block_size(header));
        if size < 6 {
            if size >= end - offset {
                proof {
                    lemma_scan_past_end(edid@, offset + size, end as int);
                }
                offset = end;
            } else {
                offset = offset + size;
            }
            continue;
        }
        if size > end - offset {
            return None;
        }
        if (header & 0xE0) != 0x60 || edid[offset + 1] != 0x03 || edid[offset + 2] != 0x0C
            || edid[offset + 3] != 0x00 {
            offset = offset + size;
            continue;
        }
        let high = edid[offset + 4] as u16;
        let low = edid[offset + 5] as u16;
        assert(high * 256 + low <= 0xFFFF) by (nonlinear_arith)
            requires
                high <= 255,
                low <= 255,
        ;
        return Some(PhysicalAddress(high * 256 + low));
    }
    None
}

/// The physical address that an EDID announces in the HDMI vendor-specific
/// data block of one of its CTA extension blocks, if any.
///
/// The base block is passed over. Extension blocks are visited in order;
/// one that is neither tagged as a CTA block nor of revision 3 or newer is
/// skipped. In the others the data blocks are walked until the first HDMI
/// vendor-specific data block of at least six bytes, whose fifth and sixth
/// bytes hold the address.
pub fn parse_hdmi_edid_pa(edid: &[u8]) -> (r: Option<PhysicalAddress>)
    ensures
        r == edid_physical_address(edid@),
{
    let mut block: usize = EDID_BLOCK_LEN;
    while block <= edid.len() && edid.len() - block >= EDID_BLOCK_LEN
        invariant
            block >= 128,
            scan_extension_blocks(edid@, block as nat) == edid_physical_address(edid@),
        decreases edid@.len() - block,
    {
        if edid[block] != 2 && edid[block + 1] < 3 {
            block = block + EDID_BLOCK_LEN;
            continue;
        }
        let declared = edid[block + 2];
        let end = block + if declared >= 4 {
            if declared <= 127 {
                declared as usize
            } else {
                127
            }
        } else {
            127
        };
        assert(end as int == data_blocks_end(edid@, block as int));
        match find_in_data_blocks(edid, block + 4, end) {
            Some(pa) => {
                return Some(pa);
            },
            None => {},
        }
        block = block + EDID_BLOCK_LEN;
    }
    None
}

} // verus!
