//! A base-relocation block: a per-page list of fixups applied when an image
//! loads at a base address other than its preferred one. The block is an
//! 8-byte header (page address, block size in bytes including the header)
//! followed by `(block_size - 8) / 2` two-byte type/offset pairs: the high
//! 4 bits select the relocation type, the low 12 bits are the intra-page
//! offset.

use crate::err::Error;
use crate::stream::gen_val_wf;
use crate::stream::u32_le_at;
use crate::stream::ByteStream;
use crate::stream::GenVal;
use vstd::prelude::*;

verus! {

/// The relocation kinds the model covers; the remaining kinds of the
/// format are outside its scope.
#[derive(Debug, Clone, Copy, PartialEq, Eq, Structural)]
pub enum RelocationType {
    ImageRelBasedAbsolute,
    ImageRelBasedHigh,
    ImageRelBasedLow,
    ImageRelBasedHighLow,
    ImageRelBasedHighAdj,
    ImageRelBasedMipsJmpAddr,
}

/// The relocation kind that the 4-bit selector `reloc_type` names.
pub open spec fn spec_reloc_type(reloc_type: u8) -> RelocationType {
    if reloc_type == 0 {
        RelocationType::ImageRelBasedAbsolute
    } else if reloc_type == 1 {
        RelocationType::ImageRelBasedHigh
    } else if reloc_type == 2 {
        RelocationType::ImageRelBasedLow
    } else if reloc_type == 3 {
        RelocationType::ImageRelBasedHighLow
    } else if reloc_type == 4 {
        RelocationType::ImageRelBasedHighAdj
    } else {
        RelocationType::ImageRelBasedMipsJmpAddr
    }
}

impl RelocationType {
    /// The kind that `reloc_type` selects. Selectors above 5 name kinds
    /// outside the model's scope and are excluded by precondition.
    pub fn new(reloc_type: u8) -> (r: RelocationType)
        requires
            reloc_type <= 5,
        ensures
            r == spec_reloc_type(reloc_type),
    {
        if reloc_type == 0 {
            RelocationType::ImageRelBasedAbsolute
        } else if reloc_type == 1 {
            RelocationType::ImageRelBasedHigh
        } else if reloc_type == 2 {
            RelocationType::ImageRelBasedLow
        } else if reloc_type == 3 {
            RelocationType::ImageRelBasedHighLow
        } else if reloc_type == 4 {
            RelocationType::ImageRelBasedHighAdj
        } else {
            RelocationType::ImageRelBasedMipsJmpAddr
        }
    }
}

/// A decoded base-relocation block: the page's virtual address, the block
/// size, and the type/offset pairs, each remembering its stream offset.
#[derive(Debug, Clone, PartialEq, Eq)]
pub struct Relocations {
    pub virt_addr: GenVal<u32>,
    pub size_of_block: GenVal<u32>,
    pub block: Vec<GenVal<u16>>,
}

/// The block at `base` in `data` can be decoded whole: its 8-byte header is
/// present, the size it declares covers at least that header, and all its
/// entries lie within `data`.
pub open spec fn relocations_parse_ok(data: Seq<u8>, base: int) -> bool {
    &&& base + 8 <= data.len()
    &&& u32_le_at(data, base + 4) >= 8
    &&& base + 8 + 2 * ((u32_le_at(data, base + 4) - 8) / 2) <= data.len()
}

/// `r` is the decoding of the block at `base` in `data`: header fields at
/// their offsets, and entry `i` at `base + 8 + 2 * i`.
pub open spec fn relocations_wf(r: Relocations, data: Seq<u8>, base: int) -> bool {
    &&& gen_val_wf(r.virt_addr, data, base)
    &&& gen_val_wf(r.size_of_block, data, base + 4)
    &&& r.size_of_block.val >= 8
    &&& r.block@.len() == (r.size_of_block.val - 8) / 2
    &&& forall|i: int|
        0 <= i < r.block@.len() ==> gen_val_wf(#[trigger] r.block@[i], data, base + 8 + 2 * i)
}

impl Relocations {
    /// Decodes the block at the stream's cursor: the two header fields,
    /// then `(block_size - 8) / 2` entries, strictly left to right. Fails
    /// when bytes run out, or when the declared block size is smaller than
    /// the 8-byte header it includes.
    pub fn new(reader: &mut ByteStream) -> (r: Result<Relocations, Error>)
        ensures
            final(reader).bytes() == old(reader).bytes(),
            r is Ok <==> relocations_parse_ok(old(reader).bytes(), old(reader).pos()),
            r is Ok ==> relocations_wf(r->Ok_0, old(reader).bytes(), old(reader).pos()),
            r is Ok ==> final(reader).pos() == old(reader).pos() + 8 + 2 * ((u32_le_at(
                old(reader).bytes(),
                old(reader).pos() + 4,
            ) - 8) / 2),
            r is Err ==> old(reader).pos() <= final(reader).pos(),
            r is Err ==> r->Err_0 is ReadFailure,
    {
        let ghost data = old(reader).bytes();
        let ghost base = old(reader).pos();
        let virt_addr: GenVal<u32> = GenVal::new(reader)?;
        let size_of_block: GenVal<u32> = GenVal::new(reader)?;
        if *size_of_block.get_ref() < 8 {
            return Err(Error::ReadFailure { offset: size_of_block.offset });
        }
        let entry_count: usize = ((*size_of_block.get_ref() - 8) / 2) as usize;
        let mut block: Vec<GenVal<u16>> = Vec::new();
        let mut i: usize = 0;
        while i < entry_count
            invariant
                data == old(reader).bytes(),
                base == old(reader).pos(),
                reader.bytes() == data,
                reader.pos() == base + 8 + 2 * i,
                0 <= i <= entry_count,
                entry_count == (u32_le_at(data, base + 4) - 8) / 2,
                u32_le_at(data, base + 4) >= 8,
                base + 8 + 2 * i <= data.len(),
                gen_val_wf(virt_addr, data, base),
                gen_val_wf(size_of_block, data, base + 4),
                size_of_block.val >= 8,
                block@.len() == i,
                forall|j: int|
                    0 <= j < i ==> gen_val_wf(#[trigger] block@[j], data, base + 8 + 2 * j),
            decreases entry_count - i,
        {
            let e: GenVal<u16> = GenVal::new(reader)?;
            block.push(e);
            i = i + 1;
        }
        Ok(Relocations { virt_addr, size_of_block, block })
    }

    /// The relocation kind selected by the high 4 bits of a type/offset
    /// pair. Selectors above 5 are outside the model's scope.
    pub fn to_type(type_offset_pair: u16) -> (r: RelocationType)
        requires
            type_offset_pair >> 12 <= 5,
        ensures
            r == spec_reloc_type((type_offset_pair >> 12) as u8),
    {
        proof {
            assert((type_offset_pair & 0xF000) >> 12 == type_offset_pair >> 12
                && type_offset_pair >> 12 <= 15) by (bit_vector);
        }
        RelocationType::new(((type_offset_pair & 0xF000) >> 12) as u8)
    }

    /// The intra-page offset in the low 12 bits of a type/offset pair.
    pub fn to_offset(type_offset_pair: u16) -> (r: u16)
        ensures
            r == type_offset_pair & 0xFFF,
    {
        type_offset_pair & 0xFFF
    }
}

} // verus!
