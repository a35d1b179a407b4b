//! A section header: a named, page-aligned region of the image with
//! distinct virtual and on-disk extents. The table of these, in on-disk
//! order, immediately follows the optional header.

use crate::err::Error;
use crate::stream::array_val_wf;
use crate::stream::gen_val_wf;
use crate::stream::ArrayVal;
use crate::stream::ByteStream;
use crate::stream::SimpleVal;
use vstd::prelude::*;

verus! {

/// Size of one section header in bytes.
pub const SECTION_HEADER_SIZE: usize = 40;

#[derive(Debug, Clone, PartialEq, Eq)]
pub struct SectionHeader {
    pub name: ArrayVal<8>,
    pub virt_size: SimpleVal<u32>,
    pub virt_addr: SimpleVal<u32>,
    pub size_of_raw_data: SimpleVal<u32>,
    pub ptr_to_raw_data: SimpleVal<u32>,
    pub ptr_to_relocs: SimpleVal<u32>,
    pub ptr_to_line_nums: SimpleVal<u32>,
    pub num_of_relocs: SimpleVal<u16>,
    pub num_of_line_nums: SimpleVal<u16>,
    pub characteristics: SimpleVal<u32>,
}

/// Every field of `h` was decoded from `data` at its fixed offset from
/// `base`, in declaration order.
pub open spec fn section_header_wf(h: SectionHeader, data: Seq<u8>, base: int) -> bool {
    &&& array_val_wf(h.name, data, base + 0)
    &&& gen_val_wf(h.virt_size, data, base + 8)
    &&& gen_val_wf(h.virt_addr, data, base + 12)
    &&& gen_val_wf(h.size_of_raw_data, data, base + 16)
    &&& gen_val_wf(h.ptr_to_raw_data, data, base + 20)
    &&& gen_val_wf(h.ptr_to_relocs, data, base + 24)
    &&& gen_val_wf(h.ptr_to_line_nums, data, base + 28)
    &&& gen_val_wf(h.num_of_relocs, data, base + 32)
    &&& gen_val_wf(h.num_of_line_nums, data, base + 34)
    &&& gen_val_wf(h.characteristics, data, base + 36)
}

impl SectionHeader {
    /// Decodes one 40-byte section header strictly left to right from the
    /// stream's cursor.
    pub fn new(s: &mut ByteStream) -> (r: Result<SectionHeader, Error>)
        ensures
            final(s).bytes() == old(s).bytes(),
            r is Ok <==> old(s).pos() + SECTION_HEADER_SIZE <= old(s).bytes().len(),
            r is Ok ==> section_header_wf(r->Ok_0, old(s).bytes(), old(s).pos()),
            r is Ok ==> final(s).pos() == old(s).pos() + SECTION_HEADER_SIZE,
            r is Err ==> old(s).pos() <= final(s).pos() <= old(s).pos() + SECTION_HEADER_SIZE,
            r is Err ==> r->Err_0 is ReadFailure,
    {
        let name: ArrayVal<8> = ArrayVal::new(s)?;
        let virt_size: SimpleVal<u32> = SimpleVal::new(s)?;
        let virt_addr: SimpleVal<u32> = SimpleVal::new(s)?;
        let size_of_raw_data: SimpleVal<u32> = SimpleVal::new(s)?;
        let ptr_to_raw_data: SimpleVal<u32> = SimpleVal::new(s)?;
        let ptr_to_relocs: SimpleVal<u32> = SimpleVal::new(s)?;
        let ptr_to_line_nums: SimpleVal<u32> = SimpleVal::new(s)?;
        let num_of_relocs: SimpleVal<u16> = SimpleVal::new(s)?;
        let num_of_line_nums: SimpleVal<u16> = SimpleVal::new(s)?;
        let characteristics: SimpleVal<u32> = SimpleVal::new(s)?;
        Ok(
            SectionHeader {
                name,
                virt_size,
                virt_addr,
                size_of_raw_data,
                ptr_to_raw_data,
                ptr_to_relocs,
                ptr_to_line_nums,
                num_of_relocs,
                num_of_line_nums,
                characteristics,
            },
        )
    }
}

} // verus!
