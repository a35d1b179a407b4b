//! The 64-byte legacy DOS header that opens every image: its last field is
//! the file offset of the new-style header.

use crate::err::Error;
use crate::stream::array_val_wf;
use crate::stream::gen_val_wf;
use crate::stream::ArrayVal;
use crate::stream::ByteStream;
use crate::stream::SimpleVal;
use vstd::prelude::*;

verus! {

/// The header's size in bytes.
pub const DOS_HEADER_SIZE: usize = 64;

#[derive(Debug, Clone, PartialEq, Eq)]
pub struct DosHeader {
    pub mz_sig: SimpleVal<u16>,
    pub used_bytes_in_last_page: SimpleVal<u16>,
    pub file_size_in_pages: SimpleVal<u16>,
    pub num_of_reloc_items: SimpleVal<u16>,
    pub header_size_in_paragraphs: SimpleVal<u16>,
    pub min_extra_paragraphs: SimpleVal<u16>,
    pub max_extra_paragraphs: SimpleVal<u16>,
    pub initial_relative_ss: SimpleVal<u16>,
    pub initial_sp: SimpleVal<u16>,
    pub checksum: SimpleVal<u16>,
    pub initial_ip: SimpleVal<u16>,
    pub initial_relative_cs: SimpleVal<u16>,
    pub addr_of_reloc_table: SimpleVal<u16>,
    pub overlay_number: SimpleVal<u16>,
    pub reserved_0: ArrayVal<8>,
    pub oem_id: SimpleVal<u16>,
    pub oem_info: SimpleVal<u16>,
    pub reserved_1: ArrayVal<20>,
    pub addr_of_new_exe_hdr: SimpleVal<u32>,
}

/// Every field of `h` was decoded from `data` at its fixed offset from
/// `base`, in declaration order: field declaration order is byte order.
pub open spec fn dos_header_wf(h: DosHeader, data: Seq<u8>, base: int) -> bool {
    &&& gen_val_wf(h.mz_sig, data, base + 0x00)
    &&& gen_val_wf(h.used_bytes_in_last_page, data, base + 0x02)
    &&& gen_val_wf(h.file_size_in_pages, data, base + 0x04)
    &&& gen_val_wf(h.num_of_reloc_items, data, base + 0x06)
    &&& gen_val_wf(h.header_size_in_paragraphs, data, base + 0x08)
    &&& gen_val_wf(h.min_extra_paragraphs, data, base + 0x0A)
    &&& gen_val_wf(h.max_extra_paragraphs, data, base + 0x0C)
    &&& gen_val_wf(h.initial_relative_ss, data, base + 0x0E)
    &&& gen_val_wf(h.initial_sp, data, base + 0x10)
    &&& gen_val_wf(h.checksum, data, base + 0x12)
    &&& gen_val_wf(h.initial_ip, data, base + 0x14)
    &&& gen_val_wf(h.initial_relative_cs, data, base + 0x16)
    &&& gen_val_wf(h.addr_of_reloc_table, data, base + 0x18)
    &&& gen_val_wf(h.overlay_number, data, base + 0x1A)
    &&& array_val_wf(h.reserved_0, data, base + 0x1C)
    &&& gen_val_wf(h.oem_id, data, base + 0x24)
    &&& gen_val_wf(h.oem_info, data, base + 0x26)
    &&& array_val_wf(h.reserved_1, data, base + 0x28)
    &&& gen_val_wf(h.addr_of_new_exe_hdr, data, base + 0x3C)
}

impl DosHeader {
    /// Decodes the header's fields strictly left to right from the
    /// stream's cursor, leaving the cursor just past the 64th byte.
    pub fn new(s: &mut ByteStream) -> (r: Result<DosHeader, Error>)
        ensures
            final(s).bytes() == old(s).bytes(),
            r is Ok <==> old(s).pos() + DOS_HEADER_SIZE <= old(s).bytes().len(),
            r is Ok ==> dos_header_wf(r->Ok_0, old(s).bytes(), old(s).pos()),
            r is Ok ==> final(s).pos() == old(s).pos() + DOS_HEADER_SIZE,
            r is Err ==> old(s).pos() <= final(s).pos() <= old(s).pos() + DOS_HEADER_SIZE,
            r is Err ==> r->Err_0 is ReadFailure,
    {
        let mz_sig: SimpleVal<u16> = SimpleVal::new(s)?;
        let used_bytes_in_last_page: SimpleVal<u16> = SimpleVal::new(s)?;
        let file_size_in_pages: SimpleVal<u16> = SimpleVal::new(s)?;
        let num_of_reloc_items: SimpleVal<u16> = SimpleVal::new(s)?;
        let header_size_in_paragraphs: SimpleVal<u16> = SimpleVal::new(s)?;
        let min_extra_paragraphs: SimpleVal<u16> = SimpleVal::new(s)?;
        let max_extra_paragraphs: SimpleVal<u16> = SimpleVal::new(s)?;
        let initial_relative_ss: SimpleVal<u16> = SimpleVal::new(s)?;
        let initial_sp: SimpleVal<u16> = SimpleVal::new(s)?;
        let checksum: SimpleVal<u16> = SimpleVal::new(s)?;
        let initial_ip: SimpleVal<u16> = SimpleVal::new(s)?;
        let initial_relative_cs: SimpleVal<u16> = SimpleVal::new(s)?;
        let addr_of_reloc_table: SimpleVal<u16> = SimpleVal::new(s)?;
        let overlay_number: SimpleVal<u16> = SimpleVal::new(s)?;
        let reserved_0: ArrayVal<8> = ArrayVal::new(s)?;
        let oem_id: SimpleVal<u16> = SimpleVal::new(s)?;
        let oem_info: SimpleVal<u16> = SimpleVal::new(s)?;
        let reserved_1: ArrayVal<20> = ArrayVal::new(s)?;
        let addr_of_new_exe_hdr: SimpleVal<u32> = SimpleVal::new(s)?;
        Ok(
            DosHeader {
                mz_sig,
                used_bytes_in_last_page,
                file_size_in_pages,
                num_of_reloc_items,
                header_size_in_paragraphs,
                min_extra_paragraphs,
                max_extra_paragraphs,
                initial_relative_ss,
                initial_sp,
                checksum,
                initial_ip,
                initial_relative_cs,
                addr_of_reloc_table,
                overlay_number,
                reserved_0,
                oem_id,
                oem_info,
                reserved_1,
                addr_of_new_exe_hdr,
            },
        )
    }
}

} // verus!
