//! The new-style header: a 4-byte signature, the file header, and the
//! optional header with its 16 fixed data-directory slots.

use crate::err::Error;
use crate::stream::gen_val_wf;
use crate::stream::ByteStream;
use crate::stream::SimpleVal;
use vstd::prelude::*;

verus! {

/// Size of the file header in bytes.
pub const FILE_HEADER_SIZE: usize = 20;

/// Size of the optional header's scalar fields in bytes; the data-directory
/// slots follow and are populated separately by the caller.
pub const OPT_HEADER_SIZE: usize = 112;

/// Size of the whole new-style header in bytes, data directories excluded.
pub const NT_HEADER_SIZE: usize = 136;

/// Number of fixed data-directory slots.
pub const NUM_DATA_DIRS: usize = 16;

/// Size of one data-directory entry in bytes.
pub const DATA_DIR_SIZE: usize = 8;

#[derive(Debug, Clone, PartialEq, Eq)]
pub struct NtHeader {
    pub sig: SimpleVal<u32>,
    pub file_hdr: FileHeader,
    pub opt_hdr: OptHeader,
}

#[derive(Debug, Clone, PartialEq, Eq)]
pub struct FileHeader {
    pub machine: SimpleVal<u16>,
    pub num_of_secs: SimpleVal<u16>,
    pub time_data_stamp: SimpleVal<u32>,
    pub ptr_to_symbol_table: SimpleVal<u32>,
    pub num_of_symbols: SimpleVal<u32>,
    pub opt_hdr_size: SimpleVal<u16>,
    pub file_characteristics: SimpleVal<u16>,
}

#[derive(Debug, Clone, PartialEq, Eq)]
pub struct OptHeader {
    pub magic: SimpleVal<u16>,
    pub major_linker_ver: SimpleVal<u8>,
    pub minor_linker_ver: SimpleVal<u8>,
    pub size_of_code: SimpleVal<u32>,
    pub size_of_init_data: SimpleVal<u32>,
    pub size_of_uninit_data: SimpleVal<u32>,
    pub addr_of_entrypoint: SimpleVal<u32>,
    pub base_of_code: SimpleVal<u32>,
    pub image_base: SimpleVal<u64>,
    pub sec_alignment: SimpleVal<u32>,
    pub file_alignment: SimpleVal<u32>,
    pub major_os_ver: SimpleVal<u16>,
    pub minor_os_ver: SimpleVal<u16>,
    pub major_image_ver: SimpleVal<u16>,
    pub minor_image_ver: SimpleVal<u16>,
    pub major_subsystem_ver: SimpleVal<u16>,
    pub minor_subsystem_ver: SimpleVal<u16>,
    pub win32_ver_val: SimpleVal<u32>,
    pub size_of_image: SimpleVal<u32>,
    pub size_of_hdrs: SimpleVal<u32>,
    pub checksum: SimpleVal<u32>,
    pub subsystem: SimpleVal<u16>,
    pub dll_characteristics: SimpleVal<u16>,
    pub size_of_stack_reservee: SimpleVal<u64>,
    pub size_of_stack_commit: SimpleVal<u64>,
    pub size_of_heap_reserve: SimpleVal<u64>,
    pub size_of_heap_commit: SimpleVal<u64>,
    pub loader_flags: SimpleVal<u32>,
    pub num_of_rva_and_sizes: SimpleVal<u32>,
    pub data_dirs: DataDirectories,
}

/// The 16 fixed data-directory slots, keyed by the format's enumeration.
/// A slot consumes no bytes at decode time: it starts out absent, and the
/// caller populates it afterwards from the directory count it read, since
/// the on-disk zero/zero pair for "absent" must be translated explicitly
/// into the optional-value convention.
#[derive(Debug, Clone, PartialEq, Eq)]
pub struct DataDirectories {
    pub export: Option<DataDirectory>,
    pub import: Option<DataDirectory>,
    pub resource: Option<DataDirectory>,
    pub exception: Option<DataDirectory>,
    pub security: Option<DataDirectory>,
    pub base_reloc: Option<DataDirectory>,
    pub debug: Option<DataDirectory>,
    pub architecture: Option<DataDirectory>,
    pub global_ptr: Option<DataDirectory>,
    pub tls: Option<DataDirectory>,
    pub load_config: Option<DataDirectory>,
    pub bound_import: Option<DataDirectory>,
    pub iat: Option<DataDirectory>,
    pub delay_import: Option<DataDirectory>,
    pub com_descriptor: Option<DataDirectory>,
    pub reserved: Option<DataDirectory>,
}

/// A data-directory entry: the virtual address and size of one optional
/// metadata table.
#[derive(Debug, Clone, PartialEq, Eq)]
pub struct DataDirectory {
    pub virt_addr: SimpleVal<u32>,
    pub size: SimpleVal<u32>,
}

/// Every field of `h` was decoded from `data` at its fixed offset from
/// `base`, in declaration order.
pub open spec fn file_header_wf(h: FileHeader, data: Seq<u8>, base: int) -> bool {
    &&& gen_val_wf(h.machine, data, base + 0)
    &&& gen_val_wf(h.num_of_secs, data, base + 2)
    &&& gen_val_wf(h.time_data_stamp, data, base + 4)
    &&& gen_val_wf(h.ptr_to_symbol_table, data, base + 8)
    &&& gen_val_wf(h.num_of_symbols, data, base + 12)
    &&& gen_val_wf(h.opt_hdr_size, data, base + 16)
    &&& gen_val_wf(h.file_characteristics, data, base + 18)
}

/// Every scalar field of `h` was decoded from `data` at its fixed offset
/// from `base`, in declaration order. The data-directory slots consume no
/// bytes and are not constrained here: decoding leaves them absent, and the
/// caller populates them afterwards.
pub open spec fn opt_header_wf(h: OptHeader, data: Seq<u8>, base: int) -> bool {
    &&& gen_val_wf(h.magic, data, base + 0)
    &&& gen_val_wf(h.major_linker_ver, data, base + 2)
    &&& gen_val_wf(h.minor_linker_ver, data, base + 3)
    &&& gen_val_wf(h.size_of_code, data, base + 4)
    &&& gen_val_wf(h.size_of_init_data, data, base + 8)
    &&& gen_val_wf(h.size_of_uninit_data, data, base + 12)
    &&& gen_val_wf(h.addr_of_entrypoint, data, base + 16)
    &&& gen_val_wf(h.base_of_code, data, base + 20)
    &&& gen_val_wf(h.image_base, data, base + 24)
    &&& gen_val_wf(h.sec_alignment, data, base + 32)
    &&& gen_val_wf(h.file_alignment, data, base + 36)
    &&& gen_val_wf(h.major_os_ver, data, base + 40)
    &&& gen_val_wf(h.minor_os_ver, data, base + 42)
    &&& gen_val_wf(h.major_image_ver, data, base + 44)
    &&& gen_val_wf(h.minor_image_ver, data, base + 46)
    &&& gen_val_wf(h.major_subsystem_ver, data, base + 48)
    &&& gen_val_wf(h.minor_subsystem_ver, data, base + 50)
    &&& gen_val_wf(h.win32_ver_val, data, base + 52)
    &&& gen_val_wf(h.size_of_image, data, base + 56)
    &&& gen_val_wf(h.size_of_hdrs, data, base + 60)
    &&& gen_val_wf(h.checksum, data, base + 64)
    &&& gen_val_wf(h.subsystem, data, base + 68)
    &&& gen_val_wf(h.dll_characteristics, data, base + 70)
    &&& gen_val_wf(h.size_of_stack_reservee, data, base + 72)
    &&& gen_val_wf(h.size_of_stack_commit, data, base + 80)
    &&& gen_val_wf(h.size_of_heap_reserve, data, base + 88)
    &&& gen_val_wf(h.size_of_heap_commit, data, base + 96)
    &&& gen_val_wf(h.loader_flags, data, base + 104)
    &&& gen_val_wf(h.num_of_rva_and_sizes, data, base + 108)
}

/// The signature and both sub-headers of `h` were decoded from `data` in
/// declaration order starting at `base`.
pub open spec fn nt_header_wf(h: NtHeader, data: Seq<u8>, base: int) -> bool {
    &&& gen_val_wf(h.sig, data, base + 0)
    &&& file_header_wf(h.file_hdr, data, base + 4)
    &&& opt_header_wf(h.opt_hdr, data, base + 24)
}

/// Every slot of `d` is absent.
pub open spec fn all_dirs_absent(d: DataDirectories) -> bool {
    forall|i: int| 0 <= i < 16 ==> dir_entry(d, i) is None
}

/// The slot of `d` at index `i`, in the format's fixed enumeration order.
pub open spec fn dir_entry(d: DataDirectories, i: int) -> Option<DataDirectory> {
    if i == 0 {
        d.export
    } else if i == 1 {
        d.import
    } else if i == 2 {
        d.resource
    } else if i == 3 {
        d.exception
    } else if i == 4 {
        d.security
    } else if i == 5 {
        d.base_reloc
    } else if i == 6 {
        d.debug
    } else if i == 7 {
        d.architecture
    } else if i == 8 {
        d.global_ptr
    } else if i == 9 {
        d.tls
    } else if i == 10 {
        d.load_config
    } else if i == 11 {
        d.bound_import
    } else if i == 12 {
        d.iat
    } else if i == 13 {
        d.delay_import
    } else if i == 14 {
        d.com_descriptor
    } else {
        d.reserved
    }
}

/// Both fields of `d` were decoded from `data` at `base`.
pub open spec fn data_directory_wf(d: DataDirectory, data: Seq<u8>, base: int) -> bool {
    &&& gen_val_wf(d.virt_addr, data, base + 0)
    &&& gen_val_wf(d.size, data, base + 4)
}

impl Default for DataDirectories {
    /// All 16 slots absent: the state before the caller populates them.
    fn default() -> (r: DataDirectories)
        ensures
            all_dirs_absent(r),
    {
        let r = DataDirectories {
            export: None,
            import: None,
            resource: None,
            exception: None,
            security: None,
            base_reloc: None,
            debug: None,
            architecture: None,
            global_ptr: None,
            tls: None,
            load_config: None,
            bound_import: None,
            iat: None,
            delay_import: None,
            com_descriptor: None,
            reserved: None,
        };
        proof {
            assert forall|i: int| 0 <= i < 16 implies dir_entry(r, i) is None by {}
        }
        r
    }
}

impl DataDirectories {
    /// Replaces the slot at index `i`, leaving every other slot unchanged.
    pub fn set_entry(&mut self, i: usize, e: Option<DataDirectory>)
        requires
            i < NUM_DATA_DIRS,
        ensures
            dir_entry(*final(self), i as int) == e,
            forall|j: int|
                0 <= j < 16 && j != i ==> dir_entry(*final(self), j) == dir_entry(*old(self), j),
    {
        if i == 0 {
            self.export = e;
        } else if i == 1 {
            self.import = e;
        } else if i == 2 {
            self.resource = e;
        } else if i == 3 {
            self.exception = e;
        } else if i == 4 {
            self.security = e;
        } else if i == 5 {
            self.base_reloc = e;
        } else if i == 6 {
            self.debug = e;
        } else if i == 7 {
            self.architecture = e;
        } else if i == 8 {
            self.global_ptr = e;
        } else if i == 9 {
            self.tls = e;
        } else if i == 10 {
            self.load_config = e;
        } else if i == 11 {
            self.bound_import = e;
        } else if i == 12 {
            self.iat = e;
        } else if i == 13 {
            self.delay_import = e;
        } else if i == 14 {
            self.com_descriptor = e;
        } else {
            self.reserved = e;
        }
    }
}

impl DataDirectory {
    /// Decodes one directory entry from the stream's cursor.
    pub fn new(s: &mut ByteStream) -> (r: Result<DataDirectory, Error>)
        ensures
            final(s).bytes() == old(s).bytes(),
            r is Ok <==> old(s).pos() + DATA_DIR_SIZE <= old(s).bytes().len(),
            r is Ok ==> data_directory_wf(r->Ok_0, old(s).bytes(), old(s).pos()),
            r is Ok ==> final(s).pos() == old(s).pos() + DATA_DIR_SIZE,
            r is Err ==> old(s).pos() <= final(s).pos() <= old(s).pos() + DATA_DIR_SIZE,
            r is Err ==> r->Err_0 is ReadFailure,
    {
        let virt_addr: SimpleVal<u32> = SimpleVal::new(s)?;
        let size: SimpleVal<u32> = SimpleVal::new(s)?;
        Ok(DataDirectory { virt_addr, size })
    }
}

impl FileHeader {
    /// Decodes the file header's fields strictly left to right from the
    /// stream's cursor.
    pub fn new(s: &mut ByteStream) -> (r: Result<FileHeader, Error>)
        ensures
            final(s).bytes() == old(s).bytes(),
            r is Ok <==> old(s).pos() + FILE_HEADER_SIZE <= old(s).bytes().len(),
            r is Ok ==> file_header_wf(r->Ok_0, old(s).bytes(), old(s).pos()),
            r is Ok ==> final(s).pos() == old(s).pos() + FILE_HEADER_SIZE,
            r is Err ==> old(s).pos() <= final(s).pos() <= old(s).pos() + FILE_HEADER_SIZE,
            r is Err ==> r->Err_0 is ReadFailure,
    {
        let machine: SimpleVal<u16> = SimpleVal::new(s)?;
        let num_of_secs: SimpleVal<u16> = SimpleVal::new(s)?;
        let time_data_stamp: SimpleVal<u32> = SimpleVal::new(s)?;
        let ptr_to_symbol_table: SimpleVal<u32> = SimpleVal::new(s)?;
        let num_of_symbols: SimpleVal<u32> = SimpleVal::new(s)?;
        let opt_hdr_size: SimpleVal<u16> = SimpleVal::new(s)?;
        let file_characteristics: SimpleVal<u16> = SimpleVal::new(s)?;
        Ok(
            FileHeader {
                machine,
                num_of_secs,
                time_data_stamp,
                ptr_to_symbol_table,
                num_of_symbols,
                opt_hdr_size,
                file_characteristics,
            },
        )
    }
}

impl OptHeader {
    /// Decodes the optional header's scalar fields strictly left to right
    /// from the stream's cursor. The data-directory slots consume no bytes
    /// and start out absent; the caller populates them afterwards from
    /// `num_of_rva_and_sizes`.
    pub fn new(s: &mut ByteStream) -> (r: Result<OptHeader, Error>)
        ensures
            final(s).bytes() == old(s).bytes(),
            r is Ok <==> old(s).pos() + OPT_HEADER_SIZE <= old(s).bytes().len(),
            r is Ok ==> opt_header_wf(r->Ok_0, old(s).bytes(), old(s).pos()),
            r is Ok ==> all_dirs_absent(r->Ok_0.data_dirs),
            r is Ok ==> final(s).pos() == old(s).pos() + OPT_HEADER_SIZE,
            r is Err ==> old(s).pos() <= final(s).pos() <= old(s).pos() + OPT_HEADER_SIZE,
            r is Err ==> r->Err_0 is ReadFailure,
    {
        let magic: SimpleVal<u16> = SimpleVal::new(s)?;
        let major_linker_ver: SimpleVal<u8> = SimpleVal::new(s)?;
        let minor_linker_ver: SimpleVal<u8> = SimpleVal::new(s)?;
        let size_of_code: SimpleVal<u32> = SimpleVal::new(s)?;
        let size_of_init_data: SimpleVal<u32> = SimpleVal::new(s)?;
        let size_of_uninit_data: SimpleVal<u32> = SimpleVal::new(s)?;
        let addr_of_entrypoint: SimpleVal<u32> = SimpleVal::new(s)?;
        let base_of_code: SimpleVal<u32> = SimpleVal::new(s)?;
        let image_base: SimpleVal<u64> = SimpleVal::new(s)?;
        let sec_alignment: SimpleVal<u32> = SimpleVal::new(s)?;
        let file_alignment: SimpleVal<u32> = SimpleVal::new(s)?;
        let major_os_ver: SimpleVal<u16> = SimpleVal::new(s)?;
        let minor_os_ver: SimpleVal<u16> = SimpleVal::new(s)?;
        let major_image_ver: SimpleVal<u16> = SimpleVal::new(s)?;
        let minor_image_ver: SimpleVal<u16> = SimpleVal::new(s)?;
        let major_subsystem_ver: SimpleVal<u16> = SimpleVal::new(s)?;
        let minor_subsystem_ver: SimpleVal<u16> = SimpleVal::new(s)?;
        let win32_ver_val: SimpleVal<u32> = SimpleVal::new(s)?;
        let size_of_image: SimpleVal<u32> = SimpleVal::new(s)?;
        let size_of_hdrs: SimpleVal<u32> = SimpleVal::new(s)?;
        let checksum: SimpleVal<u32> = SimpleVal::new(s)?;
        let subsystem: SimpleVal<u16> = SimpleVal::new(s)?;
        let dll_characteristics: SimpleVal<u16> = SimpleVal::new(s)?;
        let size_of_stack_reservee: SimpleVal<u64> = SimpleVal::new(s)?;
        let size_of_stack_commit: SimpleVal<u64> = SimpleVal::new(s)?;
        let size_of_heap_reserve: SimpleVal<u64> = SimpleVal::new(s)?;
        let size_of_heap_commit: SimpleVal<u64> = SimpleVal::new(s)?;
        let loader_flags: SimpleVal<u32> = SimpleVal::new(s)?;
        let num_of_rva_and_sizes: SimpleVal<u32> = SimpleVal::new(s)?;
        let data_dirs: DataDirectories = Default::default();
        Ok(
            OptHeader {
                magic,
                major_linker_ver,
                minor_linker_ver,
                size_of_code,
                size_of_init_data,
                size_of_uninit_data,
                addr_of_entrypoint,
                base_of_code,
                image_base,
                sec_alignment,
                file_alignment,
                major_os_ver,
                minor_os_ver,
                major_image_ver,
                minor_image_ver,
                major_subsystem_ver,
                minor_subsystem_ver,
                win32_ver_val,
                size_of_image,
                size_of_hdrs,
                checksum,
                subsystem,
                dll_characteristics,
                size_of_stack_reservee,
                size_of_stack_commit,
                size_of_heap_reserve,
                size_of_heap_commit,
                loader_flags,
                num_of_rva_and_sizes,
                data_dirs,
            },
        )
    }
}

impl NtHeader {
    /// Decodes the signature, the file header, and the optional header
    /// strictly left to right from the stream's cursor.
    pub fn new(s: &mut ByteStream) -> (r: Result<NtHeader, Error>)
        ensures
            final(s).bytes() == old(s).bytes(),
            r is Ok <==> old(s).pos() + NT_HEADER_SIZE <= old(s).bytes().len(),
            r is Ok ==> nt_header_wf(r->Ok_0, old(s).bytes(), old(s).pos()),
            r is Ok ==> all_dirs_absent(r->Ok_0.opt_hdr.data_dirs),
            r is Ok ==> final(s).pos() == old(s).pos() + NT_HEADER_SIZE,
            r is Err ==> old(s).pos() <= final(s).pos() <= old(s).pos() + NT_HEADER_SIZE,
            r is Err ==> r->Err_0 is ReadFailure,
    {
        let sig: SimpleVal<u32> = SimpleVal::new(s)?;
        let file_hdr: FileHeader = FileHeader::new(s)?;
        let opt_hdr: OptHeader = OptHeader::new(s)?;
        Ok(NtHeader { sig, file_hdr, opt_hdr })
    }
}

} // verus!
