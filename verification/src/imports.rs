//! An import-directory entry: the descriptor that names one imported
//! module and its thunk tables.

use crate::err::Error;
use crate::stream::gen_val_wf;
use crate::stream::ByteStream;
use crate::stream::SimpleVal;
use vstd::prelude::*;

verus! {

/// Size of one import descriptor in bytes.
pub const IMPORT_DESCRIPTOR_SIZE: usize = 16;

#[derive(Debug, Clone, Copy, PartialEq, Eq)]
pub struct ImportDescriptor {
    pub original_first_thunk: SimpleVal<u32>,
    pub time_data_stamp: SimpleVal<u32>,
    pub forwarder_chain: SimpleVal<u32>,
    pub first_thunk: SimpleVal<u32>,
}

/// Every field of `d` was decoded from `data` at its fixed offset from
/// `base`, in declaration order.
pub open spec fn import_descriptor_wf(d: ImportDescriptor, data: Seq<u8>, base: int) -> bool {
    &&& gen_val_wf(d.original_first_thunk, data, base + 0)
    &&& gen_val_wf(d.time_data_stamp, data, base + 4)
    &&& gen_val_wf(d.forwarder_chain, data, base + 8)
    &&& gen_val_wf(d.first_thunk, data, base + 12)
}

impl ImportDescriptor {
    /// Decodes one descriptor strictly left to right from the stream's
    /// cursor.
    pub fn new(s: &mut ByteStream) -> (r: Result<ImportDescriptor, Error>)
        ensures
            final(s).bytes() == old(s).bytes(),
            r is Ok <==> old(s).pos() + IMPORT_DESCRIPTOR_SIZE <= old(s).bytes().len(),
            r is Ok ==> import_descriptor_wf(r->Ok_0, old(s).bytes(), old(s).pos()),
            r is Ok ==> final(s).pos() == old(s).pos() + IMPORT_DESCRIPTOR_SIZE,
            r is Err ==> old(s).pos() <= final(s).pos() <= old(s).pos() + IMPORT_DESCRIPTOR_SIZE,
            r is Err ==> r->Err_0 is ReadFailure,
    {
        let original_first_thunk: SimpleVal<u32> = SimpleVal::new(s)?;
        let time_data_stamp: SimpleVal<u32> = SimpleVal::new(s)?;
        let forwarder_chain: SimpleVal<u32> = SimpleVal::new(s)?;
        let first_thunk: SimpleVal<u32> = SimpleVal::new(s)?;
        Ok(ImportDescriptor { original_first_thunk, time_data_stamp, forwarder_chain, first_thunk })
    }
}

} // verus!
