//! The command that registers `memfd`-based shared memory.

use vstd::prelude::*;
use crate::error::Error;
use crate::types::tagstruct::grammar::Parsed;
use crate::types::tagstruct::grammar::spec_encode_u32;
use crate::types::tagstruct::grammar::spec_read_u32;
use crate::types::tagstruct::reader::FromTagStruct;
use crate::types::tagstruct::reader::TagStructReader;
use crate::types::tagstruct::writer::TagStructWriter;
use crate::types::tagstruct::writer::ToTagStruct;

verus! {

/// Register `memfd`-based shared memory: the id of the memory.
///
/// The file descriptor of the memory travels beside the command, in the ancillary data of the
/// socket.
#[derive(Clone, Copy, Debug)]
pub struct RegisterMemfdShmid {
    shmid: u32,
}

impl View for RegisterMemfdShmid {
    type V = u32;

    closed spec fn view(&self) -> u32 {
        self.shmid
    }
}

impl RegisterMemfdShmid {
    /// Creates the command for the shared memory with the given id.
    pub fn new(shmid: u32) -> (command: RegisterMemfdShmid)
        ensures
            command@ == shmid,
    {
        RegisterMemfdShmid { shmid }
    }

    /// The id of the shared memory.
    pub fn shmid(&self) -> (shmid: u32)
        ensures
            shmid == self@,
    {
        self.shmid
    }
}

impl<'a> FromTagStruct<'a> for RegisterMemfdShmid {
    open spec fn spec_from_tag_struct(s: Seq<u8>, protocol_version: u16) -> Parsed<u32> {
        spec_read_u32(s)
    }

    fn from_tag_struct(ts: &mut TagStructReader<'a>, protocol_version: u16) -> (r: Result<
        Self,
        Error,
    >) {
        match ts.read_u32() {
            Ok(shmid) => Ok(RegisterMemfdShmid { shmid }),
            Err(e) => Err(e),
        }
    }
}

impl ToTagStruct for RegisterMemfdShmid {
    open spec fn spec_encoding(&self, protocol_version: u16) -> Seq<u8> {
        spec_encode_u32(self@)
    }

    open spec fn spec_encodable(&self) -> bool {
        true
    }

    fn to_tag_struct(&self, w: &mut TagStructWriter, protocol_version: u16) -> (r: Result<
        (),
        Error,
    >) {
        w.write(self.shmid);
        Ok(())
    }
}

} // verus!
