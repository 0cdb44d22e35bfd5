//! The command that sets the properties of a client, and its reply.

use vstd::prelude::*;
use crate::error::Error;
use crate::types::proplist::PropList;
use crate::types::proplist::PropSeq;
use crate::types::tagstruct::grammar::Parsed;
use crate::types::tagstruct::grammar::spec_encode_proplist;
use crate::types::tagstruct::grammar::spec_encode_u32;
use crate::types::tagstruct::grammar::spec_read_proplist;
use crate::types::tagstruct::reader::FromTagStruct;
use crate::types::tagstruct::reader::TagStructReader;
use crate::types::tagstruct::writer::TagStructWriter;
use crate::types::tagstruct::writer::ToTagStruct;

verus! {

/// Add or modify client properties.
#[derive(Debug)]
pub struct SetClientName {
    props: PropList,
}

impl View for SetClientName {
    type V = PropSeq;

    closed spec fn view(&self) -> PropSeq {
        self.props@
    }
}

impl SetClientName {
    /// Creates the command that sets the given properties.
    pub fn new(props: PropList) -> (command: SetClientName)
        ensures
            command@ == props@,
    {
        SetClientName { props }
    }

    /// The properties to set.
    ///
    /// The contained proplist should be merged into the existing client properties, overwriting
    /// exiting values.
    pub fn props(&self) -> (props: &PropList)
        ensures
            props@ == self@,
    {
        &self.props
    }
}

impl<'a> FromTagStruct<'a> for SetClientName {
    /// Before protocol version 13, *only* the client name was transferred (as a string). Since
    /// then the command holds a property list.
    open spec fn spec_from_tag_struct(s: Seq<u8>, protocol_version: u16) -> Parsed<PropSeq> {
        spec_read_proplist(s)
    }

    fn from_tag_struct(ts: &mut TagStructReader<'a>, protocol_version: u16) -> (r: Result<
        Self,
        Error,
    >) {
        match ts.read_proplist() {
            Ok(props) => Ok(SetClientName { props }),
            Err(e) => Err(e),
        }
    }
}

impl ToTagStruct for SetClientName {
    open spec fn spec_encoding(&self, protocol_version: u16) -> Seq<u8> {
        spec_encode_proplist(self@)
    }

    open spec fn spec_encodable(&self) -> bool {
        true
    }

    fn to_tag_struct(&self, w: &mut TagStructWriter, protocol_version: u16) -> (r: Result<
        (),
        Error,
    >) {
        w.write(self.props());
        Ok(())
    }
}

/// The reply to a `SetClientName` command: the index of the client.
#[derive(Clone, Copy, Debug)]
pub struct SetClientNameReply {
    client_id: u32,
}

impl View for SetClientNameReply {
    type V = u32;

    closed spec fn view(&self) -> u32 {
        self.client_id
    }
}

impl SetClientNameReply {
    /// Creates the reply for the client with the given index.
    pub fn new(client_id: u32) -> (reply: SetClientNameReply)
        ensures
            reply@ == client_id,
    {
        SetClientNameReply { client_id }
    }
}

impl ToTagStruct for SetClientNameReply {
    open spec fn spec_encoding(&self, protocol_version: u16) -> Seq<u8> {
        spec_encode_u32(self@)
    }

    open spec fn spec_encodable(&self) -> bool {
        true
    }

    fn to_tag_struct(&self, w: &mut TagStructWriter, protocol_version: u16) -> (r: Result<
        (),
        Error,
    >) {
        w.write(self.client_id);
        Ok(())
    }
}

} // verus!
