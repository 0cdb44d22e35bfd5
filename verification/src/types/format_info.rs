//! Defines types that specify how samples are encoded.

use vstd::prelude::*;
use crate::types::proplist::PropList;
use crate::types::proplist::PropSeq;

verus! {

/// Describes how samples are encoded.
#[derive(Clone, Copy, Debug, PartialEq, Eq, Structural)]
pub enum FormatEncoding {
    /// Any encoding is supported.
    Any,
    /// Good old PCM.
    Pcm,
    /// AC3 data encapsulated in IEC 61937 header/padding.
    Ac3Iec61937,
    /// EAC3 data encapsulated in IEC 61937 header/padding.
    Eac3Iec61937,
    /// MPEG-1 or MPEG-2 (Part 3, not AAC) data encapsulated in IEC 61937 header/padding.
    MpegIec61937,
    /// DTS data encapsulated in IEC 61937 header/padding.
    DtsIec61937,
    /// MPEG-2 AAC data encapsulated in IEC 61937 header/padding.
    Mpeg2Iec61937,
}

impl FormatEncoding {
    /// The number that stands for the encoding on the wire.
    pub open spec fn spec_as_u8(self) -> u8 {
        match self {
            FormatEncoding::Any => 0,
            FormatEncoding::Pcm => 1,
            FormatEncoding::Ac3Iec61937 => 2,
            FormatEncoding::Eac3Iec61937 => 3,
            FormatEncoding::MpegIec61937 => 4,
            FormatEncoding::DtsIec61937 => 5,
            FormatEncoding::Mpeg2Iec61937 => 6,
        }
    }

    /// The encoding that a number stands for, if it stands for one.
    pub open spec fn spec_from_u8(raw: u8) -> Option<FormatEncoding> {
        if raw == 0 {
            Some(FormatEncoding::Any)
        } else if raw == 1 {
            Some(FormatEncoding::Pcm)
        } else if raw == 2 {
            Some(FormatEncoding::Ac3Iec61937)
        } else if raw == 3 {
            Some(FormatEncoding::Eac3Iec61937)
        } else if raw == 4 {
            Some(FormatEncoding::MpegIec61937)
        } else if raw == 5 {
            Some(FormatEncoding::DtsIec61937)
        } else if raw == 6 {
            Some(FormatEncoding::Mpeg2Iec61937)
        } else {
            None
        }
    }

    /// Gets the number that stands for the encoding on the wire.
    pub fn as_u8(self) -> (raw: u8)
        ensures
            raw == self.spec_as_u8(),
            raw <= 6,
    {
        match self {
            FormatEncoding::Any => 0,
            FormatEncoding::Pcm => 1,
            FormatEncoding::Ac3Iec61937 => 2,
            FormatEncoding::Eac3Iec61937 => 3,
            FormatEncoding::MpegIec61937 => 4,
            FormatEncoding::DtsIec61937 => 5,
            FormatEncoding::Mpeg2Iec61937 => 6,
        }
    }

    /// Reads an encoding from the number that stands for it. Numbers above 6 stand for none.
    pub fn from_u8(raw: u8) -> (encoding: Option<FormatEncoding>)
        ensures
            encoding == Self::spec_from_u8(raw),
            encoding is Some <==> raw <= 6,
            encoding matches Some(e) ==> e.spec_as_u8() == raw,
    {
        match raw {
            0 => Some(FormatEncoding::Any),
            1 => Some(FormatEncoding::Pcm),
            2 => Some(FormatEncoding::Ac3Iec61937),
            3 => Some(FormatEncoding::Eac3Iec61937),
            4 => Some(FormatEncoding::MpegIec61937),
            5 => Some(FormatEncoding::DtsIec61937),
            6 => Some(FormatEncoding::Mpeg2Iec61937),
            _ => None,
        }
    }
}

/// Reading an encoding back from its own number gives the encoding again.
pub proof fn lemma_format_encoding_roundtrip(encoding: FormatEncoding)
    ensures
        FormatEncoding::spec_from_u8(encoding.spec_as_u8()) == Some(encoding),
{
}

/// Error returned for invalid values for `FormatEncoding`.
#[derive(Clone, Copy, Debug, PartialEq, Eq, Structural)]
pub struct InvalidEncodingError {
    /// The value that stands for no encoding.
    pub raw: u8,
}

impl InvalidEncodingError {
    /// Creates the error for a raw value.
    pub fn new(raw_encoding: u8) -> (e: InvalidEncodingError)
        ensures
            e.raw == raw_encoding,
    {
        InvalidEncodingError { raw: raw_encoding }
    }
}

/// What a `FormatInfo` holds.
pub struct FormatInfoView {
    /// The sample encoding.
    pub encoding: FormatEncoding,
    /// The entries of the property list.
    pub props: PropSeq,
}

/// Sample encoding info.
///
/// Associates a simple `FormatEncoding` with a list of arbitrary properties.
#[derive(Debug)]
pub struct FormatInfo {
    encoding: FormatEncoding,
    props: PropList,
}

impl View for FormatInfo {
    type V = FormatInfoView;

    closed spec fn view(&self) -> FormatInfoView {
        FormatInfoView { encoding: self.encoding, props: self.props@ }
    }
}

impl FormatInfo {
    /// Create a new `FormatInfo` from a sample encoding with an empty property list.
    pub fn new(encoding: FormatEncoding) -> (info: FormatInfo)
        ensures
            info@ == (FormatInfoView { encoding, props: PropSeq::empty() }),
    {
        FormatInfo { encoding, props: PropList::new() }
    }

    /// Create a `FormatInfo` from raw data parsed from a tagstruct.
    ///
    /// # Parameters
    ///
    /// * `encoding`: Raw value for a `FormatEncoding`.
    /// * `props`: Property list to associate with the `FormatInfo`.
    pub fn from_raw(encoding: u8, props: PropList) -> (r: Result<FormatInfo, InvalidEncodingError>)
        ensures
            match r {
                Ok(info) => FormatEncoding::spec_from_u8(encoding) == Some(info@.encoding)
                    && info@.props == props@,
                Err(e) => FormatEncoding::spec_from_u8(encoding) is None && e.raw == encoding,
            },
    {
        match FormatEncoding::from_u8(encoding) {
            Some(encoding) => Ok(FormatInfo { encoding, props }),
            None => Err(InvalidEncodingError::new(encoding)),
        }
    }

    /// Get the actual sample encoding.
    pub fn encoding(&self) -> (e: FormatEncoding)
        ensures
            e == self@.encoding,
    {
        self.encoding
    }

    /// Get a reference to the property list for this `FormatInfo` object.
    pub fn props(&self) -> (p: &PropList)
        ensures
            p@ == self@.props,
    {
        &self.props
    }

    /// Get a mutable reference to the property list for this `FormatInfo` object.
    pub fn props_mut(&mut self) -> (p: &mut PropList)
        ensures
            p@ == old(self)@.props,
            final(self)@ == (FormatInfoView { encoding: old(self)@.encoding, props: final(p)@ }),
    {
        &mut self.props
    }
}

impl Clone for FormatInfo {
    fn clone(&self) -> (r: Self)
        ensures
            r@ == self@,
    {
        FormatInfo { encoding: self.encoding, props: self.props.clone() }
    }
}

} // verus!
