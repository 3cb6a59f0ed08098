//! The kinds of request, their one-byte codes and string fields, and the
//! request message.
use crate::header::{header_bytes, header_read_faults, parse_header, Header};
use crate::wire::{be_bytes, be_decode, be_value};
use vstd::prelude::*;
use vstd::utf8::{decode_utf8, encode_utf8, valid_utf8};

verus! {

/// What a message asks for (in a request) or answers (in a response).
#[derive(Debug, PartialEq)]
pub enum RequestType {
    Download(String),
    Ping,
    Pwd,
    Cd(String),
    Wrong,
}

/// A `RequestType` with its strings taken as character sequences.
pub enum RequestTypeView {
    Download(Seq<char>),
    Ping,
    Pwd,
    Cd(Seq<char>),
    Wrong,
}

impl View for RequestType {
    type V = RequestTypeView;

    open spec fn view(&self) -> RequestTypeView {
        match self {
            RequestType::Download(s) => RequestTypeView::Download(s@),
            RequestType::Ping => RequestTypeView::Ping,
            RequestType::Pwd => RequestTypeView::Pwd,
            RequestType::Cd(s) => RequestTypeView::Cd(s@),
            RequestType::Wrong => RequestTypeView::Wrong,
        }
    }
}

impl RequestTypeView {
    /// The byte that stands for the kind on the wire.
    pub open spec fn code(self) -> u8 {
        match self {
            RequestTypeView::Download(_) => 1,
            RequestTypeView::Ping => 2,
            RequestTypeView::Pwd => 3,
            RequestTypeView::Cd(_) => 4,
            RequestTypeView::Wrong => 5,
        }
    }

    /// The UTF-8 bytes of the string the kind carries, if it carries one.
    pub open spec fn text_bytes(self) -> Option<Seq<u8>> {
        match self {
            RequestTypeView::Download(s) => Some(encode_utf8(s)),
            RequestTypeView::Cd(s) => Some(encode_utf8(s)),
            _ => None,
        }
    }

    /// The bytes that follow the code byte: for a kind with a string, its byte
    /// length in four big-endian bytes (the low 32 bits of it) and then its bytes.
    pub open spec fn field_bytes(self) -> Seq<u8> {
        match self.text_bytes() {
            Some(b) => string_field(b),
            None => Seq::empty(),
        }
    }
}

/// A string field: the byte length in four big-endian bytes, then the bytes.
pub open spec fn string_field(b: Seq<u8>) -> Seq<u8> {
    be_bytes(b.len(), 4) + b
}

/// Reads a string field at the start of `data`: the string and the number of
/// bytes it took, or `None` when the field is cut short or is not UTF-8.
pub open spec fn parse_string_field(data: Seq<u8>) -> Option<(Seq<char>, nat)> {
    if data.len() < 4 {
        None
    } else {
        let len = be_value(data.subrange(0, 4));
        if data.len() < 4 + len {
            None
        } else {
            let raw = data.subrange(4, 4 + len as int);
            if valid_utf8(raw) {
                Some((decode_utf8(raw), 4 + len))
            } else {
                None
            }
        }
    }
}

/// The kind that code `value` stands for, read with its field from `data`, and
/// the number of field bytes read; `None` for an unknown code or a string field
/// that cannot be read.
pub open spec fn parse_request_type(value: u8, data: Seq<u8>) -> Option<(RequestTypeView, nat)> {
    if value == 1 {
        match parse_string_field(data) {
            Some((s, n)) => Some((RequestTypeView::Download(s), n)),
            None => None,
        }
    } else if value == 2 {
        Some((RequestTypeView::Ping, 0))
    } else if value == 3 {
        Some((RequestTypeView::Pwd, 0))
    } else if value == 4 {
        match parse_string_field(data) {
            Some((s, n)) => Some((RequestTypeView::Cd(s), n)),
            None => None,
        }
    } else if value == 5 {
        Some((RequestTypeView::Wrong, 0))
    } else {
        None
    }
}

/// Reading the kind for `value` from `data` cannot complete: the code asks for a
/// string field and none can be read.
pub open spec fn request_type_read_faults(value: u8, data: Seq<u8>) -> bool {
    (value == 1 || value == 4) && parse_string_field(data) is None
}

/// `String::from_utf8`: the bytes as a `String` when they are valid UTF-8,
/// with the characters they encode; `None` when they are not.
#[verifier::external_body]
fn string_from_utf8(bytes: Vec<u8>) -> (r: Option<String>)
    ensures
        r is Some <==> valid_utf8(bytes@),
        r matches Some(s) ==> s@ == decode_utf8(bytes@),
{
    String::from_utf8(bytes).ok()
}

/// Reads a string field at the start of `data`.
pub(crate) fn deserialize_string(data: &[u8]) -> (r: Option<(String, usize)>)
    ensures
        match parse_string_field(data@) {
            None => r is None,
            Some((s, n)) => r matches Some((rs, rn)) && rs@ == s && rn == n,
        },
{
    if data.len() < 4 {
        return None;
    }
    let len = be_decode(data, 0, 4);
    if ((data.len() - 4) as u128) < len {
        return None;
    }
    let len = len as usize;
    let raw = vstd::slice::slice_to_vec(vstd::slice::slice_subrange(data, 4, 4 + len));
    match string_from_utf8(raw) {
        Some(string) => Some((string, 4 + len)),
        None => None,
    }
}

impl RequestType {
    /// The code byte of the kind.
    pub fn to_u8(&self) -> (r: u8)
        ensures
            r == self@.code(),
    {
        match self {
            RequestType::Download(_) => 1,
            RequestType::Ping => 2,
            RequestType::Pwd => 3,
            RequestType::Wrong => 5,
            RequestType::Cd(_) => 4,
        }
    }

    /// The kind that code `value` stands for, with its string field read from
    /// `data`, and how many bytes of `data` that field took.
    pub fn from_u8(value: u8, data: &[u8]) -> (r: Option<(Self, usize)>)
        requires
            !request_type_read_faults(value, data@),
        ensures
            match parse_request_type(value, data@) {
                None => r is None,
                Some((t, n)) => r matches Some((rt, rn)) && rt@ == t && rn == n,
            },
    {
        if value == 1 {
            match deserialize_string(data) {
                Some((string, bytes_read)) => Some((RequestType::Download(string), bytes_read)),
                None => None,
            }
        } else if value == 2 {
            Some((RequestType::Ping, 0))
        } else if value == 3 {
            Some((RequestType::Pwd, 0))
        } else if value == 4 {
            match deserialize_string(data) {
                Some((string, bytes_read)) => Some((RequestType::Cd(string), bytes_read)),
                None => None,
            }
        } else if value == 5 {
            Some((RequestType::Wrong, 0))
        } else {
            None
        }
    }
}

/// A request: a header only.
#[derive(Debug)]
pub struct Request {
    pub header: Header,
}

impl Request {
    pub fn new(header: Header) -> (r: Self)
        ensures
            r.header == header,
    {
        Self { header }
    }

    /// The bytes of the header.
    pub fn serialize(&self) -> (r: Vec<u8>)
        ensures
            r@ == header_bytes(self.header@),
    {
        let mut bytes = Vec::new();
        let header_bytes = self.header.serialize();
        crate::wire::append_bytes(&mut bytes, header_bytes.as_slice());
        assert(bytes@ =~= header_bytes@);
        bytes
    }

    /// Reads a request from `data`: `None` when `data` is shorter than 16 bytes
    /// or holds no header.
    pub fn deserialize(data: &[u8]) -> (r: Option<Self>)
        requires
            !header_read_faults(data@),
        ensures
            match parse_header(data@) {
                None => r is None,
                Some(h) => r matches Some(q) && q.header@ == h,
            },
    {
        if data.len() < 16 {
            return None;
        }
        match Header::deserialize(data) {
            Some(header) => Some(Self { header }),
            None => None,
        }
    }
}

} // verus!
