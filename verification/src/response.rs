//! The response message: a header and a body of raw bytes.
use crate::header::{header_bytes, header_read_faults, header_size, parse_header, Header, HeaderView};
use crate::wire::append_bytes;
use vstd::prelude::*;

verus! {

/// A response: a header, then the body bytes.
pub struct Resposne {
    pub header: Header,
    pub body: Vec<u8>,
}

/// A `Resposne` by the views of its parts.
pub struct ResponseView {
    pub header: HeaderView,
    pub body: Seq<u8>,
}

impl View for Resposne {
    type V = ResponseView;

    open spec fn view(&self) -> ResponseView {
        ResponseView { header: self.header@, body: self.body@ }
    }
}

/// The wire form of a response: the header's, then the body.
pub open spec fn response_bytes(r: ResponseView) -> Seq<u8> {
    header_bytes(r.header) + r.body
}

/// The response read from `data`: its header, and as body every byte from
/// `header_size` on.
pub open spec fn parse_response(data: Seq<u8>) -> Option<ResponseView> {
    match parse_header(data) {
        None => None,
        Some(h) => Some(ResponseView { header: h, body: data.skip(header_size(h) as int) }),
    }
}

impl Resposne {
    /// A response with the given header and an empty body.
    pub fn new(header: Header) -> (r: Self)
        ensures
            r.header == header,
            r.body@ == Seq::<u8>::empty(),
    {
        Resposne { header, body: Vec::new() }
    }

    /// The wire form of the response.
    pub fn serialize(&self) -> (r: Vec<u8>)
        ensures
            r@ == response_bytes(self@),
    {
        let mut bytes = Vec::new();
        let header_bytes = self.header.serialize();
        append_bytes(&mut bytes, header_bytes.as_slice());
        append_bytes(&mut bytes, self.body.as_slice());
        assert(bytes@ =~= response_bytes(self@));
        bytes
    }

    /// Reads a response from `data`.
    pub fn deserialize(data: &[u8]) -> (r: Option<Self>)
        requires
            !header_read_faults(data@),
        ensures
            match parse_response(data@) {
                None => r is None,
                Some(v) => r matches Some(x) && x@ == v,
            },
    {
        let header = match Header::deserialize(data) {
            Some(header) => header,
            None => return None,
        };
        proof {
            crate::laws::lemma_parsed_header_size(data@);
        }
        let len = data.len();
        let size = header.serialized_size();
        let body = vstd::slice::slice_to_vec(vstd::slice::slice_subrange(data, size, len));
        assert(body@ =~= data@.skip(size as int));
        Some(Resposne { header, body })
    }
}

} // verus!
