//! What holds across the functions of the wire format.
use crate::header::{header_bytes, header_read_faults, header_size, parse_header, Header, HeaderView};
use crate::request::{
    parse_request_type, parse_string_field, request_type_read_faults, string_field,
    RequestTypeView,
};
use crate::response::{parse_response, response_bytes, ResponseView};
use crate::wire::{
    be_bytes, be_value, byte_radix, lemma_be_bytes_len, lemma_be_bytes_value_small,
    lemma_be_value_bytes,
};
use vstd::prelude::*;
use vstd::utf8::{decode_utf8_encode_utf8, encode_utf8, encode_utf8_decode_utf8, encode_utf8_valid_utf8};

verus! {

/// A string field written for the characters `s` reads back as `s`, whatever
/// follows it, when the byte length of `s` fits in 32 bits.
pub proof fn lemma_string_field_roundtrip(s: Seq<char>, rest: Seq<u8>)
    requires
        encode_utf8(s).len() < byte_radix(4),
    ensures
        parse_string_field(string_field(encode_utf8(s)) + rest) == Some(
            (s, 4 + encode_utf8(s).len()),
        ),
{
    let b = encode_utf8(s);
    let data = string_field(b) + rest;
    lemma_be_bytes_len(b.len(), 4);
    lemma_be_bytes_value_small(b.len(), 4);
    assert(data.subrange(0, 4) =~= be_bytes(b.len(), 4));
    assert(data.subrange(4, 4 + b.len() as int) =~= b);
    encode_utf8_valid_utf8(s);
    encode_utf8_decode_utf8(s);
}

/// The code byte and field written for a kind read back as that kind, with the
/// field's length, whatever follows them.
pub proof fn lemma_request_type_roundtrip(t: RequestTypeView, rest: Seq<u8>)
    requires
        t.text_bytes() matches Some(b) ==> b.len() < byte_radix(4),
    ensures
        parse_request_type(t.code(), t.field_bytes() + rest) == Some((t, t.field_bytes().len())),
        !request_type_read_faults(t.code(), t.field_bytes() + rest),
{
    match t {
        RequestTypeView::Download(s) => {
            lemma_be_bytes_len(encode_utf8(s).len(), 4);
            lemma_string_field_roundtrip(s, rest);
        },
        RequestTypeView::Cd(s) => {
            lemma_be_bytes_len(encode_utf8(s).len(), 4);
            lemma_string_field_roundtrip(s, rest);
        },
        _ => {},
    }
}

/// `header_size` is 8 bytes short of the wire form of the header.
pub proof fn lemma_header_size(h: HeaderView)
    ensures
        header_size(h) + 8 == header_bytes(h).len(),
{
    lemma_be_bytes_len(h.time_created, 16);
    lemma_be_bytes_len(h.content_length, 8);
    match h.request_type.text_bytes() {
        Some(b) => lemma_be_bytes_len(b.len(), 4),
        None => {},
    }
}

/// A well-formed header reads back from its wire form, whatever follows it, and
/// reading it does not fault.
pub proof fn lemma_header_roundtrip(h: HeaderView, rest: Seq<u8>)
    requires
        h.well_formed(),
    ensures
        parse_header(header_bytes(h) + rest) == Some(h),
        !header_read_faults(header_bytes(h) + rest),
{
    let t = h.request_type;
    let f = t.field_bytes();
    let tb = be_bytes(h.time_created, 16);
    let cb = be_bytes(h.content_length, 8);
    let data = header_bytes(h) + rest;
    let n = f.len();
    lemma_be_bytes_len(h.time_created, 16);
    lemma_be_bytes_len(h.content_length, 8);
    lemma_be_bytes_value_small(h.time_created, 16);
    lemma_be_bytes_value_small(h.content_length, 8);
    assert(data.skip(1) =~= f + (tb + cb + rest));
    lemma_request_type_roundtrip(t, tb + cb + rest);
    assert(data.subrange(1 + n as int, 17 + n as int) =~= tb);
    assert(data.subrange(17 + n as int, 25 + n as int) =~= cb);
}

/// Writing the header read from `data` gives back the bytes it was read from.
pub proof fn lemma_header_reencode(data: Seq<u8>)
    requires
        !header_read_faults(data),
        parse_header(data) is Some,
    ensures
        header_bytes(parse_header(data)->0) == data.subrange(
            0,
            header_bytes(parse_header(data)->0).len() as int,
        ),
{
    let h = parse_header(data)->0;
    let rest = data.skip(1);
    let (t, n) = parse_request_type(data[0], rest)->0;
    let tsub = data.subrange(1 + n as int, 17 + n as int);
    let csub = data.subrange(17 + n as int, 25 + n as int);
    lemma_be_value_bytes(tsub);
    lemma_be_value_bytes(csub);
    if data[0] == 1 || data[0] == 4 {
        let lsub = rest.subrange(0, 4);
        let len = be_value(lsub);
        let raw = rest.subrange(4, 4 + len as int);
        decode_utf8_encode_utf8(raw);
        lemma_be_value_bytes(lsub);
        assert(t.field_bytes() =~= rest.subrange(0, n as int));
    } else {
        assert(t.field_bytes() =~= rest.subrange(0, n as int));
    }
    lemma_header_size(h);
    assert(header_bytes(h) =~= data.subrange(0, 25 + n as int));
}

/// A response read back from its wire form has the header it was written with,
/// and as body the 8 bytes of the header's length followed by the body it was
/// written with: the body is read from `header_size`, 8 bytes before the end of
/// the header.
pub proof fn lemma_response_roundtrip(r: ResponseView)
    requires
        r.header.well_formed(),
    ensures
        !header_read_faults(response_bytes(r)),
        parse_response(response_bytes(r)) == Some(
            ResponseView {
                header: r.header,
                body: be_bytes(r.header.content_length, 8) + r.body,
            },
        ),
{
    let data = response_bytes(r);
    lemma_header_roundtrip(r.header, r.body);
    lemma_header_size(r.header);
    lemma_be_bytes_len(r.header.time_created, 16);
    lemma_be_bytes_len(r.header.content_length, 8);
    assert(data.skip(header_size(r.header) as int) =~= be_bytes(r.header.content_length, 8)
        + r.body);
}

/// The view of a header whose string, if any, is shorter than 4 GiB is well
/// formed, so the laws above apply to every such `Header`.
pub proof fn lemma_header_well_formed(h: &Header)
    requires
        h@.request_type.text_bytes() matches Some(b) ==> b.len() < byte_radix(4),
    ensures
        h@.well_formed(),
{
    reveal_with_fuel(byte_radix, 17);
}

/// A header read back from `data` fits in `data` with room to spare:
/// `header_size` of it is at most the length of `data` less 8.
pub proof fn lemma_parsed_header_size(data: Seq<u8>)
    requires
        !header_read_faults(data),
        parse_header(data) is Some,
    ensures
        header_size(parse_header(data)->0) + 8 <= data.len(),
{
    let rest = data.skip(1);
    if data[0] == 1 || data[0] == 4 {
        let len = be_value(rest.subrange(0, 4));
        let raw = rest.subrange(4, 4 + len as int);
        decode_utf8_encode_utf8(raw);
    }
}

} // verus!
