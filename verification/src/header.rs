//! The message header: its kind, when it was made, and a length, with its
//! wire form.
use crate::request::{
    deserialize_string, parse_request_type, request_type_read_faults,
    RequestType, RequestTypeView,
};
use crate::wire::{append_bytes, be_bytes, be_decode, be_value, byte_radix, push_be};
use std::time::{Duration, SystemTime, UNIX_EPOCH};
use vstd::prelude::*;

verus! {

/// The header that leads every message.
#[derive(Debug)]
pub struct Header {
    pub time_created: u128,
    pub content_length: u64,
    pub request_type: RequestType,
}

/// A `Header` with its numbers taken as natural numbers.
pub struct HeaderView {
    pub time_created: nat,
    pub content_length: nat,
    pub request_type: RequestTypeView,
}

impl HeaderView {
    /// Every number fits the bytes the wire form gives it: the time 16, the
    /// length 8, the byte length of the string 4. The view of any `Header` whose
    /// string is shorter than 4 GiB is well formed.
    pub open spec fn well_formed(self) -> bool {
        &&& self.time_created < byte_radix(16)
        &&& self.content_length < byte_radix(8)
        &&& match self.request_type.text_bytes() {
            Some(b) => b.len() < byte_radix(4),
            None => true,
        }
    }
}

impl View for Header {
    type V = HeaderView;

    open spec fn view(&self) -> HeaderView {
        HeaderView {
            time_created: self.time_created as nat,
            content_length: self.content_length as nat,
            request_type: self.request_type@,
        }
    }
}

/// The wire form of a header: the code byte, the string field if the kind has
/// one, the creation time in 16 big-endian bytes, the length in 8.
pub open spec fn header_bytes(h: HeaderView) -> Seq<u8> {
    seq![h.request_type.code()] + h.request_type.field_bytes() + be_bytes(h.time_created, 16)
        + be_bytes(h.content_length, 8)
}

/// The size that `serialized_size` reports: 17, plus four and the string's bytes
/// for a kind with a string. It is 8 bytes short of the wire form.
pub open spec fn header_size(h: HeaderView) -> nat {
    match h.request_type.text_bytes() {
        Some(b) => 17 + 4 + b.len(),
        None => 17,
    }
}

/// The header read from the start of `data`: `None` when `data` is shorter than
/// 16 bytes, its first byte is no known code, a string field does not decode, or
/// fewer than 16 bytes follow the kind's field. The creation time comes from the
/// 16 bytes after the field and the length from the 8 after those.
pub open spec fn parse_header(data: Seq<u8>) -> Option<HeaderView> {
    if data.len() < 16 {
        None
    } else {
        match parse_request_type(data[0], data.skip(1)) {
            None => None,
            Some((t, n)) => if data.len() < n + 16 {
                None
            } else {
                Some(
                    HeaderView {
                        request_type: t,
                        time_created: be_value(data.subrange(1 + n as int, 17 + n as int)),
                        content_length: be_value(data.subrange(17 + n as int, 25 + n as int)),
                    },
                )
            },
        }
    }
}

/// Reading a header from `data` cannot complete: the kind's string field cannot
/// be read, or the kind and its field are followed by at least 16 bytes but
/// fewer than the 24 that the time and the length take.
pub open spec fn header_read_faults(data: Seq<u8>) -> bool {
    &&& data.len() >= 16
    &&& {
        ||| request_type_read_faults(data[0], data.skip(1))
        ||| match parse_request_type(data[0], data.skip(1)) {
            Some((_, n)) => n + 16 <= data.len() < n + 25,
            None => false,
        }
    }
}

#[verifier::external_type_specification]
#[verifier::external_body]
pub struct ExSystemTime(SystemTime);

/// `SystemTime::now()`: the system clock's reading. Nothing is stated of it: it
/// is the time of the call.
#[verifier::external_body]
fn system_time_now() -> SystemTime {
    SystemTime::now()
}

/// `SystemTime::duration_since(UNIX_EPOCH)`: how long after the Unix epoch `t`
/// lies, or `None` (the error) when `t` is earlier. Nothing is stated of it:
/// `SystemTime` and `Duration` are opaque here.
#[verifier::external_body]
fn since_unix_epoch(t: &SystemTime) -> Option<Duration> {
    t.duration_since(UNIX_EPOCH).ok()
}

/// `Duration::as_millis`: the whole milliseconds in `d`. Nothing is stated of
/// it: `Duration` is opaque here.
#[verifier::external_body]
fn duration_millis(d: &Duration) -> u128 {
    d.as_millis()
}

/// The system clock's reading in whole milliseconds since the Unix epoch, or 0
/// when the clock reads earlier. Nothing is stated of the value: it is the time
/// of the call.
pub(crate) fn clock_millis() -> u128 {
    let now = system_time_now();
    match since_unix_epoch(&now) {
        Some(elapsed) => duration_millis(&elapsed),
        None => 0,
    }
}

/// Reads 8 big-endian bytes of `data` from `start`.
fn bytes_to_u64(data: &[u8], start: usize) -> (r: u64)
    requires
        start + 8 <= data@.len(),
    ensures
        r as nat == be_value(data@.subrange(start as int, start + 8)),
{
    let v = be_decode(data, start, 8);
    proof {
        crate::wire::lemma_be_value_bound(data@.subrange(start as int, start + 8));
        reveal_with_fuel(crate::wire::byte_radix, 9);
    }
    v as u64
}

impl Header {
    /// A header of the given kind and length, stamped with the current time in
    /// milliseconds since the Unix epoch (0 when the clock reads earlier): the
    /// clock is read here and the header is made by `new_at`.
    pub fn new(request_type: RequestType, size: u64) -> (r: Self)
        ensures
            r.request_type == request_type,
            r.content_length == size,
    {
        Self::new_at(request_type, size, clock_millis())
    }

    /// A header of the given kind and length, stamped `time_created`
    /// milliseconds after the Unix epoch.
    pub fn new_at(request_type: RequestType, size: u64, time_created: u128) -> (r: Self)
        ensures
            r.request_type == request_type,
            r.content_length == size,
            r.time_created == time_created,
    {
        Self { time_created, content_length: size, request_type }
    }

    /// 17, plus four and the byte length of the string for a kind with one.
    pub fn serialized_size(&self) -> (r: usize)
        requires
            header_size(self@) <= usize::MAX,
        ensures
            r == header_size(self@),
    {
        let base_size: usize = 1 + 8 + 8;
        match &self.request_type {
            RequestType::Download(s) | RequestType::Cd(s) => base_size + 4 + s.as_str().len(),
            _ => base_size,
        }
    }

    /// The wire form of the header.
    pub fn serialize(&self) -> (r: Vec<u8>)
        ensures
            r@ == header_bytes(self@),
    {
        let mut bytes: Vec<u8> = Vec::new();
        bytes.push(self.request_type.to_u8());
        match &self.request_type {
            RequestType::Download(s) | RequestType::Cd(s) => {
                let raw = s.as_str().as_bytes();
                push_be(&mut bytes, raw.len() as u128, 4);
                append_bytes(&mut bytes, raw);
            },
            _ => {},
        }
        push_be(&mut bytes, self.time_created, 16);
        push_be(&mut bytes, self.content_length as u128, 8);
        assert(bytes@ =~= header_bytes(self@));
        bytes
    }

    /// Reads a header from the start of `data`; the bytes after it are ignored.
    pub fn deserialize(data: &[u8]) -> (r: Option<Self>)
        requires
            !header_read_faults(data@),
        ensures
            match parse_header(data@) {
                None => r is None,
                Some(h) => r matches Some(x) && x@ == h,
            },
    {
        if data.len() < 16 {
            return None;
        }
        let request_type_value = data[0];
        let rest = vstd::slice::slice_subrange(data, 1, data.len());
        assert(rest@ =~= data@.skip(1));
        let (request_type, bytes_read) = match RequestType::from_u8(request_type_value, rest) {
            Some(parsed) => parsed,
            None => return None,
        };
        if data.len() - bytes_read < 16 {
            return None;
        }
        let time_created_start = 1 + bytes_read;
        let time_created_end = time_created_start + 16;
        let time_created = be_decode(data, time_created_start, 16);
        let content_length = bytes_to_u64(data, time_created_end);
        Some(Self { request_type, time_created, content_length })
    }

    /// Whether `deserialize(data)` can complete: false exactly on the inputs on
    /// which reading a header cannot (see `header_read_faults`).
    pub fn is_well_framed(data: &[u8]) -> (r: bool)
        ensures
            r == !header_read_faults(data@),
    {
        if data.len() < 16 {
            return true;
        }
        let value = data[0];
        let rest = vstd::slice::slice_subrange(data, 1, data.len());
        assert(rest@ =~= data@.skip(1));
        let field_len: usize = if value == 1 || value == 4 {
            match deserialize_string(rest) {
                Some((_, n)) => n,
                None => return false,
            }
        } else if 2 <= value && value <= 5 {
            0
        } else {
            return true;
        };
        let after = data.len() - field_len;
        !(16 <= after && after < 25)
    }
}

} // verus!
