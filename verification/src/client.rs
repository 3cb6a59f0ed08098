//! What the client sends and how it reads what comes back.
use crate::header::{clock_millis, Header};
use crate::request::{Request, RequestType, RequestTypeView};
use vstd::prelude::*;
use vstd::string::StringExecFns;
use vstd::utf8::encode_utf8;

verus! {

/// A request of the given kind carrying the given length, stamped now.
fn request_of(request_type: RequestType, size: u64) -> (r: Request)
    ensures
        r.header.request_type == request_type,
        r.header.content_length == size,
{
    Request::new(Header::new(request_type, size))
}

/// The request for `ping`: kind `Ping`, length 0, stamped with the clock's
/// reading (made by `ping_request_at`).
pub fn ping_request() -> (r: Request)
    ensures
        r.header.request_type@ == RequestTypeView::Ping,
        r.header.content_length == 0,
{
    ping_request_at(clock_millis())
}

/// The request for `ping` made at clock reading `now` (milliseconds since the
/// Unix epoch): kind `Ping`, length 0, stamped `now`.
pub fn ping_request_at(now: u128) -> (r: Request)
    ensures
        r.header.request_type@ == RequestTypeView::Ping,
        r.header.content_length == 0,
        r.header.time_created == now,
{
    Request::new(Header::new_at(RequestType::Ping, 0, now))
}

/// The request for `pwd`: kind `Pwd`, length 0.
pub fn pwd_request() -> (r: Request)
    ensures
        r.header.request_type@ == RequestTypeView::Pwd,
        r.header.content_length == 0,
{
    request_of(RequestType::Pwd, 0)
}

/// The request to download `file_name`: kind `Download` with the name, and as
/// length the byte length of the name.
pub fn download_request(file_name: &str) -> (r: Request)
    ensures
        r.header.request_type@ == RequestTypeView::Download(file_name@),
        r.header.content_length == encode_utf8(file_name@).len(),
{
    let size = file_name.as_bytes().len() as u64;
    request_of(RequestType::Download(String::from_str(file_name)), size)
}

/// The request to change the server's directory to `path`: kind `Cd` with the
/// path, and as length the byte length of the path.
pub fn cd_request(path: &str) -> (r: Request)
    ensures
        r.header.request_type@ == RequestTypeView::Cd(path@),
        r.header.content_length == encode_utf8(path@).len(),
{
    let size = path.as_bytes().len() as u64;
    request_of(RequestType::Cd(String::from_str(path)), size)
}

/// Milliseconds from the making of `sent` to the making of `received`.
pub fn elapsed_ms(sent: &Header, received: &Header) -> (r: u128)
    requires
        sent.time_created <= received.time_created,
    ensures
        r == received.time_created - sent.time_created,
{
    received.time_created - sent.time_created
}

/// The bytes `E`, `O`, `F` that end a download.
pub open spec fn eof_marker() -> Seq<u8> {
    seq![69u8, 79u8, 70u8]
}

/// Whether `chunk` ends with the end-of-download marker.
pub open spec fn ends_with_eof(chunk: Seq<u8>) -> bool {
    chunk.len() >= 3 && chunk.subrange(chunk.len() - 3, chunk.len() as int) == eof_marker()
}

/// The end-of-download marker is exactly the last three bytes of a chunk being
/// `E`, `O`, `F` (69, 79, 70): a chunk of any length that does not end so is no
/// end of the download.
pub proof fn lemma_eof_is_last_three_bytes(chunk: Seq<u8>)
    ensures
        ends_with_eof(chunk) <==> (chunk.len() >= 3 && chunk[chunk.len() - 3] == 69
            && chunk[chunk.len() - 2] == 79 && chunk[chunk.len() - 1] == 70),
{
    if chunk.len() >= 3 {
        let tail = chunk.subrange(chunk.len() - 3, chunk.len() as int);
        if chunk[chunk.len() - 3] == 69 && chunk[chunk.len() - 2] == 79 && chunk[chunk.len() - 1]
            == 70 {
            assert(tail =~= eof_marker());
        }
        if tail == eof_marker() {
            assert(tail[0] == 69 && tail[1] == 79 && tail[2] == 70);
        }
    }
}

/// For a chunk of a download as read from the server: how many of its bytes
/// belong to the file, and whether the download is complete. A chunk that ends
/// with the marker completes it, and the marker is not part of the file.
pub fn download_chunk(chunk: &[u8]) -> (r: (usize, bool))
    requires
        chunk@.len() > 0,
    ensures
        r.1 == ends_with_eof(chunk@),
        r.1 <==> (chunk@.len() >= 3 && chunk@[chunk@.len() - 3] == 69
            && chunk@[chunk@.len() - 2] == 79 && chunk@[chunk@.len() - 1] == 70),
        !r.1 ==> r.0 == chunk@.len(),
        r.1 ==> r.0 + 3 == chunk@.len(),
        r.0 == if r.1 {
            chunk@.len() - 3
        } else {
            chunk@.len() as int
        },
{
    let n = chunk.len();
    let done = n >= 3 && chunk[n - 3] == 69 && chunk[n - 2] == 79 && chunk[n - 1] == 70;
    proof {
        if n >= 3 {
            let tail = chunk@.subrange(n - 3, n as int);
            assert(done ==> tail =~= eof_marker());
            assert(tail == eof_marker() ==> tail[0] == 69 && tail[1] == 79 && tail[2] == 70);
        }
    }
    if done {
        (n - 3, true)
    } else {
        (n, false)
    }
}

} // verus!
