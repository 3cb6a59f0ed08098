//! What the server answers to each kind of request.
use crate::header::{clock_millis, header_read_faults, parse_header, Header};
use crate::request::{Request, RequestType, RequestTypeView};
use crate::response::Resposne;
use vstd::prelude::*;
use vstd::string::{StrSliceExecFns, StringExecFns};
use vstd::utf8::encode_utf8;

verus! {

/// The text that acknowledges a download: `downloading ` and the file's name.
pub open spec fn download_message(file_name: Seq<char>) -> Seq<char> {
    seq!['d', 'o', 'w', 'n', 'l', 'o', 'a', 'd', 'i', 'n', 'g', ' '] + file_name
}

/// The text that refuses a download of a file that is not there.
pub open spec fn missing_file_message() -> Seq<char> {
    seq![
        't', 'h', 'e', 'r', 'e', ' ', 'i', 's', ' ', 'n', 'o', ' ', 's', 'u', 'c', 'h', ' ', 'a',
        ' ', 'f', 'i', 'l', 'e',
    ]
}

/// A response of the given kind, stamped now, whose body is the UTF-8 of `text`
/// and whose length is the body's.
fn text_reply(request_type: RequestType, text: &str) -> (r: Resposne)
    ensures
        r.header.request_type == request_type,
        r.body@ == encode_utf8(text@),
        r.header.content_length == encode_utf8(text@).len(),
{
    text_reply_at(request_type, text, clock_millis())
}

/// As `text_reply`, stamped `now`.
fn text_reply_at(request_type: RequestType, text: &str, now: u128) -> (r: Resposne)
    ensures
        r.header.request_type == request_type,
        r.body@ == encode_utf8(text@),
        r.header.content_length == encode_utf8(text@).len(),
        r.header.time_created == now,
{
    let bytes = text.as_bytes();
    let mut response = Resposne::new(Header::new_at(request_type, bytes.len() as u64, now));
    response.body = vstd::slice::slice_to_vec(bytes);
    response
}

/// The answer to a request to download `file_name` that is there: kind
/// `Download` with the name, and as body `downloading ` and the name.
pub fn download_reply(file_name: &String) -> (r: Resposne)
    ensures
        r.header.request_type@ == RequestTypeView::Download(file_name@),
        r.body@ == encode_utf8(download_message(file_name@)),
        r.header.content_length == r.body@.len(),
{
    let text = String::from_str("downloading ").concat(file_name.as_str());
    proof {
        reveal_strlit("downloading ");
        assert(text@ =~= download_message(file_name@));
    }
    text_reply(RequestType::Download(file_name.clone()), text.as_str())
}

/// The answer to a request to download a file that is not there: kind `Wrong`,
/// and as body `there is no such a file`.
pub fn missing_file_reply() -> (r: Resposne)
    ensures
        r.header.request_type@ == RequestTypeView::Wrong,
        r.body@ == encode_utf8(missing_file_message()),
        r.header.content_length == r.body@.len(),
{
    let text = "there is no such a file";
    proof {
        reveal_strlit("there is no such a file");
        assert(text@ =~= missing_file_message());
    }
    text_reply(RequestType::Wrong, text)
}

/// The answer to `Ping`: kind `Ping`, length 0, empty body.
pub fn ping_reply() -> (r: Resposne)
    ensures
        r.header.request_type@ == RequestTypeView::Ping,
        r.header.content_length == 0,
        r.body@ == Seq::<u8>::empty(),
{
    ping_reply_at(clock_millis())
}

/// The answer to `Ping` made at clock reading `now` (milliseconds since the
/// Unix epoch): kind `Ping`, length 0, empty body, stamped `now`.
pub fn ping_reply_at(now: u128) -> (r: Resposne)
    ensures
        r.header.request_type@ == RequestTypeView::Ping,
        r.header.content_length == 0,
        r.body@ == Seq::<u8>::empty(),
        r.header.time_created == now,
{
    Resposne::new(Header::new_at(RequestType::Ping, 0, now))
}

/// The answer to `Pwd` in directory `path`: kind `Pwd`, and as body the path.
pub fn pwd_reply(path: &str) -> (r: Resposne)
    ensures
        r.header.request_type@ == RequestTypeView::Pwd,
        r.body@ == encode_utf8(path@),
        r.header.content_length == r.body@.len(),
{
    pwd_reply_at(path, clock_millis())
}

/// The answer to `Pwd` in directory `path` made at clock reading `now`: as
/// `pwd_reply`, stamped `now`.
pub fn pwd_reply_at(path: &str, now: u128) -> (r: Resposne)
    ensures
        r.header.request_type@ == RequestTypeView::Pwd,
        r.body@ == encode_utf8(path@),
        r.header.content_length == r.body@.len(),
        r.header.time_created == now,
{
    text_reply_at(RequestType::Pwd, path, now)
}

/// The path of `file_name` in directory `dir`: the two joined by a backslash.
pub fn file_path(dir: &str, file_name: &str) -> (r: String)
    ensures
        r@ == dir@ + seq!['\\'] + file_name@,
{
    let mut path = String::from_str(dir);
    path.append("\\");
    path.append(file_name);
    proof {
        reveal_strlit("\\");
    }
    path
}

/// Whether a joined path holds a `.` and so is to be put in canonical form.
pub fn needs_canonical_form(path: &str) -> (r: bool)
    ensures
        r == path@.contains('.'),
{
    let n = path.unicode_len();
    let mut i: usize = 0;
    while i < n
        invariant
            n == path@.len(),
            i <= n,
            forall|j: int| 0 <= j < i ==> path@[j] != '.',
        decreases n - i,
    {
        if path.get_char(i) == '.' {
            return true;
        }
        i = i + 1;
    }
    false
}

/// The step the server takes on `Cd`, in directory `current`, once the target
/// has been resolved to `resolved`: the new directory (the target if it is a
/// directory, else `current`), and the answer: kind `Cd` with the resolved
/// target, and as body the new directory.
pub fn cd_step(current: &String, resolved: &str, resolved_is_dir: bool) -> (r: (String, Resposne))
    ensures
        r.0@ == if resolved_is_dir {
            resolved@
        } else {
            current@
        },
        r.1.header.request_type@ == RequestTypeView::Cd(resolved@),
        r.1.body@ == encode_utf8(r.0@),
        r.1.header.content_length == r.1.body@.len(),
{
    let next = if resolved_is_dir {
        String::from_str(resolved)
    } else {
        current.clone()
    };
    let reply = text_reply(RequestType::Cd(String::from_str(resolved)), next.as_str());
    (next, reply)
}

/// The answer to a request to download `file_name`, given whether the file is
/// there: the acknowledgement (`download_reply`), to be followed by the file and
/// the end marker; or the refusal (`missing_file_reply`), with nothing after it.
/// The second part tells whether the file follows.
pub fn download_answer(file_name: &String, file_is_there: bool) -> (r: (Resposne, bool))
    ensures
        r.1 == file_is_there,
        file_is_there ==> r.0.header.request_type@ == RequestTypeView::Download(file_name@)
            && r.0.body@ == encode_utf8(download_message(file_name@)),
        !file_is_there ==> r.0.header.request_type@ == RequestTypeView::Wrong
            && r.0.body@ == encode_utf8(missing_file_message()),
        r.0.header.content_length == r.0.body@.len(),
{
    if file_is_there {
        (download_reply(file_name), true)
    } else {
        (missing_file_reply(), false)
    }
}

/// What the server does with one message it received.
pub enum ServerAction {
    /// The message holds no request: shut the connection down.
    Shutdown,
    /// Answer nothing.
    Ignore,
    /// Send this answer.
    Reply(Resposne),
    /// Look whether the file at `path` is there, then answer as
    /// `download_answer` says for `file_name`.
    Download { file_name: String, path: String },
    /// Resolve `target` against the current directory, then take `cd_step`.
    ChangeDir { target: String },
}

/// The server's decision on the message `data`, received in directory
/// `current`, with the clock read now: as `serve_at` at that reading.
pub fn serve(current: &str, data: &[u8]) -> (r: ServerAction)
    requires
        !header_read_faults(data@),
    ensures
        parse_header(data@) is None ==> r is Shutdown,
        parse_header(data@) matches Some(h) ==> match h.request_type {
            RequestTypeView::Download(name) => r matches ServerAction::Download { file_name, path }
                && file_name@ == name && path@ == current@ + seq!['\\'] + name,
            RequestTypeView::Ping => r matches ServerAction::Reply(answer)
                && answer.header.request_type@ == RequestTypeView::Ping
                && answer.header.content_length == 0 && answer.body@ == Seq::<u8>::empty(),
            RequestTypeView::Pwd => r matches ServerAction::Reply(answer)
                && answer.header.request_type@ == RequestTypeView::Pwd
                && answer.body@ == encode_utf8(current@)
                && answer.header.content_length == answer.body@.len(),
            RequestTypeView::Cd(t) => r matches ServerAction::ChangeDir { target }
                && target@ == t,
            RequestTypeView::Wrong => r is Ignore,
        },
{
    serve_at(current, data, clock_millis())
}

/// The server's decision on the message `data`, received in directory
/// `current`, at clock reading `now` (milliseconds since the Unix epoch): shut
/// down when no request can be read from it; for `Ping` and `Pwd` the answer,
/// stamped `now` whatever the request's own stamp; for `Download` the file to
/// look for, in `current`; for `Cd` the target to resolve; for `Wrong` nothing.
pub fn serve_at(current: &str, data: &[u8], now: u128) -> (r: ServerAction)
    requires
        !header_read_faults(data@),
    ensures
        parse_header(data@) is None ==> r is Shutdown,
        parse_header(data@) matches Some(h) ==> match h.request_type {
            RequestTypeView::Download(name) => r matches ServerAction::Download { file_name, path }
                && file_name@ == name && path@ == current@ + seq!['\\'] + name,
            RequestTypeView::Ping => r matches ServerAction::Reply(answer)
                && answer.header.request_type@ == RequestTypeView::Ping
                && answer.header.content_length == 0 && answer.body@ == Seq::<u8>::empty()
                && answer.header.time_created == now,
            RequestTypeView::Pwd => r matches ServerAction::Reply(answer)
                && answer.header.request_type@ == RequestTypeView::Pwd
                && answer.body@ == encode_utf8(current@)
                && answer.header.content_length == answer.body@.len()
                && answer.header.time_created == now,
            RequestTypeView::Cd(t) => r matches ServerAction::ChangeDir { target }
                && target@ == t,
            RequestTypeView::Wrong => r is Ignore,
        },
{
    match Request::deserialize(data) {
        None => ServerAction::Shutdown,
        Some(request) => match request.header.request_type {
            RequestType::Download(file_name) => {
                let path = file_path(current, file_name.as_str());
                ServerAction::Download { file_name, path }
            },
            RequestType::Ping => ServerAction::Reply(ping_reply_at(now)),
            RequestType::Pwd => ServerAction::Reply(pwd_reply_at(current, now)),
            RequestType::Cd(target) => ServerAction::ChangeDir { target },
            RequestType::Wrong => ServerAction::Ignore,
        },
    }
}

} // verus!
