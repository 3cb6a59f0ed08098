use server_lib::client::{cd_request, download_chunk, download_request, elapsed_ms, ping_request, pwd_request};
use server_lib::command::{parse_command, parse_line, split_whitespace, CommandType};
use server_lib::header::Header;
use server_lib::request::{Request, RequestType};
use server_lib::response::Resposne;
use server_lib::server::{cd_step, download_answer, download_reply, file_path, missing_file_reply, needs_canonical_form, ping_reply, pwd_reply, serve, ServerAction};

fn parse(line: &str) -> CommandType {
    parse_line(&line.to_string())
}

#[test]
fn split_on_any_white_space() {
    assert_eq!(split_whitespace("  a  bc\td\n"), vec!["a", "bc", "d"]);
    assert_eq!(split_whitespace("word"), vec!["word"]);
    assert!(split_whitespace(" \t\n").is_empty());
    assert!(split_whitespace("").is_empty());
    assert_eq!(split_whitespace("x\u{3000}y"), vec!["x", "y"]);
}

#[test]
fn parse_simple_commands() {
    assert!(matches!(parse("ping\n"), CommandType::Ping));
    assert!(matches!(parse("  PiNg "), CommandType::Ping));
    assert!(matches!(parse("pwd"), CommandType::Pwd));
    assert!(matches!(parse("PWD extra"), CommandType::Pwd));
    assert!(matches!(parse("hello"), CommandType::Unknow));
}

#[test]
fn parse_cd_takes_exactly_one_argument() {
    match parse("cd some_dir\n") {
        CommandType::Cd(path) => assert_eq!(path, "some_dir"),
        _ => panic!("expected cd"),
    }
    assert!(matches!(parse("cd"), CommandType::Unknow));
    assert!(matches!(parse("cd a b"), CommandType::Unknow));
}

#[test]
fn parse_download_takes_every_name() {
    match parse("Download a.txt b.txt\n") {
        CommandType::Download(names) => assert_eq!(names, vec!["a.txt", "b.txt"]),
        _ => panic!("expected download"),
    }
    match parse("download") {
        CommandType::Download(names) => assert!(names.is_empty()),
        _ => panic!("expected download"),
    }
}

#[test]
fn parse_command_without_words() {
    assert!(parse_command(&"   \n".to_string()).is_none());
    assert!(matches!(parse_command(&"ping".to_string()), Some(CommandType::Ping)));
}

#[test]
fn client_requests() {
    let p = ping_request();
    assert_eq!(p.header.request_type, RequestType::Ping);
    assert_eq!(p.header.content_length, 0);
    let w = pwd_request();
    assert_eq!(w.header.request_type, RequestType::Pwd);
    let d = download_request("fé.txt");
    assert_eq!(d.header.request_type, RequestType::Download("fé.txt".to_string()));
    assert_eq!(d.header.content_length, 7);
    let c = cd_request("..");
    assert_eq!(c.header.request_type, RequestType::Cd("..".to_string()));
    assert_eq!(c.header.content_length, 2);
}

#[test]
fn elapsed_between_headers() {
    let sent = Header { time_created: 1000, content_length: 0, request_type: RequestType::Ping };
    let received = Header { time_created: 1250, content_length: 0, request_type: RequestType::Ping };
    assert_eq!(elapsed_ms(&sent, &received), 250);
}

#[test]
fn download_chunks() {
    assert_eq!(download_chunk(b"abcEOF"), (3, true));
    assert_eq!(download_chunk(b"EOF"), (0, true));
    assert_eq!(download_chunk(b"abc"), (3, false));
    assert_eq!(download_chunk(b"EO"), (2, false));
    assert_eq!(download_chunk(b"EOFx"), (4, false));
}

#[test]
fn server_replies() {
    let d = download_reply(&"a.txt".to_string());
    assert_eq!(d.header.request_type, RequestType::Download("a.txt".to_string()));
    assert_eq!(d.body, b"downloading a.txt".to_vec());
    assert_eq!(d.header.content_length, 17);

    let m = missing_file_reply();
    assert_eq!(m.header.request_type, RequestType::Wrong);
    assert_eq!(m.body, b"there is no such a file".to_vec());
    assert_eq!(m.header.content_length, 23);

    let p = ping_reply();
    assert_eq!(p.header.request_type, RequestType::Ping);
    assert_eq!(p.header.content_length, 0);
    assert!(p.body.is_empty());

    let w = pwd_reply("C:\\");
    assert_eq!(w.header.request_type, RequestType::Pwd);
    assert_eq!(w.body, b"C:\\".to_vec());
    assert_eq!(w.header.content_length, 3);
}

#[test]
fn server_paths() {
    assert_eq!(file_path("C:\\", "a.txt"), "C:\\\\a.txt");
    assert_eq!(file_path("dir", "f"), "dir\\f");
    assert!(needs_canonical_form("C:\\..\\x"));
    assert!(!needs_canonical_form("C:\\x"));
}

#[test]
fn cd_moves_only_into_directories() {
    let current = "C:\\".to_string();
    let (next, reply) = cd_step(&current, "C:\\data", true);
    assert_eq!(next, "C:\\data");
    assert_eq!(reply.header.request_type, RequestType::Cd("C:\\data".to_string()));
    assert_eq!(reply.body, b"C:\\data".to_vec());
    assert_eq!(reply.header.content_length, 7);

    let (stay, reply) = cd_step(&current, "C:\\nope", false);
    assert_eq!(stay, "C:\\");
    assert_eq!(reply.header.request_type, RequestType::Cd("C:\\nope".to_string()));
    assert_eq!(reply.body, b"C:\\".to_vec());
    assert_eq!(reply.header.content_length, 3);
}

#[test]
fn server_reads_what_client_sends() {
    let sent = download_request("my file.bin");
    let read = Request::deserialize(&sent.serialize()).unwrap();
    assert_eq!(read.header.request_type, RequestType::Download("my file.bin".to_string()));
    assert_eq!(read.header.content_length, 11);
    assert_eq!(read.header.time_created, sent.header.time_created);
}

#[test]
fn client_reads_ping_reply_with_length_bytes_as_body() {
    let reply = ping_reply();
    let read = Resposne::deserialize(&reply.serialize()).unwrap();
    assert_eq!(read.header.request_type, RequestType::Ping);
    assert_eq!(read.body, vec![0u8; 8]);
}

fn message(kind: RequestType) -> Vec<u8> {
    Header::new_at(kind, 0, 5).serialize()
}

#[test]
fn header_new_at_keeps_every_field() {
    let h = Header::new_at(RequestType::Pwd, 8, 123);
    assert_eq!(h.request_type, RequestType::Pwd);
    assert_eq!(h.content_length, 8);
    assert_eq!(h.time_created, 123);
}

#[test]
fn serve_decides_per_request() {
    match serve("C:\\", &message(RequestType::Download("a.txt".to_string()))) {
        ServerAction::Download { file_name, path } => {
            assert_eq!(file_name, "a.txt");
            assert_eq!(path, "C:\\\\a.txt");
        }
        _ => panic!("expected a download"),
    }
    match serve("C:\\", &message(RequestType::Ping)) {
        ServerAction::Reply(r) => {
            assert_eq!(r.header.request_type, RequestType::Ping);
            assert!(r.body.is_empty());
        }
        _ => panic!("expected a reply"),
    }
    match serve("D:\\x", &message(RequestType::Pwd)) {
        ServerAction::Reply(r) => {
            assert_eq!(r.header.request_type, RequestType::Pwd);
            assert_eq!(r.body, b"D:\\x".to_vec());
            assert_eq!(r.header.content_length, 4);
        }
        _ => panic!("expected a reply"),
    }
    match serve("C:\\", &message(RequestType::Cd("..".to_string()))) {
        ServerAction::ChangeDir { target } => assert_eq!(target, ".."),
        _ => panic!("expected a change of directory"),
    }
    assert!(matches!(serve("C:\\", &message(RequestType::Wrong)), ServerAction::Ignore));
    assert!(matches!(serve("C:\\", &[2u8, 0, 0]), ServerAction::Shutdown));
    assert!(matches!(serve("C:\\", &[]), ServerAction::Shutdown));
}

#[test]
fn download_answer_by_presence() {
    let name = "f.bin".to_string();
    let (yes, follows) = download_answer(&name, true);
    assert!(follows);
    assert_eq!(yes.header.request_type, RequestType::Download("f.bin".to_string()));
    assert_eq!(yes.body, b"downloading f.bin".to_vec());
    let (no, follows) = download_answer(&name, false);
    assert!(!follows);
    assert_eq!(no.header.request_type, RequestType::Wrong);
    assert_eq!(no.body, b"there is no such a file".to_vec());
    assert_eq!(no.header.content_length, 23);
}
