//! The commands a user types at the client's prompt.
use vstd::prelude::*;
use vstd::string::{StrSliceExecFns, StringExecFns};

verus! {

/// A command read from one line of input.
pub enum CommandType {
    Cd(String),
    Ping,
    Pwd,
    Download(Vec<String>),
    Unknow,
}

/// A `CommandType` with its strings taken as character sequences.
pub enum CommandView {
    Cd(Seq<char>),
    Ping,
    Pwd,
    Download(Seq<Seq<char>>),
    Unknow,
}

impl View for CommandType {
    type V = CommandView;

    open spec fn view(&self) -> CommandView {
        match self {
            CommandType::Cd(s) => CommandView::Cd(s@),
            CommandType::Ping => CommandView::Ping,
            CommandType::Pwd => CommandView::Pwd,
            CommandType::Download(names) => CommandView::Download(names.deep_view()),
            CommandType::Unknow => CommandView::Unknow,
        }
    }
}

/// Whether `c` has the Unicode `White_Space` property: tab, line feed, vertical
/// tab, form feed, carriage return, space, next line, no-break space, Ogham
/// space mark, the spaces U+2000 to U+200A, line and paragraph separators,
/// narrow no-break space, medium mathematical space and ideographic space.
pub open spec fn unicode_white_space(c: char) -> bool {
    let u = c as u32;
    ||| 0x9 <= u <= 0xd
    ||| u == 0x20 || u == 0x85 || u == 0xa0 || u == 0x1680
    ||| 0x2000 <= u <= 0x200a
    ||| u == 0x2028 || u == 0x2029 || u == 0x202f || u == 0x205f || u == 0x3000
}

/// The lowercase mapping of a string (the result of `str::to_lowercase`).
pub uninterp spec fn unicode_lowercase(s: Seq<char>) -> Seq<char>;

/// `s` with each ASCII capital letter replaced by its small letter.
pub open spec fn ascii_lowercase(s: Seq<char>) -> Seq<char> {
    Seq::new(
        s.len(),
        |i: int|
            if 'A' <= s[i] <= 'Z' {
                ((s[i] as u32) + 32) as char
            } else {
                s[i]
            },
    )
}

/// `char::is_whitespace`: whether `c` has the Unicode `White_Space` property,
/// whose characters `unicode_white_space` lists.
#[verifier::external_body]
fn is_whitespace(c: char) -> (r: bool)
    ensures
        r == unicode_white_space(c),
{
    c.is_whitespace()
}

/// `str::to_lowercase`: the lowercase mapping of `s`. The contract names the
/// result and spells it out for ASCII text only, where Unicode's mapping lowers
/// the capital letters `A` to `Z` and keeps every other character; it does not
/// spell out Unicode's case mapping beyond ASCII.
#[verifier::external_body]
fn to_lowercase(s: &str) -> (r: String)
    ensures
        r@ == unicode_lowercase(s@),
        vstd::utf8::is_ascii_chars(s@) ==> r@ == ascii_lowercase(s@),
{
    s.to_lowercase()
}

/// Scans `s` from the left: the words completed so far and the word being read
/// (empty between words). A word is a run of characters that are not white space.
pub open spec fn scan_words(s: Seq<char>) -> (Seq<Seq<char>>, Seq<char>)
    decreases s.len(),
{
    if s.len() == 0 {
        (Seq::empty(), Seq::empty())
    } else {
        let (words, current) = scan_words(s.drop_last());
        let c = s.last();
        if unicode_white_space(c) {
            if current.len() > 0 {
                (words.push(current), Seq::empty())
            } else {
                (words, current)
            }
        } else {
            (words, current.push(c))
        }
    }
}

/// The words of `s`, in order: its maximal runs of characters that are not
/// white space.
pub open spec fn split_words(s: Seq<char>) -> Seq<Seq<char>> {
    let (words, current) = scan_words(s);
    if current.len() > 0 {
        words.push(current)
    } else {
        words
    }
}

/// The command that a line with words `words`, whose first word lowercased is
/// `keyword`, stands for: `ping`, `pwd`; `cd` with exactly one argument;
/// `download` with all the words after it; anything else is unknown.
pub open spec fn command_for(keyword: Seq<char>, words: Seq<Seq<char>>) -> CommandView {
    if keyword == seq!['p', 'i', 'n', 'g'] {
        CommandView::Ping
    } else if keyword == seq!['c', 'd'] {
        if words.len() == 2 {
            CommandView::Cd(words[1])
        } else {
            CommandView::Unknow
        }
    } else if keyword == seq!['p', 'w', 'd'] {
        CommandView::Pwd
    } else if keyword == seq!['d', 'o', 'w', 'n', 'l', 'o', 'a', 'd'] {
        CommandView::Download(words.skip(1))
    } else {
        CommandView::Unknow
    }
}

/// The command that the line `input` stands for.
pub open spec fn command_of_line(input: Seq<char>) -> CommandView {
    let words = split_words(input);
    command_for(unicode_lowercase(words[0]), words)
}

/// The command that the line `input` stands for when its first word is ASCII.
pub open spec fn command_of_ascii_line(input: Seq<char>) -> CommandView {
    let words = split_words(input);
    command_for(ascii_lowercase(words[0]), words)
}

/// The words of `input`, in order.
pub fn split_whitespace(input: &str) -> (words: Vec<String>)
    ensures
        words.deep_view() == split_words(input@),
{
    let n = input.unicode_len();
    let mut words: Vec<String> = Vec::new();
    let mut start: usize = 0;
    let mut in_word = false;
    let mut i: usize = 0;
    while i < n
        invariant
            n == input@.len(),
            i <= n,
            start <= i,
            words.deep_view() == scan_words(input@.take(i as int)).0,
            in_word == (scan_words(input@.take(i as int)).1.len() > 0),
            in_word ==> scan_words(input@.take(i as int)).1 == input@.subrange(start as int, i as int),
        decreases n - i,
    {
        let c = input.get_char(i);
        let ghost prev = input@.take(i as int);
        assert(input@.take(i + 1).drop_last() =~= prev);
        if is_whitespace(c) {
            if in_word {
                let word = String::from_str(input.substring_char(start, i));
                let ghost before = words.deep_view();
                words.push(word);
                assert(words.deep_view() =~= before.push(word@));
                in_word = false;
            }
        } else {
            if !in_word {
                start = i;
                in_word = true;
            }
            assert(input@.subrange(start as int, i + 1) =~= input@.subrange(start as int, i as int).push(c));
        }
        i = i + 1;
    }
    assert(input@.take(n as int) =~= input@);
    if in_word {
        let word = String::from_str(input.substring_char(start, n));
        let ghost before = words.deep_view();
        words.push(word);
        assert(words.deep_view() =~= before.push(word@));
    }
    words
}

/// The command for a line with words `words`, of which `keyword` is the first
/// lowercased.
pub fn command_from_words(keyword: &String, words: &Vec<String>) -> (r: CommandType)
    requires
        words.len() > 0,
    ensures
        r@ == command_for(keyword@, words.deep_view()),
        keyword@ == seq!['c', 'd'] && words.len() == 2 ==> (r matches CommandType::Cd(dir)
            && dir@ == words@[1]@),
        keyword@ == seq!['d', 'o', 'w', 'n', 'l', 'o', 'a', 'd'] ==> (
        r matches CommandType::Download(names) && names.len() + 1 == words.len() && forall|
            i: int,
        |
            0 <= i < names.len() ==> #[trigger] names@[i]@ == words@[i + 1]@),
{
    let ping = String::from_str("ping");
    let cd = String::from_str("cd");
    let pwd = String::from_str("pwd");
    let download = String::from_str("download");
    proof {
        reveal_strlit("ping");
        reveal_strlit("cd");
        reveal_strlit("pwd");
        reveal_strlit("download");
        assert(ping@ =~= seq!['p', 'i', 'n', 'g']);
        assert(cd@ =~= seq!['c', 'd']);
        assert(pwd@ =~= seq!['p', 'w', 'd']);
        assert(download@ =~= seq!['d', 'o', 'w', 'n', 'l', 'o', 'a', 'd']);
    }
    if *keyword == ping {
        CommandType::Ping
    } else if *keyword == cd {
        if words.len() > 1 && words.len() < 3 {
            let word = words[1].clone();
            assert(word@ == words.deep_view()[1]);
            CommandType::Cd(word)
        } else {
            CommandType::Unknow
        }
    } else if *keyword == pwd {
        CommandType::Pwd
    } else if *keyword == download {
        let mut names: Vec<String> = Vec::new();
        let mut i: usize = 1;
        while i < words.len()
            invariant
                1 <= i <= words.len(),
                names.deep_view() == words.deep_view().subrange(1, i as int),
            decreases words.len() - i,
        {
            let ghost before = names.deep_view();
            let word = words[i].clone();
            assert(word@ == words.deep_view()[i as int]);
            names.push(word);
            assert(names.deep_view() =~= before.push(word@));
            assert(names.deep_view() =~= words.deep_view().subrange(1, i + 1));
            i = i + 1;
        }
        assert(words.deep_view().subrange(1, words.len() as int) =~= words.deep_view().skip(1));
        assert(names.deep_view().len() == names@.len());
        assert forall|j: int| 0 <= j < names.len() implies #[trigger] names@[j]@ == words@[j + 1]@ by {
            assert(names.deep_view()[j] == names@[j]@);
            assert(words.deep_view()[j + 1] == words@[j + 1]@);
        }
        CommandType::Download(names)
    } else {
        CommandType::Unknow
    }
}

/// The command that the line `input` stands for; the line must hold a word.
pub fn parse_line(input: &String) -> (r: CommandType)
    requires
        split_words(input@).len() > 0,
    ensures
        r@ == command_of_line(input@),
        vstd::utf8::is_ascii_chars(split_words(input@)[0]) ==> r@ == command_of_ascii_line(input@),
        split_words(input@).len() == 2 && unicode_lowercase(split_words(input@)[0]) == seq![
            'c',
            'd',
        ] ==> (r matches CommandType::Cd(dir) && dir@ == split_words(input@)[1]),
{
    let words = split_whitespace(input.as_str());
    let keyword = to_lowercase(words[0].as_str());
    command_from_words(&keyword, &words)
}

/// The command that the line `input` stands for, or `None` for a line with no
/// word in it.
pub fn parse_command(input: &String) -> (r: Option<CommandType>)
    ensures
        split_words(input@).len() == 0 ==> r is None,
        split_words(input@).len() > 0 ==> (r matches Some(c) && c@ == command_of_line(input@)),
        split_words(input@).len() > 0 && vstd::utf8::is_ascii_chars(split_words(input@)[0]) ==> (
        r matches Some(c) && c@ == command_of_ascii_line(input@)),
{
    let words = split_whitespace(input.as_str());
    if words.len() == 0 {
        None
    } else {
        Some(parse_line(input))
    }
}

/// With exactly one argument, `cd` carries that argument as typed, character
/// for character; only the keyword is lowercased.
pub proof fn lemma_cd_keeps_argument(input: Seq<char>)
    requires
        split_words(input).len() == 2,
        unicode_lowercase(split_words(input)[0]) == seq!['c', 'd'],
    ensures
        command_of_line(input) == CommandView::Cd(split_words(input)[1]),
{
}

/// `download` carries every word after it, in order and as typed.
pub proof fn lemma_download_keeps_names(input: Seq<char>)
    requires
        split_words(input).len() > 0,
        unicode_lowercase(split_words(input)[0]) == seq!['d', 'o', 'w', 'n', 'l', 'o', 'a', 'd'],
    ensures
        command_of_line(input) matches CommandView::Download(names) && names.len() + 1
            == split_words(input).len() && forall|i: int|
            0 <= i < names.len() ==> #[trigger] names[i] == split_words(input)[i + 1],
{
}

} // verus!
