//! Sending a program to the server from the command line.

use crate::text::{chars_of, same_text};
use std::path::Path;
use vstd::prelude::*;

verus! {

/// How long the reply to one probe is waited for when the server is looked
/// for, in milliseconds.
pub const DISCOVERY_TIMEOUT_MS: u64 = 250;

/// How many probes are sent for the server unless told otherwise.
pub const DEFAULT_RETRIES: u32 = 10;

/// Whether a character is white space, as Unicode defines it.
pub open spec fn is_whitespace(c: char) -> bool {
    let code = c as u32;
    ||| 0x09 <= code <= 0x0d
    ||| code == 0x20
    ||| code == 0x85
    ||| code == 0xa0
    ||| code == 0x1680
    ||| 0x2000 <= code <= 0x200a
    ||| code == 0x2028
    ||| code == 0x2029
    ||| code == 0x202f
    ||| code == 0x205f
    ||| code == 0x3000
}

/// Tells whether a character is white space.
pub fn is_whitespace_char(c: char) -> (white: bool)
    ensures
        white == is_whitespace(c),
{
    let code = c as u32;
    (0x09 <= code && code <= 0x0d) || code == 0x20 || code == 0x85 || code == 0xa0 || code
        == 0x1680 || (0x2000 <= code && code <= 0x200a) || code == 0x2028 || code == 0x2029 || code
        == 0x202f || code == 0x205f || code == 0x3000
}

/// `text` without the white space at its start.
pub open spec fn trim_start(text: Seq<char>) -> Seq<char>
    decreases text.len(),
{
    if text.len() > 0 && is_whitespace(text.first()) {
        trim_start(text.drop_first())
    } else {
        text
    }
}

/// `text` without the white space at its end.
pub open spec fn trim_end(text: Seq<char>) -> Seq<char>
    decreases text.len(),
{
    if text.len() > 0 && is_whitespace(text.last()) {
        trim_end(text.drop_last())
    } else {
        text
    }
}

/// `text` without the white space at its start and at its end.
pub open spec fn trimmed(text: Seq<char>) -> Seq<char> {
    trim_end(trim_start(text))
}

/// How many characters stand before the first `stop` in `text`: all of them
/// if there is none.
pub open spec fn run_len(text: Seq<char>, stop: char) -> nat
    decreases text.len(),
{
    if text.len() == 0 || text.first() == stop {
        0
    } else {
        1 + run_len(text.drop_first(), stop)
    }
}

/// The arguments that a line of text holds.
///
/// Spaces separate arguments. An argument that starts with a quote, double or
/// single, runs up to the next quote of the same kind, or to the end of the
/// line where there is none, and the quotes are not part of it; any other
/// argument runs up to the next space, and quotes inside it are characters
/// like any other. The character that ends an argument is dropped. An empty
/// pair of quotes is no argument.
pub open spec fn split_args(text: Seq<char>) -> Seq<Seq<char>>
    decreases text.len(),
{
    if text.len() == 0 {
        Seq::empty()
    } else {
        let first = text.first();
        let rest = text.drop_first();
        if first == ' ' {
            split_args(rest)
        } else {
            let quoted = first == '"' || first == '\'';
            let stop = if quoted {
                first
            } else {
                ' '
            };
            let len = run_len(rest, stop) as int;
            let word = if quoted {
                rest.take(len)
            } else {
                seq![first] + rest.take(len)
            };
            let after = if len < rest.len() {
                rest.skip(len + 1)
            } else {
                Seq::empty()
            };
            if word.len() > 0 {
                seq![word] + split_args(after)
            } else {
                split_args(after)
            }
        }
    }
}

/// A run ends where the first `stop` stands.
proof fn lemma_run_len(text: Seq<char>, stop: char, len: int)
    requires
        0 <= len <= text.len(),
        forall|i: int| 0 <= i < len ==> text[i] != stop,
        len < text.len() ==> text[len] == stop,
    ensures
        run_len(text, stop) == len,
    decreases text.len(),
{
    if len > 0 {
        lemma_run_len(text.drop_first(), stop, len - 1);
    }
}

/// The part of `chars` that is left when the white space at both ends is
/// taken off.
pub fn trim(chars: &[char]) -> (kept: &[char])
    ensures
        kept@ == trimmed(chars@),
{
    let mut start: usize = 0;
    proof {
        assert(chars@.skip(0) =~= chars@);
    }
    while start < chars.len() && is_whitespace_char(chars[start])
        invariant
            start <= chars.len(),
            trim_start(chars@) == trim_start(chars@.skip(start as int)),
        decreases chars.len() - start,
    {
        proof {
            assert(chars@.skip(start as int).drop_first() =~= chars@.skip(start + 1));
        }
        start += 1;
    }
    let mut end: usize = chars.len();
    proof {
        assert(chars@.subrange(start as int, end as int) =~= chars@.skip(start as int));
    }
    while end > start && is_whitespace_char(chars[end - 1])
        invariant
            start <= end <= chars.len(),
            trimmed(chars@) == trim_end(chars@.subrange(start as int, end as int)),
        decreases end,
    {
        proof {
            assert(chars@.subrange(start as int, end as int).drop_last() =~= chars@.subrange(
                start as int,
                end - 1,
            ));
        }
        end -= 1;
    }
    vstd::slice::slice_subrange(chars, start, end)
}

/// Takes a line of characters apart into its arguments.
pub fn split(text: &[char]) -> (words: Vec<String>)
    ensures
        words.deep_view() == split_args(text@),
{
    let mut words: Vec<String> = Vec::new();
    let mut pos: usize = 0;
    proof {
        assert(text@.skip(0) =~= text@);
        assert(words.deep_view() =~= Seq::<Seq<char>>::empty());
    }
    while pos < text.len()
        invariant
            pos <= text.len(),
            split_args(text@) == words.deep_view() + split_args(text@.skip(pos as int)),
        decreases text.len() - pos,
    {
        let ghost line = text@.skip(pos as int);
        let ghost before = words.deep_view();
        let first = text[pos];
        pos += 1;
        let ghost rest = text@.skip(pos as int);
        proof {
            assert(line.first() == first);
            assert(line.drop_first() =~= rest);
        }
        if first != ' ' {
            let quoted = first == '"' || first == '\'';
            let stop = if quoted {
                first
            } else {
                ' '
            };
            let mut word = String::new();
            if !quoted {
                word.push(first);
            }
            let ghost head = word@;
            let ghost begin = pos;
            proof {
                assert(rest.take(0) =~= Seq::<char>::empty());
                assert(word@ =~= head + rest.take(0));
            }
            while pos < text.len() && text[pos] != stop
                invariant
                    begin <= pos <= text.len(),
                    rest == text@.skip(begin as int),
                    word@ == head + rest.take(pos - begin),
                    forall|i: int| 0 <= i < pos - begin ==> rest[i] != stop,
                decreases text.len() - pos,
            {
                word.push(text[pos]);
                proof {
                    assert(rest.take(pos - begin).push(text@[pos as int]) =~= rest.take(
                        pos + 1 - begin,
                    ));
                    assert(word@ =~= head + rest.take(pos + 1 - begin));
                }
                pos += 1;
            }
            let ghost len = pos - begin;
            proof {
                lemma_run_len(rest, stop, len);
            }
            if pos < text.len() {
                pos += 1;
                proof {
                    assert(rest.skip(len + 1) =~= text@.skip(pos as int));
                }
            } else {
                proof {
                    assert(text@.skip(pos as int) =~= Seq::<char>::empty());
                }
            }
            if !word.as_str().is_empty() {
                let ghost found = word@;
                words.push(word);
                proof {
                    assert(words.deep_view() =~= before.push(found));
                    assert(before + (seq![found] + split_args(text@.skip(pos as int)))
                        =~= before.push(found) + split_args(text@.skip(pos as int)));
                }
            }
        }
    }
    proof {
        assert(text@.skip(pos as int) =~= Seq::<char>::empty());
        assert(words.deep_view() + Seq::<Seq<char>>::empty() =~= words.deep_view());
    }
    words
}

/// Takes the arguments that were given in one piece apart: the text without
/// the white space around it, split into its arguments.
pub fn parse_extra_args(args: String) -> (words: Vec<String>)
    ensures
        words.deep_view() == split_args(trimmed(args@)),
{
    let chars = chars_of(args.as_str());
    split(trim(chars.as_slice()))
}

/// The suffix that marks a program which the server can run.
pub open spec fn nro_extension() -> Seq<char> {
    "nro"@
}

/// What `std::path::Path::extension` finds in a path: the part of the last
/// component behind its last dot, where there is one.
pub uninterp spec fn path_extension(path: Seq<char>) -> Option<Seq<char>>;

/// What `std::path::Path::file_name` finds in a path: its last component,
/// where that is a name.
pub uninterp spec fn path_file_name(path: Seq<char>) -> Option<Seq<char>>;

/// What `std::path::Path::join` makes of a path and a name.
pub uninterp spec fn path_join(base: Seq<char>, name: Seq<char>) -> Seq<char>;

/// An optional string as an optional sequence of characters.
pub open spec fn text_of(text: Option<String>) -> Option<Seq<char>> {
    match text {
        Some(text) => Some(text@),
        None => None,
    }
}

/// `std::path::Path::extension` of the path that `path` spells, as text.
#[verifier::external_body]
fn extension_of(path: &str) -> (extension: Option<String>)
    ensures
        text_of(extension) == path_extension(path@),
{
    let extension = Path::new(path).extension()?;
    Some(extension.to_string_lossy().into_owned())
}

/// `std::path::Path::file_name` of the path that `path` spells, as text.
#[verifier::external_body]
fn file_name_of(path: &str) -> (name: Option<String>)
    ensures
        text_of(name) == path_file_name(path@),
{
    let name = Path::new(path).file_name()?;
    Some(name.to_string_lossy().into_owned())
}

/// `std::path::Path::join` of the path that `base` spells with `name`, as
/// text.
#[verifier::external_body]
fn join_path(base: &str, name: &str) -> (joined: String)
    ensures
        joined@ == path_join(base@, name@),
{
    Path::new(base).join(name).to_string_lossy().into_owned()
}

/// Why a file cannot be sent as asked.
#[derive(Debug, Clone, Copy, PartialEq, Eq, Structural)]
pub enum LinkError {
    /// The file to send does not have the extension of a program.
    NotAnNroFile,
    /// The path of the file to send does not end in a name.
    NoFileName,
    /// The upload path names neither a program nor a directory.
    InvalidPath,
}

/// What an upload path asks for.
#[derive(Debug, Clone, Copy, PartialEq, Eq, Structural)]
pub enum UploadPath {
    /// The path is the name under which the file is to be saved.
    File,
    /// The path is a directory in which the file keeps its own name.
    Directory,
    /// The path is neither.
    Invalid,
}

/// How an upload path is read, given its extension: a path with the
/// extension of a program names the file itself, any other path that ends in a
/// slash names a directory, and the rest is refused.
pub open spec fn upload_path_kind(path: Seq<char>, extension: Option<Seq<char>>) -> UploadPath {
    if extension == Some(nro_extension()) {
        UploadPath::File
    } else if path.len() > 0 && path.last() == '/' {
        UploadPath::Directory
    } else {
        UploadPath::Invalid
    }
}

/// The name under which the server is to save a file called `file_name`,
/// given the upload path that was asked for, its extension and what joining
/// path and name gives: the file's own name where no path was asked for.
pub open spec fn destination_rule(
    path: Option<Seq<char>>,
    extension: Option<Seq<char>>,
    joined: Seq<char>,
    file_name: Seq<char>,
) -> Result<Seq<char>, LinkError> {
    match path {
        None => Ok(file_name),
        Some(path) => match upload_path_kind(path, extension) {
            UploadPath::File => Ok(path),
            UploadPath::Directory => Ok(joined),
            UploadPath::Invalid => Err(LinkError::InvalidPath),
        },
    }
}

/// The name of the file to send, given the extension and the last component
/// of its path: the file must have the extension of a program.
pub open spec fn file_name_rule(extension: Option<Seq<char>>, name: Option<Seq<char>>) -> Result<
    Seq<char>,
    LinkError,
> {
    if extension != Some(nro_extension()) {
        Err(LinkError::NotAnNroFile)
    } else {
        match name {
            Some(name) => Ok(name),
            None => Err(LinkError::NoFileName),
        }
    }
}

/// A result that holds a string as one that holds a sequence of characters.
pub open spec fn named(result: Result<String, LinkError>) -> Result<Seq<char>, LinkError> {
    match result {
        Ok(name) => Ok(name@),
        Err(error) => Err(error),
    }
}

/// Tells whether an extension is that of a program.
pub fn is_nro_extension(extension: &Option<String>) -> (nro: bool)
    ensures
        nro == (text_of(*extension) == Some(nro_extension())),
{
    match extension {
        Some(extension) => same_text(extension.as_str(), "nro"),
        None => false,
    }
}

/// Reads an upload path, given its extension.
pub fn classify_upload_path(path: &str, extension: &Option<String>) -> (kind: UploadPath)
    ensures
        kind == upload_path_kind(path@, text_of(*extension)),
{
    if is_nro_extension(extension) {
        UploadPath::File
    } else {
        let chars = chars_of(path);
        if chars.len() > 0 && chars[chars.len() - 1] == '/' {
            UploadPath::Directory
        } else {
            UploadPath::Invalid
        }
    }
}

/// The name of the file to send, given the extension and the last component
/// of its path.
pub fn checked_file_name(extension: &Option<String>, name: Option<String>) -> (result: Result<
    String,
    LinkError,
>)
    ensures
        named(result) == file_name_rule(text_of(*extension), text_of(name)),
{
    if !is_nro_extension(extension) {
        Err(LinkError::NotAnNroFile)
    } else {
        match name {
            Some(name) => Ok(name),
            None => Err(LinkError::NoFileName),
        }
    }
}

/// The name of the file to send: the last component of its path, which must
/// have the extension of a program.
pub fn nro_file_name(nro_file: &str) -> (result: Result<String, LinkError>)
    ensures
        named(result) == file_name_rule(path_extension(nro_file@), path_file_name(nro_file@)),
{
    let extension = extension_of(nro_file);
    checked_file_name(&extension, file_name_of(nro_file))
}

/// The name under which the server is to save the file: the upload path
/// itself if it names a program, the file's own name inside the upload path
/// if that is a directory, and the file's own name if no path was asked for.
pub fn upload_destination(path: Option<&str>, file_name: &str) -> (result: Result<
    String,
    LinkError,
>)
    ensures
        named(result) == match path {
            Some(path) => destination_rule(
                Some(path@),
                path_extension(path@),
                path_join(path@, file_name@),
                file_name@,
            ),
            None => Ok::<Seq<char>, LinkError>(file_name@),
        },
{
    match path {
        None => Ok(file_name.to_owned()),
        Some(path) => {
            let extension = extension_of(path);
            match classify_upload_path(path, &extension) {
                UploadPath::File => Ok(path.to_owned()),
                UploadPath::Directory => Ok(join_path(path, file_name)),
                UploadPath::Invalid => Err(LinkError::InvalidPath),
            }
        },
    }
}

/// The command line of the program: the arguments that were given one by one,
/// followed by those that were given in one piece.
pub fn nro_arguments(nro_args: Vec<String>, extra_args: Option<String>) -> (args: Vec<String>)
    ensures
        args.deep_view() == nro_args.deep_view() + match extra_args {
            Some(extra) => split_args(trimmed(extra@)),
            None => Seq::<Seq<char>>::empty(),
        },
{
    let mut args = nro_args;
    match extra_args {
        None => {
            proof {
                assert(args.deep_view() + Seq::<Seq<char>>::empty() =~= args.deep_view());
            }
        },
        Some(extra) => {
            let mut words = parse_extra_args(extra);
            let ghost first = args.deep_view();
            let ghost second = words.deep_view();
            args.append(&mut words);
            proof {
                assert(args.deep_view() =~= first + second);
            }
        },
    }
    args
}

} // verus!
