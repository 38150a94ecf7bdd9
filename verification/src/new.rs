//! Starting a new project from a template.
//!
//! A template is a text with placeholders in angle brackets. A new project
//! gets its files from the templates of its kind, with the placeholders
//! replaced by what is known of the project.

use crate::text::same_text;
use vstd::prelude::*;

verus! {

/// The version that a new package starts with.
pub const INITIAL_VERSION: &'static str = "0.1.0";

/// The author that a new package names.
pub const DEFAULT_AUTHOR: &'static str = "aarch64-switch-rs authors";

/// The program id that a new package declares.
pub const DEFAULT_PROGRAM_ID: u64 = 0x0100AAAABBBBCCCC;

/// The edition of the language that a new package uses unless told otherwise.
pub const DEFAULT_EDITION: &'static str = "2021";

/// The kind of package that is created unless told otherwise.
pub const DEFAULT_PACKAGE_TYPE: &'static str = "nro";

/// The year of an edition of the language that a new package can use.
pub open spec fn edition_year(edition: Seq<char>) -> Option<u16> {
    if edition == "2015"@ {
        Some(2015u16)
    } else if edition == "2018"@ {
        Some(2018u16)
    } else if edition == "2021"@ {
        Some(2021u16)
    } else {
        None
    }
}

/// Reads the edition of the language that a new package is to use: one of
/// the editions that are supported, by its year.
pub fn parse_edition(edition: &str) -> (year: Option<u16>)
    ensures
        year == edition_year(edition@),
{
    if same_text(edition, "2015") {
        Some(2015)
    } else if same_text(edition, "2018") {
        Some(2018)
    } else if same_text(edition, "2021") {
        Some(2021)
    } else {
        None
    }
}

/// The kinds of package that a project can build.
#[derive(Debug, Clone, Copy, PartialEq, Eq, Structural)]
pub enum PackageKind {
    /// A library.
    Lib,
    /// A homebrew application.
    Nro,
    /// A system module.
    Nsp,
}

impl PackageKind {
    /// The name of the kind, as it is written on the command line.
    pub open spec fn name(self) -> Seq<char> {
        match self {
            PackageKind::Lib => "lib"@,
            PackageKind::Nro => "nro"@,
            PackageKind::Nsp => "nsp"@,
        }
    }

    /// The name of the source file that a package of this kind starts
    /// from.
    pub open spec fn source_file(self) -> Seq<char> {
        match self {
            PackageKind::Lib => "lib.rs"@,
            _ => "main.rs"@,
        }
    }

    /// The name of the kind, as it is written on the command line.
    pub fn as_str(&self) -> (name: &'static str)
        ensures
            name@ == self.name(),
    {
        match self {
            PackageKind::Lib => "lib",
            PackageKind::Nro => "nro",
            PackageKind::Nsp => "nsp",
        }
    }

    /// The name of the kind as an owned string.
    pub fn to_string(&self) -> (name: String)
        ensures
            name@ == self.name(),
    {
        self.as_str().to_owned()
    }

    /// The name of the source file that a package of this kind starts from:
    /// a library has no `main`.
    pub fn source_file_name(&self) -> (name: &'static str)
        ensures
            name@ == self.source_file(),
    {
        match self {
            PackageKind::Lib => "lib.rs",
            PackageKind::Nro => "main.rs",
            PackageKind::Nsp => "main.rs",
        }
    }
}

/// The line that a project fresh from the library template logs.
pub fn hello() -> (greeting: &'static str)
    ensures
        greeting@ == "Hello world!"@,
{
    "Hello world!"
}

/// What is known of a new package.
#[derive(Debug, Clone, Copy)]
pub struct PackageInfo<'a> {
    /// The name of the package.
    pub name: &'a str,
    /// Who wrote it.
    pub author: &'a str,
    /// Its version.
    pub version: &'a str,
    /// The edition of the language it is written in.
    pub edition: u16,
    /// The id under which the console knows the program.
    pub program_id: u64,
}

/// The digits, in the order of their values.
pub open spec fn digits() -> Seq<char> {
    "0123456789ABCDEF"@
}

/// A number in decimal, without sign or leading zeros.
pub open spec fn decimal(value: nat) -> Seq<char>
    decreases value,
{
    if value < 10 {
        seq![digits()[value as int]]
    } else {
        decimal(value / 10).push(digits()[(value % 10) as int])
    }
}

/// The lowest `width` digits of a number in hexadecimal, in capital letters.
pub open spec fn hex_upper(value: nat, width: nat) -> Seq<char>
    decreases width,
{
    if width == 0 {
        Seq::empty()
    } else {
        hex_upper(value / 16, (width - 1) as nat).push(digits()[(value % 16) as int])
    }
}

/// `text` with every occurrence of `from` replaced by `to`. Occurrences are
/// found from the left and do not overlap.
pub open spec fn replaced(text: Seq<char>, from: Seq<char>, to: Seq<char>) -> Seq<char>
    recommends
        from.len() > 0,
    decreases text.len(),
{
    if from.len() == 0 || text.len() < from.len() {
        text
    } else if text.take(from.len() as int) == from {
        to + replaced(text.skip(from.len() as int), from, to)
    } else {
        seq![text.first()] + replaced(text.drop_first(), from, to)
    }
}

/// A template with its placeholders filled in: the name, the author and the
/// version as they are, the edition in decimal, and the program id as sixteen
/// hexadecimal digits behind `0x`.
pub open spec fn filled(
    file: Seq<char>,
    name: Seq<char>,
    author: Seq<char>,
    version: Seq<char>,
    edition: u16,
    program_id: u64,
) -> Seq<char> {
    let file = replaced(file, "<name>"@, name);
    let file = replaced(file, "<author>"@, author);
    let file = replaced(file, "<version>"@, version);
    let file = replaced(file, "<edition>"@, decimal(edition as nat));
    replaced(file, "<program_id>"@, "0x"@ + hex_upper(program_id as nat, 16))
}

/// `str::replace` with a pattern that is a string: a new string in which all
/// matches of the pattern, found from the left and without overlap, are
/// replaced.
#[verifier::external_body]
fn replace_all(text: &str, from: &str, to: &str) -> (result: String)
    requires
        from@.len() > 0,
    ensures
        result@ == replaced(text@, from@, to@),
{
    text.replace(from, to)
}

/// The digit of a value below sixteen.
fn digit(value: u8) -> (c: char)
    requires
        value < 16,
    ensures
        c == digits()[value as int],
{
    proof {
        reveal_strlit("0123456789ABCDEF");
    }
    "0123456789ABCDEF".get_char(value as usize)
}

/// Appends a number in decimal.
fn push_decimal(out: &mut String, value: u16)
    ensures
        final(out)@ == old(out)@ + decimal(value as nat),
    decreases value,
{
    if value >= 10 {
        push_decimal(out, value / 10);
    }
    out.push(digit((value % 10) as u8));
    proof {
        if value >= 10 {
            assert(final(out)@ =~= old(out)@ + decimal(value as nat));
        } else {
            assert(final(out)@ =~= old(out)@ + decimal(value as nat));
        }
    }
}

/// Appends the lowest `width` digits of a number in hexadecimal.
fn push_hex_upper(out: &mut String, value: u64, width: u8)
    ensures
        final(out)@ == old(out)@ + hex_upper(value as nat, width as nat),
    decreases width,
{
    if width > 0 {
        push_hex_upper(out, value / 16, width - 1);
        out.push(digit((value % 16) as u8));
    }
    proof {
        assert(final(out)@ =~= old(out)@ + hex_upper(value as nat, width as nat));
    }
}

/// Fills in the placeholders of a template.
pub fn process_default_file(file: &str, replace_info: &PackageInfo<'_>) -> (text: String)
    ensures
        text@ == filled(
            file@,
            replace_info.name@,
            replace_info.author@,
            replace_info.version@,
            replace_info.edition,
            replace_info.program_id,
        ),
{
    proof {
        reveal_strlit("<name>");
        reveal_strlit("<author>");
        reveal_strlit("<version>");
        reveal_strlit("<edition>");
        reveal_strlit("<program_id>");
    }
    let mut edition = String::new();
    push_decimal(&mut edition, replace_info.edition);
    let mut program_id = "0x".to_owned();
    push_hex_upper(&mut program_id, replace_info.program_id, 16);
    proof {
        assert(edition@ =~= decimal(replace_info.edition as nat));
    }
    let text = replace_all(file, "<name>", replace_info.name);
    let text = replace_all(text.as_str(), "<author>", replace_info.author);
    let text = replace_all(text.as_str(), "<version>", replace_info.version);
    let text = replace_all(text.as_str(), "<edition>", edition.as_str());
    replace_all(text.as_str(), "<program_id>", program_id.as_str())
}

} // verus!
