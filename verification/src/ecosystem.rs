//! Ecosystems: the language/package-manager context of a file, which
//! determines comment syntax and the available usage-pattern rules.

use vstd::prelude::*;

verus! {

/// The ecosystem a file or manifest belongs to.
///
/// `Unknown` stands for files and projects without recognized rules: their
/// lines are counted without comment handling, and no dependency patterns
/// apply.
#[derive(Clone, Copy, Debug, PartialEq, Eq, Structural)]
pub enum Ecosystem {
    Rust,
    Python,
    JavaScript,
    Unknown,
}

/// The single-line comment prefix of the ecosystem.
pub open spec fn spec_line_prefix(eco: Ecosystem) -> Seq<char> {
    match eco {
        Ecosystem::Python => seq!['#'],
        _ => seq!['/', '/'],
    }
}

/// The delimiter opening a block comment.
pub open spec fn spec_block_open(eco: Ecosystem) -> Seq<char> {
    match eco {
        Ecosystem::Python => seq!['"', '"', '"'],
        _ => seq!['/', '*'],
    }
}

/// The delimiter closing a block comment.
pub open spec fn spec_block_close(eco: Ecosystem) -> Seq<char> {
    match eco {
        Ecosystem::Python => seq!['"', '"', '"'],
        _ => seq!['*', '/'],
    }
}

/// Build the line-comment prefix of the ecosystem.
pub fn line_prefix(eco: Ecosystem) -> (r: Vec<char>)
    ensures
        r@ == spec_line_prefix(eco),
{
    let mut v: Vec<char> = Vec::new();
    match eco {
        Ecosystem::Python => {
            v.push('#');
            assert(v@ =~= spec_line_prefix(eco));
        },
        _ => {
            v.push('/');
            v.push('/');
            assert(v@ =~= spec_line_prefix(eco));
        },
    }
    v
}

/// Build the block-comment opening delimiter of the ecosystem.
pub fn block_open(eco: Ecosystem) -> (r: Vec<char>)
    ensures
        r@ == spec_block_open(eco),
{
    let mut v: Vec<char> = Vec::new();
    match eco {
        Ecosystem::Python => {
            v.push('"');
            v.push('"');
            v.push('"');
            assert(v@ =~= spec_block_open(eco));
        },
        _ => {
            v.push('/');
            v.push('*');
            assert(v@ =~= spec_block_open(eco));
        },
    }
    v
}

/// Build the block-comment closing delimiter of the ecosystem.
pub fn block_close(eco: Ecosystem) -> (r: Vec<char>)
    ensures
        r@ == spec_block_close(eco),
{
    let mut v: Vec<char> = Vec::new();
    match eco {
        Ecosystem::Python => {
            v.push('"');
            v.push('"');
            v.push('"');
            assert(v@ =~= spec_block_close(eco));
        },
        _ => {
            v.push('*');
            v.push('/');
            assert(v@ =~= spec_block_close(eco));
        },
    }
    v
}

/// The ecosystem a source file belongs to, judged by its extension.
pub open spec fn spec_ecosystem_of_extension(ext: Seq<char>) -> Ecosystem {
    if ext == seq!['r', 's'] {
        Ecosystem::Rust
    } else if ext == seq!['p', 'y'] {
        Ecosystem::Python
    } else if ext == seq!['j', 's'] || ext == seq!['t', 's'] || ext == seq!['j', 's', 'x'] || ext
        == seq!['t', 's', 'x'] || ext == seq!['m', 'j', 's'] || ext == seq!['c', 'j', 's'] {
        Ecosystem::JavaScript
    } else {
        Ecosystem::Unknown
    }
}

/// Compare a character vector against a short literal pattern.
fn chars_eq2(v: &Vec<char>, a: char, b: char) -> (r: bool)
    ensures
        r == (v@ =~= seq![a, b]),
{
    v.len() == 2 && v[0] == a && v[1] == b
}

/// Compare a character vector against a three-character pattern.
fn chars_eq3(v: &Vec<char>, a: char, b: char, c: char) -> (r: bool)
    ensures
        r == (v@ =~= seq![a, b, c]),
{
    v.len() == 3 && v[0] == a && v[1] == b && v[2] == c
}

impl Ecosystem {
    /// Classify a file extension.
    pub fn of_extension(ext: &Vec<char>) -> (r: Ecosystem)
        ensures
            r == spec_ecosystem_of_extension(ext@),
    {
        if chars_eq2(ext, 'r', 's') {
            Ecosystem::Rust
        } else if chars_eq2(ext, 'p', 'y') {
            Ecosystem::Python
        } else if chars_eq2(ext, 'j', 's') || chars_eq2(ext, 't', 's') || chars_eq3(
            ext,
            'j',
            's',
            'x',
        ) || chars_eq3(ext, 't', 's', 'x') || chars_eq3(ext, 'm', 'j', 's') || chars_eq3(
            ext,
            'c',
            'j',
            's',
        ) {
            Ecosystem::JavaScript
        } else {
            Ecosystem::Unknown
        }
    }

    /// The tag under which the ecosystem is reported.
    pub fn tag(self) -> (r: &'static str)
        ensures
            self is Rust ==> r@ == "rust"@,
            self is Python ==> r@ == "python"@,
            self is JavaScript ==> r@ == "javascript"@,
            self is Unknown ==> r@ == "unknown"@,
    {
        match self {
            Ecosystem::Rust => "rust",
            Ecosystem::Python => "python",
            Ecosystem::JavaScript => "javascript",
            Ecosystem::Unknown => "unknown",
        }
    }
}

} // verus!
