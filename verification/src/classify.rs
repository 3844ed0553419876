//! The line classifier: which lines of a file count as effective code.
//!
//! Blank lines never count. For ecosystems with comment rules, a line is
//! scanned left to right: text inside a block comment, behind a single-line
//! comment prefix, or consisting only of whitespace does not count; a line
//! counts exactly when some character of it is code. The scan also yields
//! whether the file is inside a block comment after the line. Comment
//! delimiters inside string literals are not recognized: classification is
//! line-oriented and heuristic. Extensions without comment rules fall back
//! to counting every non-blank line, comments included.

use vstd::prelude::*;

use crate::ecosystem::{spec_block_close, spec_block_open, spec_line_prefix, block_close,
    block_open, line_prefix, Ecosystem};
use crate::text::{is_at, is_blank, is_space_char, occurs_at, space_char, blank_line};

verus! {

/// The views of a vector of lines.
pub open spec fn line_views(lines: Seq<Vec<char>>) -> Seq<Seq<char>> {
    lines.map_values(|l: Vec<char>| l@)
}

/// The block-comment state after scanning `line` from position `pos`,
/// having started there in state `in_block`.
pub open spec fn scan_block_state(
    line: Seq<char>,
    eco: Ecosystem,
    pos: int,
    in_block: bool,
) -> bool
    decreases line.len() + 1 - pos,
{
    if pos < 0 || pos >= line.len() {
        in_block
    } else if in_block {
        if is_at(line, pos, spec_block_close(eco)) {
            scan_block_state(line, eco, pos + spec_block_close(eco).len(), false)
        } else {
            scan_block_state(line, eco, pos + 1, true)
        }
    } else {
        if is_at(line, pos, spec_line_prefix(eco)) {
            false
        } else if is_at(line, pos, spec_block_open(eco)) {
            scan_block_state(line, eco, pos + spec_block_open(eco).len(), true)
        } else {
            scan_block_state(line, eco, pos + 1, false)
        }
    }
}

/// Whether scanning `line` from `pos` in state `in_block` meets a code
/// character: one that is not whitespace and not comment text.
pub open spec fn scan_has_code(line: Seq<char>, eco: Ecosystem, pos: int, in_block: bool) -> bool
    decreases line.len() + 1 - pos,
{
    if pos < 0 || pos >= line.len() {
        false
    } else if in_block {
        if is_at(line, pos, spec_block_close(eco)) {
            scan_has_code(line, eco, pos + spec_block_close(eco).len(), false)
        } else {
            scan_has_code(line, eco, pos + 1, true)
        }
    } else {
        if is_at(line, pos, spec_line_prefix(eco)) {
            false
        } else if is_at(line, pos, spec_block_open(eco)) {
            scan_has_code(line, eco, pos + spec_block_open(eco).len(), true)
        } else if !is_space_char(line[pos]) {
            true
        } else {
            scan_has_code(line, eco, pos + 1, false)
        }
    }
}

/// Whether the line counts as effective code, entered in state `in_block`.
pub open spec fn spec_line_counted(line: Seq<char>, eco: Ecosystem, in_block: bool) -> bool {
    if eco is Unknown {
        !is_blank(line)
    } else {
        scan_has_code(line, eco, 0, in_block)
    }
}

/// The block-comment state after the whole line.
pub open spec fn spec_line_next_state(line: Seq<char>, eco: Ecosystem, in_block: bool) -> bool {
    if eco is Unknown {
        false
    } else {
        scan_block_state(line, eco, 0, in_block)
    }
}

/// Classify one line: whether it counts, and the block state after it.
pub fn classify_line(line: &Vec<char>, eco: Ecosystem, in_block: bool) -> (r: (bool, bool))
    ensures
        r.0 == spec_line_counted(line@, eco, in_block),
        r.1 == spec_line_next_state(line@, eco, in_block),
{
    if matches!(eco, Ecosystem::Unknown) {
        let b = blank_line(line);
        return (!b, false);
    }
    let prefix = line_prefix(eco);
    let open = block_open(eco);
    let close = block_close(eco);
    let mut pos: usize = 0;
    let mut cur: bool = in_block;
    let mut found: bool = false;
    loop
        invariant
            prefix@ == spec_line_prefix(eco),
            open@ == spec_block_open(eco),
            close@ == spec_block_close(eco),
            !(eco is Unknown),
            scan_block_state(line@, eco, 0, in_block) == scan_block_state(
                line@,
                eco,
                pos as int,
                cur,
            ),
            scan_has_code(line@, eco, 0, in_block) == (found || scan_has_code(
                line@,
                eco,
                pos as int,
                cur,
            )),
            found ==> scan_has_code(line@, eco, 0, in_block),
        decreases line.len() + 1 - pos,
    {
        if pos >= line.len() {
            return (found, cur);
        }
        if cur {
            if occurs_at(line, pos, &close) {
                pos = pos + close.len();
                cur = false;
            } else {
                pos = pos + 1;
            }
        } else {
            if occurs_at(line, pos, &prefix) {
                return (found, false);
            } else if occurs_at(line, pos, &open) {
                pos = pos + open.len();
                cur = true;
            } else {
                if !space_char(line[pos]) {
                    found = true;
                }
                pos = pos + 1;
            }
        }
    }
}

/// The block-comment state holding before line `i` of the file.
pub open spec fn spec_state_before(lines: Seq<Seq<char>>, eco: Ecosystem, i: int) -> bool
    decreases i,
{
    if i <= 0 {
        false
    } else {
        spec_line_next_state(lines[i - 1], eco, spec_state_before(lines, eco, i - 1))
    }
}

/// Whether line `i` of the file is an effective code line.
pub open spec fn spec_line_effective(lines: Seq<Seq<char>>, eco: Ecosystem, i: int) -> bool {
    spec_line_counted(lines[i], eco, spec_state_before(lines, eco, i))
}

/// How many of the first `i` lines are effective.
pub open spec fn spec_effective_count(lines: Seq<Seq<char>>, eco: Ecosystem, i: int) -> nat
    decreases i,
{
    if i <= 0 {
        0
    } else {
        spec_effective_count(lines, eco, i - 1) + (if spec_line_effective(lines, eco, i - 1) {
            1nat
        } else {
            0nat
        })
    }
}

/// The number of effective code lines never exceeds `i`.
pub proof fn lemma_effective_count_le(lines: Seq<Seq<char>>, eco: Ecosystem, i: int)
    requires
        i >= 0,
    ensures
        spec_effective_count(lines, eco, i) <= i,
    decreases i,
{
    if i > 0 {
        lemma_effective_count_le(lines, eco, i - 1);
    }
}

/// Per line of a file, whether it counts as effective code.
pub fn effective_flags(lines: &Vec<Vec<char>>, eco: Ecosystem) -> (r: Vec<bool>)
    ensures
        r@.len() == lines@.len(),
        forall|i: int|
            0 <= i < lines@.len() ==> r@[i] == spec_line_effective(line_views(lines@), eco, i),
{
    let mut flags: Vec<bool> = Vec::new();
    let mut state: bool = false;
    let mut i: usize = 0;
    while i < lines.len()
        invariant
            flags@.len() == i,
            i <= lines@.len(),
            state == spec_state_before(line_views(lines@), eco, i as int),
            forall|k: int|
                0 <= k < i ==> flags@[k] == spec_line_effective(line_views(lines@), eco, k),
        decreases lines.len() - i,
    {
        let (counted, next) = classify_line(&lines[i], eco, state);
        assert(line_views(lines@)[i as int] == lines@[i as int]@);
        flags.push(counted);
        state = next;
        i += 1;
    }
    flags
}

/// Count the effective code lines of a file.
pub fn effective_count(lines: &Vec<Vec<char>>, eco: Ecosystem) -> (r: usize)
    ensures
        r == spec_effective_count(line_views(lines@), eco, lines@.len() as int),
        r <= lines@.len(),
{
    let flags = effective_flags(lines, eco);
    let mut count: usize = 0;
    let mut i: usize = 0;
    while i < flags.len()
        invariant
            flags@.len() == lines@.len(),
            i <= flags@.len(),
            count == spec_effective_count(line_views(lines@), eco, i as int),
            count <= i,
            forall|k: int|
                0 <= k < flags@.len() ==> flags@[k] == spec_line_effective(
                    line_views(lines@),
                    eco,
                    k,
                ),
        decreases flags.len() - i,
    {
        if flags[i] {
            count += 1;
        }
        i += 1;
    }
    count
}

} // verus!
