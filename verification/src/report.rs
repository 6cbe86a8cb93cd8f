//! Reading fields out of the toolchain manager's status report.
//!
//! The report is line-oriented text. A field is found by the first line that
//! contains a marker, and read as one of that line's space-separated tokens.

use crate::text::{
    chars_contain, contains, copy_range, lemma_split_nonempty, split, split_ranges, to_chars,
};
use vstd::prelude::*;
use vstd::string::*;

verus! {

/// What a string result holds, as sequences of characters.
pub open spec fn result_view(r: Result<String, String>) -> Result<Seq<char>, Seq<char>> {
    match r {
        Ok(s) => Ok(s@),
        Err(e) => Err(e@),
    }
}

/// What an optional string holds, as a sequence of characters.
pub open spec fn option_view(o: Option<String>) -> Option<Seq<char>> {
    match o {
        Some(s) => Some(s@),
        None => None,
    }
}

/// The marker of the line that names the default host.
pub open spec fn host_marker() -> Seq<char> {
    "Default host"@
}

/// The marker of the line that names the default toolchain.
pub open spec fn default_marker() -> Seq<char> {
    "(default"@
}

/// The marker of the line that names the directory override.
pub open spec fn override_marker() -> Seq<char> {
    "(directory override"@
}

/// The error for a report in which no line holds the marker.
pub open spec fn field_missing_message() -> Seq<char> {
    "Could not extract information from rustup"@
}

/// The error for a host line with fewer than three tokens.
pub open spec fn host_missing_message() -> Seq<char> {
    "Could not get default-host"@
}

/// The error for an override line whose first token is empty.
pub open spec fn override_malformed_message() -> Seq<char> {
    "incompatible meta section"@
}

/// The first of `pieces`, from index `from` on, that contains `marker`.
pub open spec fn first_with(pieces: Seq<Seq<char>>, marker: Seq<char>, from: int) -> Option<
    Seq<char>,
>
    decreases pieces.len() - from,
{
    if from < 0 || from >= pieces.len() {
        None
    } else if contains(pieces[from], marker) {
        Some(pieces[from])
    } else {
        first_with(pieces, marker, from + 1)
    }
}

/// The first line of `report` that contains `marker`. Later lines that
/// contain it too are not looked at.
pub open spec fn matching_line(report: Seq<char>, marker: Seq<char>) -> Option<Seq<char>> {
    first_with(split(report, '\n'), marker, 0)
}

/// The token of `line` at position `index`, counting from zero, where tokens
/// are what stands between single spaces.
pub open spec fn token(line: Seq<char>, index: int) -> Option<Seq<char>> {
    let tokens = split(line, ' ');
    if 0 <= index < tokens.len() {
        Some(tokens[index])
    } else {
        None
    }
}

/// The line that `extract_from_rustup` returns for `report` and `marker`.
pub open spec fn extracted(report: Seq<char>, marker: Seq<char>) -> Result<Seq<char>, Seq<char>> {
    match matching_line(report, marker) {
        Some(line) => Ok(line),
        None => Err(field_missing_message()),
    }
}

/// The default host that `report` names: the third token of the host line.
pub open spec fn default_host(report: Seq<char>) -> Result<Seq<char>, Seq<char>> {
    match matching_line(report, host_marker()) {
        None => Err(field_missing_message()),
        Some(line) => match token(line, 2) {
            Some(host) => Ok(host),
            None => Err(host_missing_message()),
        },
    }
}

/// The default toolchain that `report` names: the first token of the line
/// marked as default.
pub open spec fn default_toolchain(report: Seq<char>) -> Result<Seq<char>, Seq<char>> {
    match matching_line(report, default_marker()) {
        None => Err(field_missing_message()),
        Some(line) => Ok(split(line, ' ')[0]),
    }
}

/// The toolchain that an override line names: its first token. A line that
/// begins with a space names nothing and is an error.
pub open spec fn named_override(line: Seq<char>) -> Result<Seq<char>, Seq<char>> {
    if split(line, ' ')[0].len() == 0 {
        Err(override_malformed_message())
    } else {
        Ok(split(line, ' ')[0])
    }
}

/// The toolchain in effect according to `report`: the one that the override
/// line names where there is such a line, the default toolchain where there
/// is none.
pub open spec fn override_toolchain(report: Seq<char>) -> Result<Seq<char>, Seq<char>> {
    match matching_line(report, override_marker()) {
        None => default_toolchain(report),
        Some(line) => named_override(line),
    }
}

/// No line of `report` contains `marker`.
pub open spec fn no_line_contains(report: Seq<char>, marker: Seq<char>) -> bool {
    forall|k: int|
        0 <= k < split(report, '\n').len() ==> !contains(
            #[trigger] split(report, '\n')[k],
            marker,
        )
}

/// No piece is found exactly when none of the pieces from `from` on contains
/// the marker.
pub proof fn lemma_first_with_none(pieces: Seq<Seq<char>>, marker: Seq<char>, from: int)
    requires
        0 <= from,
    ensures
        first_with(pieces, marker, from) is None <==> forall|k: int|
            from <= k < pieces.len() ==> !contains(#[trigger] pieces[k], marker),
    decreases pieces.len() - from,
{
    if from < pieces.len() && !contains(pieces[from], marker) {
        lemma_first_with_none(pieces, marker, from + 1);
    }
}

/// The first line of `report` that contains `marker`, or `None` where no
/// line does.
pub fn find_line(report: &str, marker: &str) -> (line: Option<String>)
    ensures
        option_view(line) == matching_line(report@, marker@),
{
    let chars = to_chars(report);
    let pat = to_chars(marker);
    let ranges = split_ranges(&chars, '\n');
    let ghost lines = split(report@, '\n');
    let mut k: usize = 0;
    while k < ranges.len()
        invariant
            chars@ == report@,
            pat@ == marker@,
            lines == split(report@, '\n'),
            ranges.len() == lines.len(),
            k <= ranges.len(),
            forall|j: int|
                0 <= j < ranges.len() ==> {
                    &&& (#[trigger] ranges[j]).0 <= ranges[j].1 <= chars.len()
                    &&& chars@.subrange(ranges[j].0 as int, ranges[j].1 as int) == lines[j]
                },
            first_with(lines, marker@, 0) == first_with(lines, marker@, k as int),
        decreases ranges.len() - k,
    {
        let (from, to) = ranges[k];
        let candidate = copy_range(&chars, from, to);
        if chars_contain(&candidate, &pat) {
            let line = String::from_str(report.substring_char(from, to));
            return Some(line);
        }
        k += 1;
    }
    None
}

/// The token of `line` at position `index`, counting from zero, or `None`
/// where the line has no more than `index` tokens.
pub fn token_at(line: &str, index: usize) -> (found: Option<String>)
    ensures
        option_view(found) == token(line@, index as int),
{
    let chars = to_chars(line);
    let ranges = split_ranges(&chars, ' ');
    if index < ranges.len() {
        let (from, to) = ranges[index];
        Some(String::from_str(line.substring_char(from, to)))
    } else {
        None
    }
}

/// The first token of `line`: what stands before its first space, or the
/// whole line where it has no space.
pub fn first_token(line: &str) -> (found: String)
    ensures
        found@ == split(line@, ' ')[0],
{
    let chars = to_chars(line);
    let ranges = split_ranges(&chars, ' ');
    proof {
        lemma_split_nonempty(line@, ' ');
    }
    let (from, to) = ranges[0];
    String::from_str(line.substring_char(from, to))
}

/// The first line of `report` that contains `rustup_show_match`, or an error
/// where no line does.
pub fn extract_from_rustup(report: &str, rustup_show_match: &str) -> (line: Result<String, String>)
    ensures
        result_view(line) == extracted(report@, rustup_show_match@),
{
    match find_line(report, rustup_show_match) {
        Some(line) => Ok(line),
        None => Err(String::from_str("Could not extract information from rustup")),
    }
}

/// The default host that `report` names. A report without any host line is
/// an error, the same as for any other field that is not found.
pub fn get_default_host(report: &str) -> (host: Result<String, String>)
    ensures
        result_view(host) == default_host(report@),
        no_line_contains(report@, host_marker()) ==> result_view(host) == Err::<
            Seq<char>,
            Seq<char>,
        >(field_missing_message()),
{
    proof {
        lemma_first_with_none(split(report@, '\n'), host_marker(), 0);
    }
    match extract_from_rustup(report, "Default host") {
        Err(e) => Err(e),
        Ok(line) => match token_at(line.as_str(), 2) {
            Some(host) => Ok(host),
            None => Err(String::from_str("Could not get default-host")),
        },
    }
}

/// The default toolchain that `report` names.
pub fn get_default_toolchain(report: &str) -> (toolchain: Result<String, String>)
    ensures
        result_view(toolchain) == default_toolchain(report@),
{
    match extract_from_rustup(report, "(default") {
        Err(e) => Err(e),
        Ok(line) => Ok(first_token(line.as_str())),
    }
}

/// The line of `report` that names the directory override, or `None` where
/// no override is set.
pub fn find_override_line(report: &str) -> (line: Option<String>)
    ensures
        option_view(line) == matching_line(report@, override_marker()),
{
    find_line(report, "(directory override")
}

/// The toolchain that the override line `line` names.
pub fn read_override_line(line: &str) -> (toolchain: Result<String, String>)
    ensures
        result_view(toolchain) == named_override(line@),
{
    let toolchain = first_token(line);
    if toolchain.as_str().is_empty() {
        Err(String::from_str("incompatible meta section"))
    } else {
        Ok(toolchain)
    }
}

/// The toolchain in effect according to `report`: the directory override
/// where the report has one, the default toolchain where it has none. A
/// report without any override line gives what `get_default_toolchain` gives.
pub fn get_override_toolchain(report: &str) -> (toolchain: Result<String, String>)
    ensures
        result_view(toolchain) == override_toolchain(report@),
        no_line_contains(report@, override_marker()) ==> result_view(toolchain)
            == default_toolchain(report@),
{
    proof {
        lemma_first_with_none(split(report@, '\n'), override_marker(), 0);
    }
    match find_override_line(report) {
        None => get_default_toolchain(report),
        Some(line) => read_override_line(line.as_str()),
    }
}

} // verus!
