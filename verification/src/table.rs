//! Reading the platform's table of system-call numbers: a header file whose
//! lines of the form `#define __NR_name number` each name one call.

use crate::text::{lines_of, parse_decimal, parsed_decimal, split_lines, texts};
use std::collections::HashMap;
use vstd::prelude::*;

verus! {

/// Where the table is found on the platform.
pub const SYSCALL_TABLE: &'static str = "/usr/include/asm/unistd_64.h";

/// The pattern of a line that names a call: the first group is the name, the
/// second the number.
pub const SYSCALL_REGEX: &'static str = r"^#define\s*__NR_(\w+)\s*(\d+)";

/// Why no catalog could be built.
#[derive(Clone, Copy, Debug, PartialEq, Eq, Structural)]
pub enum BuildError {
    /// The table could not be read at all.
    Unreadable,
    /// The line with this number, counted from 1, names a call but gives it
    /// a number that is no decimal numeral of at most 64 bits.
    MalformedNumber { line: usize },
}

/// What the `regex` crate finds when it compiles `pattern` and looks for its
/// leftmost match in `text`: the texts matched by the first and the second
/// group of the pattern. There is none where the pattern does not compile,
/// where nothing in the text matches it, and where one of the two groups took
/// no part in the match.
pub uninterp spec fn regex_groups(pattern: Seq<char>, text: Seq<char>) -> Option<
    (Seq<char>, Seq<char>),
>;

/// A pair of texts as mathematical values.
pub open spec fn groups_view(found: Option<(String, String)>) -> Option<(Seq<char>, Seq<char>)> {
    match found {
        Some((first, second)) => Some((first@, second@)),
        None => None,
    }
}

/// What `regex::Regex::captures` finds in `line` for the pattern compiled by
/// `regex::Regex::new`, read off with `Captures::get` at 1 and 2 and
/// `Match::as_str`. What a search finds is a function of the pattern and the
/// line alone; the contract gives it the name [`regex_groups`] and claims
/// nothing else of it. The pattern is compiled at every call.
#[verifier::external_body]
fn capture_groups(pattern: &str, line: &str) -> (found: Option<(String, String)>)
    ensures
        groups_view(found) == regex_groups(pattern@, line@),
{
    let compiled = regex::Regex::new(pattern).ok()?;
    let caps = compiled.captures(line)?;
    Some((caps.get(1)?.as_str().to_string(), caps.get(2)?.as_str().to_string()))
}

/// What a line of the table says, given the two groups found in it: nothing,
/// where there are none; that `number` is called `name`, where the second
/// group is a decimal numeral of at most 64 bits; and otherwise that the
/// table is malformed at `line`.
pub open spec fn read_groups(line: usize, groups: Option<(Seq<char>, Seq<char>)>) -> Result<
    Option<(u64, Seq<char>)>,
    BuildError,
> {
    match groups {
        None => Ok(None),
        Some((name, digits)) => match parsed_decimal(digits) {
            Some(number) => Ok(Some((number, name))),
            None => Err(BuildError::MalformedNumber { line }),
        },
    }
}

/// A table entry as a mathematical value.
pub open spec fn entry_view(entry: Result<Option<(u64, String)>, BuildError>) -> Result<
    Option<(u64, Seq<char>)>,
    BuildError,
> {
    match entry {
        Ok(None) => Ok(None),
        Ok(Some((number, name))) => Ok(Some((number, name@))),
        Err(e) => Err(e),
    }
}

/// Reads one line of the table from the two groups found in it.
pub fn table_entry(line: usize, groups: &Option<(String, String)>) -> (entry: Result<
    Option<(u64, String)>,
    BuildError,
>)
    ensures
        entry_view(entry) == read_groups(line, groups_view(*groups)),
{
    match groups {
        None => Ok(None),
        Some((name, digits)) => match parse_decimal(digits.as_str()) {
            Some(number) => Ok(Some((number, name.clone()))),
            None => Err(BuildError::MalformedNumber { line }),
        },
    }
}

/// The names that the lines of a table give to call numbers. A later line
/// overrides an earlier one for the same number. The first malformed line
/// makes the whole table unusable.
pub open spec fn read_table(lines: Seq<Seq<char>>) -> Result<Map<u64, Seq<char>>, BuildError>
    decreases lines.len(),
{
    if lines.len() == 0 {
        Ok(Map::<u64, Seq<char>>::empty())
    } else {
        match read_table(lines.drop_last()) {
            Err(e) => Err(e),
            Ok(table) => match read_groups(
                lines.len() as usize,
                regex_groups(SYSCALL_REGEX@, lines.last()),
            ) {
                Err(e) => Err(e),
                Ok(None) => Ok(table),
                Ok(Some((number, name))) => Ok(table.insert(number, name)),
            },
        }
    }
}

/// The names a text of the table gives to call numbers.
pub open spec fn parse_table(text: Seq<char>) -> Result<Map<u64, Seq<char>>, BuildError> {
    read_table(lines_of(text))
}

/// The names held in a hash table, as a mathematical map.
pub open spec fn names(table: HashMap<u64, String>) -> Map<u64, Seq<char>> {
    Map::new(|number: u64| table@.contains_key(number), |number: u64| table@[number]@)
}

/// Reads the text of the table.
pub fn parse_syscall_table(text: &str) -> (r: Result<HashMap<u64, String>, BuildError>)
    ensures
        match r {
            Ok(table) => parse_table(text@) == Ok::<Map<u64, Seq<char>>, BuildError>(
                names(table),
            ),
            Err(e) => parse_table(text@) == Err::<Map<u64, Seq<char>>, BuildError>(e),
        },
{
    broadcast use vstd::std_specs::hash::group_hash_axioms;

    let lines: Vec<String> = split_lines(text);
    let mut table: HashMap<u64, String> = HashMap::new();
    let mut i: usize = 0;
    let ghost all = lines_of(text@);
    assert(names(table) =~= Map::<u64, Seq<char>>::empty());
    while i < lines.len()
        invariant
            0 <= i <= lines@.len(),
            all == lines_of(text@),
            all == texts(lines@),
            read_table(all.take(i as int)) == Ok::<Map<u64, Seq<char>>, BuildError>(
                names(table),
            ),
        decreases lines@.len() - i,
    {
        let ghost before = names(table);
        assert(all.take(i + 1).drop_last() =~= all.take(i as int));
        let found = capture_groups(SYSCALL_REGEX, lines[i].as_str());
        match table_entry(i + 1, &found) {
            Err(e) => {
                proof {
                    lemma_read_table_fails_on(all, i + 1);
                }
                return Err(e);
            },
            Ok(None) => {},
            Ok(Some((number, name))) => {
                let ghost name_view = name@;
                table.insert(number, name);
                assert(names(table) =~= before.insert(number, name_view));
            },
        }
        i = i + 1;
    }
    assert(all.take(i as int) =~= all);
    Ok(table)
}

/// A table is unusable as soon as one of its beginnings is, and for the same
/// reason.
pub proof fn lemma_read_table_fails_on(lines: Seq<Seq<char>>, k: int)
    requires
        0 <= k <= lines.len(),
        read_table(lines.take(k)) is Err,
    ensures
        read_table(lines) == read_table(lines.take(k)),
    decreases lines.len() - k,
{
    if k == lines.len() {
        assert(lines.take(k) =~= lines);
    } else {
        assert(lines.take(k + 1).drop_last() =~= lines.take(k));
        lemma_read_table_fails_on(lines, k + 1);
    }
}

/// A table that was read is never reported as unreadable: whatever its text,
/// it gives names, or it is malformed at one of its lines.
pub proof fn lemma_read_table_errors(lines: Seq<Seq<char>>)
    requires
        lines.len() <= usize::MAX,
    ensures
        match read_table(lines) {
            Ok(_) => true,
            Err(BuildError::MalformedNumber { line }) => 1 <= line <= lines.len(),
            Err(BuildError::Unreadable) => false,
        },
    decreases lines.len(),
{
    if lines.len() > 0 {
        lemma_read_table_errors(lines.drop_last());
    }
}

} // verus!
