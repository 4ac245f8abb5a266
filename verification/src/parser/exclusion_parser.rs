//! The list of type names that are left out of parameter lists.

use crate::seqs::lemma_filter_map_concat;
use crate::text::{chars_of, lemma_first_index_of, pieces, trim_matches, trimmed, CharClass};
use vstd::prelude::*;

verus! {

/// The type name that a line of an exclusion list gives: the line without
/// the white space around it. A line that is blank, or that begins with
/// `#` once its leading white space is gone, gives none.
pub open spec fn excluded_name(line: Seq<char>) -> Option<Seq<char>> {
    let name = trimmed(line, CharClass::Whitespace);
    if name.len() > 0 && name[0] != '#' {
        Some(name)
    } else {
        None
    }
}

/// `excluded_name`, as a function of the line.
pub open spec fn name_of_line() -> spec_fn(Seq<char>) -> Option<Seq<char>> {
    |line: Seq<char>| excluded_name(line)
}

/// The type names that the text of an exclusion list gives: what each of
/// its lines gives, in the order of the lines. The lines are the pieces
/// between the line feeds.
pub open spec fn excluded_names(contents: Seq<char>) -> Seq<Seq<char>> {
    pieces(contents, '\n').filter_map(name_of_line())
}

/// Reads the type names to exclude out of the text of an exclusion list.
pub fn parse_exclusion_file(contents: &str) -> (names: Vec<String>)
    ensures
        names.deep_view() == excluded_names(contents@),
{
    let chars = chars_of(contents);
    let n = chars.len();
    let mut names: Vec<String> = Vec::new();
    let mut start: usize = 0;
    let mut done = false;
    assert(contents@.skip(0) =~= contents@);
    while !done
        invariant
            chars@ == contents@,
            n == chars@.len(),
            start <= n,
            !done ==> excluded_names(contents@) == names.deep_view() + excluded_names(
                contents@.skip(start as int),
            ),
            done ==> names.deep_view() == excluded_names(contents@),
        decreases n - start + (if done { 0int } else { 1int }),
    {
        let mut end: usize = start;
        while end < n && chars[end] != '\n'
            invariant
                chars@ == contents@,
                n == chars@.len(),
                start <= end <= n,
                forall|i: int| start <= i < end ==> #[trigger] contents@[i] != '\n',
            decreases n - end,
        {
            end += 1;
        }
        let line = contents.substring_char(start, end);
        let name = trim_matches(line, CharClass::Whitespace);
        let keep = name.unicode_len() > 0 && name.get_char(0) != '#';
        let ghost rest = contents@.skip(start as int);
        if keep {
            names.push(name.to_owned());
        }
        proof {
            lemma_first_index_of(rest, '\n', end - start);
            assert(rest.take(end - start) =~= line@);
            Seq::lemma_filter_map_singleton(line@, name_of_line());
            if end < n {
                let after = contents@.skip(end + 1);
                assert(rest.skip(end - start + 1) =~= after);
                lemma_filter_map_concat(seq![line@], pieces(after, '\n'), name_of_line());
            }
        }
        if end < n {
            start = end + 1;
        } else {
            done = true;
        }
    }
    names
}

/// Checks if a given type should be excluded based on the exclusion list.
pub fn should_exclude_type(name: String, exclusion_list: &[String]) -> (excluded: bool)
    ensures
        excluded == exclusion_list.deep_view().contains(name@),
{
    let mut i: usize = 0;
    while i < exclusion_list.len()
        invariant
            i <= exclusion_list@.len(),
            forall|j: int| 0 <= j < i ==> exclusion_list.deep_view()[j] != name@,
        decreases exclusion_list@.len() - i,
    {
        if exclusion_list[i] == name {
            assert(exclusion_list.deep_view()[i as int] == name@);
            return true;
        }
        i += 1;
    }
    false
}

} // verus!
