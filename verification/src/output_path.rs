//! Where the playlist is written.

use crate::text::{ends_with, is_whitespace, str_ends_with, trim_end, trim_start, trim_str, trimmed};
use vstd::prelude::*;

verus! {

/// The path a playlist is written to, for what the user entered: the entry
/// without the blanks around it, `playlist.json` where nothing is left, and
/// with `.json` added where the entry does not end with it.
pub open spec fn file_path_of(entered: Seq<char>) -> Seq<char> {
    let path = trimmed(entered);
    if path.len() == 0 {
        "playlist.json"@
    } else if ends_with(path, ".json"@) {
        path
    } else {
        path + ".json"@
    }
}

/// The path to write the playlist to, for what the user entered.
pub fn get_file_path(output_path: String) -> (path: String)
    ensures
        path@ == file_path_of(output_path@),
{
    let entered = trim_str(output_path.as_str());
    if entered.is_empty() {
        "playlist.json".to_owned()
    } else if !str_ends_with(entered, ".json") {
        let mut path = entered.to_owned();
        path.append(".json");
        path
    } else {
        entered.to_owned()
    }
}

/// What is left of a text after its leading blanks were removed does not
/// start with a blank.
pub proof fn lemma_trim_start_head(s: Seq<char>)
    ensures
        trim_start(s).len() == 0 || !is_whitespace(trim_start(s)[0]),
    decreases s.len(),
{
    if s.len() > 0 && is_whitespace(s[0]) {
        lemma_trim_start_head(s.drop_first());
    }
}

/// What is left of a text after its trailing blanks were removed is the
/// beginning of that text, and does not end with a blank.
pub proof fn lemma_trim_end_tail(s: Seq<char>)
    ensures
        trim_end(s).len() <= s.len(),
        trim_end(s) == s.subrange(0, trim_end(s).len() as int),
        trim_end(s).len() == 0 || !is_whitespace(trim_end(s).last()),
    decreases s.len(),
{
    if s.len() > 0 && is_whitespace(s.last()) {
        lemma_trim_end_tail(s.drop_last());
        let t = trim_end(s.drop_last());
        assert(t =~= s.subrange(0, t.len() as int));
    } else {
        assert(s =~= s.subrange(0, s.len() as int));
    }
}

/// A text without blanks around it is either empty or begins and ends with
/// a character that is no blank, and trimming it again changes nothing.
pub proof fn lemma_trimmed_is_fixed(s: Seq<char>)
    ensures
        trimmed(s).len() > 0 ==> !is_whitespace(trimmed(s)[0]) && !is_whitespace(
            trimmed(s).last(),
        ),
        trimmed(trimmed(s)) == trimmed(s),
{
    lemma_trim_start_head(s);
    lemma_trim_end_tail(trim_start(s));
}

/// The path a playlist is written to always ends with `.json`, and it is
/// the path for itself: asking again for the path of a path gives the same
/// path.
pub proof fn lemma_file_path_idempotent(entered: Seq<char>)
    ensures
        ends_with(file_path_of(entered), ".json"@),
        file_path_of(file_path_of(entered)) == file_path_of(entered),
{
    reveal_strlit("playlist.json");
    reveal_strlit(".json");
    let path = trimmed(entered);
    let result = file_path_of(entered);
    lemma_trimmed_is_fixed(entered);
    assert(result.len() > 0);
    assert(!is_whitespace(result[0]));
    assert(!is_whitespace(result.last()));
    assert(ends_with(result, ".json"@)) by {
        if path.len() == 0 {
            assert("playlist.json"@.subrange(8, 13) =~= ".json"@);
        } else if !ends_with(path, ".json"@) {
            assert((path + ".json"@).subrange(path.len() as int, path.len() as int + 5) =~= ".json"@);
        }
    }
    assert(trimmed(result) == result);
}

} // verus!
