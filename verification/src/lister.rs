//! The names of the running containers' images, out of the text that the
//! container runtime prints: one name to a line, each between quotes.

use crate::text::{lemma_split_pieces, split, split_on, strings, trim, trim_matches};
use vstd::prelude::*;

verus! {

/// The names that a listing holds: its lines but for what follows the last
/// line break, each without the quotes around it.
pub open spec fn listed(listing: Seq<char>) -> Seq<Seq<char>> {
    split(listing, '\n').drop_last().map_values(|line: Seq<char>| trim(line, '"'))
}

/// Reads the image names out of a listing.
pub fn image_names(listing: &str) -> (names: Vec<String>)
    ensures
        strings(names@) == listed(listing@),
{
    proof {
        lemma_split_pieces(listing@, '\n');
    }
    let lines = split_on(listing, '\n');
    let ghost all = split(listing@, '\n');
    let mut names: Vec<String> = Vec::new();
    let count: usize = lines.len() - 1;
    for i in 0..count
        invariant
            count == lines.len() - 1,
            strings(lines@) == all,
            names.len() == i,
            forall|k: int| 0 <= k < i ==> (#[trigger] names@[k])@ == trim(all[k], '"'),
    {
        assert(lines@[i as int]@ == strings(lines@)[i as int]);
        names.push(trim_matches(lines[i].as_str(), '"'));
    }
    assert(strings(names@) =~= listed(listing@));
    names
}

} // verus!
