//! Content digests, compared by their payload alone.

use crate::text::{leading_pair, lemma_split_first, lemma_split_whole, split};
use vstd::prelude::*;

verus! {

/// A content digest, written `<algorithm>:<hex>`.
///
/// Two digests are equal when their hex payloads are: the algorithm, which
/// one side may omit or write differently, takes no part in the comparison.
#[derive(Clone, Debug, Eq)]
pub struct Digest {
    pub algorithm: Option<String>,
    pub hex: String,
}

/// What a `Digest` holds, as mathematical text.
pub struct DigestView {
    pub algorithm: Option<Seq<char>>,
    pub hex: Seq<char>,
}

impl View for Digest {
    type V = DigestView;

    open spec fn view(&self) -> DigestView {
        DigestView {
            algorithm: match self.algorithm {
                Some(a) => Some(a@),
                None => None,
            },
            hex: self.hex@,
        }
    }
}

/// The digest that a text denotes. Without a colon the whole text is the
/// payload. With one, the algorithm is what stands before the first colon and
/// the payload what stands between it and the next colon (or the end).
pub open spec fn digest_of(text: Seq<char>) -> DigestView {
    let pieces = split(text, ':');
    if pieces.len() >= 2 {
        DigestView { algorithm: Some(pieces[0]), hex: pieces[1] }
    } else {
        DigestView { algorithm: None, hex: pieces[0] }
    }
}

impl Digest {
    /// Reads a digest from its text.
    pub fn from_str(text: &str) -> (digest: Digest)
        ensures
            digest@ == digest_of(text@),
    {
        let (first, second) = leading_pair(text, ':');
        match second {
            Some(hex) => Digest { algorithm: Some(first), hex },
            None => Digest { algorithm: None, hex: first },
        }
    }
}

impl PartialEq for Digest {
    fn eq(&self, other: &Self) -> (same: bool) {
        self.hex == other.hex
    }
}

impl vstd::std_specs::cmp::PartialEqSpecImpl for Digest {
    open spec fn obeys_eq_spec() -> bool {
        true
    }

    open spec fn eq_spec(&self, other: &Self) -> bool {
        self.hex@ == other.hex@
    }
}

/// A digest compares the same with and without an algorithm before it: both
/// texts denote the payload `hex`.
pub proof fn lemma_algorithm_ignored(algorithm: Seq<char>, hex: Seq<char>)
    requires
        !algorithm.contains(':'),
        !hex.contains(':'),
    ensures
        digest_of(hex).hex == hex,
        digest_of(algorithm + seq![':'] + hex).hex == hex,
{
    lemma_split_whole(hex, ':');
    lemma_split_first(algorithm, hex, ':');
}

} // verus!
