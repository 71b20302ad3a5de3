//! The host's side of a check: what the container runtime says of the local
//! copy of an image.

use crate::digest::{digest_of, Digest, DigestView};
use crate::json::{as_str, from_str, get_element, get_member, json_document, json_model, Json};
use vstd::prelude::*;

verus! {

/// Why the local copy of an image gave no digest.
#[derive(Clone, Copy, Debug, PartialEq, Eq, Structural)]
pub enum InspectError {
    /// The container runtime could not inspect the image.
    Failed,
    /// The runtime's description is no JSON array whose first element has a
    /// list under `RepoDigests` that begins with a text.
    Malformed,
}

/// The first text under `RepoDigests` of the first image that a description
/// holds.
pub open spec fn first_repo_digest(document: Json) -> Option<Seq<char>> {
    match document.element(0) {
        Some(image) => match image.member("RepoDigests"@) {
            Some(digests) => match digests.element(0) {
                Some(first) => first.text(),
                None => None,
            },
            None => None,
        },
        None => None,
    }
}

/// What the runtime's description of an image says: the digest that stands
/// first under `RepoDigests`, where the description is such a JSON document.
pub open spec fn local_digest(description: Seq<char>) -> Result<DigestView, InspectError> {
    match json_document(description) {
        Some(document) => match first_repo_digest(document) {
            Some(text) => Ok(digest_of(text)),
            None => Err(InspectError::Malformed),
        },
        None => Err(InspectError::Malformed),
    }
}

/// Reads the digest of the local copy out of the runtime's description.
pub fn digest_of_inspection(document: &serde_json::Value) -> (digest: Option<Digest>)
    ensures
        match digest {
            Some(d) => first_repo_digest(json_model(*document)) is Some && d@ == digest_of(
                first_repo_digest(json_model(*document))->0,
            ),
            None => first_repo_digest(json_model(*document)) is None,
        },
{
    let image = match get_element(document, 0) {
        Some(image) => image,
        None => return None,
    };
    let digests = match get_member(image, "RepoDigests") {
        Some(digests) => digests,
        None => return None,
    };
    let first = match get_element(digests, 0) {
        Some(first) => first,
        None => return None,
    };
    match as_str(first) {
        Some(text) => Some(Digest::from_str(text)),
        None => None,
    }
}

/// Reads the digest of the local copy out of the text that the runtime
/// printed.
pub fn read_local_digest(description: &str) -> (r: Result<Digest, InspectError>)
    ensures
        match r {
            Ok(d) => local_digest(description@) == Ok::<DigestView, InspectError>(d@),
            Err(e) => local_digest(description@) == Err::<DigestView, InspectError>(e),
        },
{
    match from_str(description) {
        Ok(document) => match digest_of_inspection(&document) {
            Some(digest) => Ok(digest),
            None => Err(InspectError::Malformed),
        },
        Err(_) => Err(InspectError::Malformed),
    }
}

} // verus!
