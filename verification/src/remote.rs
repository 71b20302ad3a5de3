//! The registry's side of a check: which registries can be asked, what they
//! are asked, and what their answer says.

use crate::digest::{digest_of, Digest, DigestView};
use crate::image::{Image, ImageView, Remote};
use crate::json::{as_str, from_str, get_member, json_document, json_model, Json};
use vstd::prelude::*;
use vstd::string::StringExecFns;

verus! {

/// Why a registry gave no digest.
#[derive(Clone, Copy, Debug, PartialEq, Eq, Structural)]
pub enum FetchError {
    /// The registry could not be reached.
    Unreachable,
    /// The registry answered with a status other than 200.
    Status(u16),
    /// The answer is no JSON object with a text under `digest`.
    Malformed,
}

impl Remote {
    /// The registries whose digests can be looked up: Docker Hub alone.
    pub open spec fn has_digest_lookup(self) -> bool {
        match self {
            Remote::DockerHub => true,
            Remote::Ghcr => false,
            Remote::Lscr => false,
            Remote::Quay => false,
        }
    }

    /// Whether the registry's digests can be looked up.
    pub fn supports_digest_lookup(&self) -> (supported: bool)
        ensures
            supported == self.has_digest_lookup(),
    {
        match self {
            Remote::DockerHub => true,
            Remote::Ghcr => false,
            Remote::Lscr => false,
            Remote::Quay => false,
        }
    }
}

impl ImageView {
    /// The image as a registry is asked for it: an absent tag stands for
    /// `latest`.
    pub open spec fn with_default_tag(self) -> ImageView {
        ImageView {
            tag: Some(
                match self.tag {
                    Some(t) => t,
                    None => "latest"@,
                },
            ),
            ..self
        }
    }
}

/// The address at which Docker Hub describes a tag. An image without a
/// repository is looked up under the repository `error`, an absent tag as
/// `latest`.
pub open spec fn lookup_url(image: ImageView) -> Seq<char> {
    "https://hub.docker.com/v2/namespaces/"@ + image.namespace + "/repositories/"@ + (
    match image.repo {
        Some(r) => r,
        None => "error"@,
    }) + "/tags/"@ + (match image.tag {
        Some(t) => t,
        None => "latest"@,
    })
}

/// The text under `digest` in a registry's description of a tag.
pub open spec fn tag_digest(document: Json) -> Option<Seq<char>> {
    match document.member("digest"@) {
        Some(digest) => digest.text(),
        None => None,
    }
}

/// What an answer of a registry says: the digest under `digest` where the
/// status is 200 and the body is such a JSON document.
pub open spec fn remote_digest(status: u16, body: Seq<char>) -> Result<DigestView, FetchError> {
    if status != 200 {
        Err(FetchError::Status(status))
    } else {
        match json_document(body) {
            Some(document) => match tag_digest(document) {
                Some(text) => Ok(digest_of(text)),
                None => Err(FetchError::Malformed),
            },
            None => Err(FetchError::Malformed),
        }
    }
}

impl Image {
    /// A copy of the image for the lookup, with `latest` for an absent tag.
    /// The image itself keeps its tag absent.
    pub fn with_default_tag(&self) -> (image: Image)
        ensures
            image@ == self@.with_default_tag(),
    {
        Image {
            namespace: self.namespace.clone(),
            repo: match &self.repo {
                Some(r) => Some(r.clone()),
                None => None,
            },
            tag: match &self.tag {
                Some(t) => Some(t.clone()),
                None => Some("latest".to_owned()),
            },
            remote: self.remote,
        }
    }

    /// The address at which Docker Hub describes the image's tag.
    pub fn lookup_url(&self) -> (url: String)
        ensures
            url@ == lookup_url(self@),
    {
        let mut url = "https://hub.docker.com/v2/namespaces/".to_owned();
        url.append(self.namespace.as_str());
        url.append("/repositories/");
        match &self.repo {
            Some(r) => url.append(r.as_str()),
            None => url.append("error"),
        }
        url.append("/tags/");
        match &self.tag {
            Some(t) => url.append(t.as_str()),
            None => url.append("latest"),
        }
        url
    }
}

/// Reads the digest out of a registry's description of a tag.
pub fn digest_of_tag(document: &serde_json::Value) -> (digest: Option<Digest>)
    ensures
        match digest {
            Some(d) => tag_digest(json_model(*document)) is Some && d@ == digest_of(
                tag_digest(json_model(*document))->0,
            ),
            None => tag_digest(json_model(*document)) is None,
        },
{
    match get_member(document, "digest") {
        Some(member) => match as_str(member) {
            Some(text) => Some(Digest::from_str(text)),
            None => None,
        },
        None => None,
    }
}

/// Reads the digest out of a registry's answer.
pub fn read_remote_digest(status: u16, body: &str) -> (r: Result<Digest, FetchError>)
    ensures
        match r {
            Ok(d) => remote_digest(status, body@) == Ok::<DigestView, FetchError>(d@),
            Err(e) => remote_digest(status, body@) == Err::<DigestView, FetchError>(e),
        },
{
    if status != 200 {
        return Err(FetchError::Status(status));
    }
    match from_str(body) {
        Ok(document) => match digest_of_tag(&document) {
            Some(digest) => Ok(digest),
            None => Err(FetchError::Malformed),
        },
        Err(_) => Err(FetchError::Malformed),
    }
}

} // verus!
