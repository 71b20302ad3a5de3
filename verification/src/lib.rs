//! Checks whether the container images that run on a host are stale.
//!
//! The library holds the parts that decide: the parser of image names
//! ([`Image::from_str`], [`Image::dump`]) and the engine that compares the
//! digest a registry reports with the digest of the local copy
//! ([`reconcile`], [`reconcile_all`]). Talking to the registry and to the
//! container runtime is left to the caller, who hands both in as functions;
//! what their answers say is read here ([`read_remote_digest`],
//! [`read_local_digest`]).

pub mod digest;
pub mod image;
pub mod json;
pub mod lister;
pub mod local;
pub mod reconcile;
pub mod remote;
pub mod text;
pub mod theorems;

pub use digest::Digest;
pub use image::{Image, ParseError, Remote};
pub use lister::image_names;
pub use local::{digest_of_inspection, read_local_digest, InspectError};
pub use reconcile::{
    reconcile, reconcile_all, stale_images, verdict_on, Reason, ReconciliationResult, Status,
};
pub use remote::{digest_of_tag, read_remote_digest, FetchError};
