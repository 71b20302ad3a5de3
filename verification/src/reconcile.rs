//! The engine: one image name in, one verdict out.

use crate::digest::{Digest, DigestView};
use crate::image::{dump, parse, Image, ImageView, ParseError, ParseErrorView, Remote};
use crate::local::InspectError;
use crate::remote::FetchError;
use crate::text::strings;
use vstd::prelude::*;

verus! {

/// Why an image could not be checked.
#[derive(Clone, Debug, PartialEq, Eq)]
pub enum Reason {
    /// The text is no image name.
    Parse(ParseError),
    /// The local copy could not be inspected.
    Inspect(InspectError),
}

/// What a `Reason` holds, as mathematical text.
pub enum ReasonView {
    Parse(ParseErrorView),
    Inspect(InspectError),
}

/// The verdict on one image.
#[derive(Clone, Debug, PartialEq, Eq)]
pub enum Status {
    /// The local copy has the digest that the registry reports.
    Current,
    /// The registry reports another digest than the local copy has.
    Stale,
    /// The registry cannot be asked, or gave no digest: nothing is known.
    Unsupported,
    /// The check itself failed, for this image alone.
    Error(Reason),
}

/// What a `Status` holds, as mathematical text.
pub enum StatusView {
    Current,
    Stale,
    Unsupported,
    Error(ReasonView),
}

impl View for Reason {
    type V = ReasonView;

    open spec fn view(&self) -> ReasonView {
        match self {
            Reason::Parse(e) => ReasonView::Parse(e@),
            Reason::Inspect(e) => ReasonView::Inspect(*e),
        }
    }
}

impl View for Status {
    type V = StatusView;

    open spec fn view(&self) -> StatusView {
        match self {
            Status::Current => StatusView::Current,
            Status::Stale => StatusView::Stale,
            Status::Unsupported => StatusView::Unsupported,
            Status::Error(reason) => StatusView::Error(reason@),
        }
    }
}

/// The outcome of checking one image name.
#[derive(Clone, Debug, PartialEq, Eq)]
pub struct ReconciliationResult {
    /// The image that the name denotes. A text that is no image name denotes
    /// none: the result then holds the image `error/error` in its place.
    pub reference: Image,
    pub status: Status,
}

/// The image `error/error`, which stands in a result for a text that is no
/// image name.
pub open spec fn placeholder() -> ImageView {
    ImageView {
        namespace: "error"@,
        repo: Some("error"@),
        tag: None,
        remote: Remote::DockerHub,
    }
}

/// The verdict once the registry has reported `remote`: an error where the
/// local copy gave no digest, else current or stale as the two payloads are
/// equal or not.
pub open spec fn verdict(remote: DigestView, local: Result<DigestView, InspectError>) -> StatusView {
    match local {
        Ok(found) => if found.hex == remote.hex {
            StatusView::Current
        } else {
            StatusView::Stale
        },
        Err(e) => StatusView::Error(ReasonView::Inspect(e)),
    }
}

/// The view of what a local inspection returns.
pub open spec fn inspected(r: Result<Digest, InspectError>) -> Result<DigestView, InspectError> {
    match r {
        Ok(d) => Ok(d@),
        Err(e) => Err(e),
    }
}

/// What the engine needs of its collaborators: `fetch` can be asked for
/// every image that has a tag and is on a registry with digest lookup, and
/// `inspect` for every name. Of `fetch` on any other image it needs nothing:
/// it never asks.
pub open spec fn askable<F, G>(fetch: &F, inspect: &G) -> bool where
    F: Fn(&Image) -> Result<Digest, FetchError>,
    G: Fn(&str) -> Result<Digest, InspectError>,
 {
    &&& forall|asked: &Image|
        asked@.remote.has_digest_lookup() && asked@.tag is Some ==> call_requires(fetch, (asked,))
    &&& forall|name: &str| call_requires(inspect, (name,))
}

/// That `result` is an outcome of checking `raw` with the two collaborators.
///
/// - A text that is no image name gives an error with the parser's reason.
/// - An image on a registry without digest lookup is unsupported.
/// - Otherwise `fetch` was asked for the image, with `latest` for an absent
///   tag. Where it failed the image is unsupported. Where it reported a
///   digest, `inspect` was asked for the image's canonical name, and the
///   status is the verdict on the two answers.
pub open spec fn reconciled<F, G>(
    raw: Seq<char>,
    fetch: &F,
    inspect: &G,
    result: ReconciliationResult,
) -> bool where
    F: Fn(&Image) -> Result<Digest, FetchError>,
    G: Fn(&str) -> Result<Digest, InspectError>,
 {
    match parse(raw) {
        Err(e) => {
            &&& result.reference@ == placeholder()
            &&& result.status@ == StatusView::Error(ReasonView::Parse(e))
        },
        Ok(image) => {
            &&& result.reference@ == image
            &&& if image.remote.has_digest_lookup() {
                exists|asked: Image, answer: Result<Digest, FetchError>|
                    {
                        &&& asked@ == image.with_default_tag()
                        &&& #[trigger] call_ensures(fetch, (&asked,), answer)
                        &&& match answer {
                            Ok(remote) => exists|name: &str, found: Result<Digest, InspectError>|
                                {
                                    &&& name@ == dump(image)
                                    &&& #[trigger] call_ensures(inspect, (name,), found)
                                    &&& result.status@ == verdict(remote@, inspected(found))
                                },
                            Err(_) => result.status@ == StatusView::Unsupported,
                        }
                    }
            } else {
                result.status@ == StatusView::Unsupported
            }
        },
    }
}

/// The texts of a batch that are checked: all but the empty ones, in order.
pub open spec fn present(raws: Seq<Seq<char>>) -> Seq<Seq<char>> {
    raws.filter(|raw: Seq<char>| raw.len() > 0)
}

/// The canonical names of the stale images among `results`, in order.
pub open spec fn stale_names(results: Seq<ReconciliationResult>) -> Seq<Seq<char>> {
    results.filter(|r: ReconciliationResult| r.status is Stale).map_values(
        |r: ReconciliationResult| dump(r.reference@),
    )
}

/// An image on Quay, or on any registry but Docker Hub, is unsupported,
/// whatever the collaborators are: neither has a say in the outcome.
pub proof fn lemma_other_registry_unsupported<F, G>(
    raw: Seq<char>,
    fetch: &F,
    inspect: &G,
    result: ReconciliationResult,
) where F: Fn(&Image) -> Result<Digest, FetchError>, G: Fn(&str) -> Result<Digest, InspectError>
    requires
        reconciled(raw, fetch, inspect, result),
        parse(raw) matches Ok(image) && image.remote != Remote::DockerHub,
    ensures
        result.status@ == StatusView::Unsupported,
{
}

/// With a local inspection that can only fail, no image is found current
/// or stale: where the registry reported a digest the outcome is the error
/// of the inspection.
pub proof fn lemma_failed_inspection<F, G>(
    raw: Seq<char>,
    fetch: &F,
    inspect: &G,
    result: ReconciliationResult,
) where F: Fn(&Image) -> Result<Digest, FetchError>, G: Fn(&str) -> Result<Digest, InspectError>
    requires
        reconciled(raw, fetch, inspect, result),
        forall|name: &str, found: Result<Digest, InspectError>|
            call_ensures(inspect, (name,), found) ==> found is Err,
    ensures
        result.status@ != StatusView::Current,
        result.status@ != StatusView::Stale,
        parse(raw) is Ok && result.status@ != StatusView::Unsupported ==> result.status@ matches StatusView::Error(
            ReasonView::Inspect(_),
        ),
{
}

proof fn lemma_present_push(raws: Seq<Seq<char>>, raw: Seq<char>)
    ensures
        present(raws.push(raw)) == if raw.len() > 0 {
            present(raws).push(raw)
        } else {
            present(raws)
        },
{
    raws.lemma_filter_push(raw, |raw: Seq<char>| raw.len() > 0);
}

proof fn lemma_stale_push(results: Seq<ReconciliationResult>, result: ReconciliationResult)
    ensures
        stale_names(results.push(result)) == if result.status is Stale {
            stale_names(results).push(dump(result.reference@))
        } else {
            stale_names(results)
        },
{
    results.lemma_filter_push(result, |r: ReconciliationResult| r.status is Stale);
    if result.status is Stale {
        let kept = results.filter(|r: ReconciliationResult| r.status is Stale);
        assert(kept.push(result).map_values(|r: ReconciliationResult| dump(r.reference@))
            =~= kept.map_values(|r: ReconciliationResult| dump(r.reference@)).push(
            dump(result.reference@),
        ));
    }
}

impl Image {
    /// The image `error/error`.
    pub fn placeholder() -> (image: Image)
        ensures
            image@ == placeholder(),
    {
        Image {
            namespace: "error".to_owned(),
            repo: Some("error".to_owned()),
            tag: None,
            remote: Remote::DockerHub,
        }
    }
}

/// Decides between current, stale and error once the registry has reported
/// a digest.
pub fn verdict_on(remote: &Digest, local: Result<Digest, InspectError>) -> (status: Status)
    ensures
        status@ == verdict(remote@, inspected(local)),
        local matches Err(e) ==> status@ == StatusView::Error(ReasonView::Inspect(e)),
        local is Ok ==> status@ == StatusView::Current || status@ == StatusView::Stale,
{
    match local {
        Ok(found) => if found == *remote {
            Status::Current
        } else {
            Status::Stale
        },
        Err(e) => Status::Error(Reason::Inspect(e)),
    }
}

/// Checks one image name.
///
/// `fetch` is asked only for images on a registry with digest lookup, and
/// only with a tag; `inspect` only after `fetch` has reported a digest.
pub fn reconcile<F, G>(raw: &str, fetch: &F, inspect: &G) -> (result: ReconciliationResult) where
    F: Fn(&Image) -> Result<Digest, FetchError>,
    G: Fn(&str) -> Result<Digest, InspectError>,

    requires
        askable(fetch, inspect),
    ensures
        reconciled(raw@, fetch, inspect, result),
{
    let reference = match Image::from_str(raw) {
        Ok(image) => image,
        Err(e) => {
            return ReconciliationResult {
                reference: Image::placeholder(),
                status: Status::Error(Reason::Parse(e)),
            };
        },
    };
    if !reference.remote.supports_digest_lookup() {
        return ReconciliationResult { reference, status: Status::Unsupported };
    }
    let asked = reference.with_default_tag();
    let answer = fetch(&asked);
    let remote = match answer {
        Ok(remote) => remote,
        Err(_) => {
            return ReconciliationResult { reference, status: Status::Unsupported };
        },
    };
    let name = reference.dump();
    let found = inspect(name.as_str());
    let status = verdict_on(&remote, found);
    ReconciliationResult { reference, status }
}

/// Checks a batch of image names, one after the other. Empty texts are
/// passed over; every other text gets its result, whatever became of the
/// ones before it.
pub fn reconcile_all<F, G>(raws: &[String], fetch: &F, inspect: &G) -> (results: Vec<
    ReconciliationResult,
>) where
    F: Fn(&Image) -> Result<Digest, FetchError>,
    G: Fn(&str) -> Result<Digest, InspectError>,

    requires
        askable(fetch, inspect),
    ensures
        results.len() == present(strings(raws@)).len(),
        forall|i: int|
            0 <= i < results.len() ==> reconciled(
                present(strings(raws@))[i],
                fetch,
                inspect,
                #[trigger] results[i],
            ),
{
    let mut results: Vec<ReconciliationResult> = Vec::new();
    let ghost all = strings(raws@);
    proof {
        assert(all.take(0) =~= Seq::<Seq<char>>::empty());
        lemma_present_empty();
    }
    for i in 0..raws.len()
        invariant
            all == strings(raws@),
            askable(fetch, inspect),
            results.len() == present(all.take(i as int)).len(),
            forall|k: int|
                0 <= k < results.len() ==> reconciled(
                    present(all.take(i as int))[k],
                    fetch,
                    inspect,
                    #[trigger] results[k],
                ),
    {
        proof {
            assert(all.take(i + 1) =~= all.take(i as int).push(raws[i as int]@));
            lemma_present_push(all.take(i as int), raws[i as int]@);
        }
        if !raws[i].as_str().is_empty() {
            let result = reconcile(raws[i].as_str(), fetch, inspect);
            results.push(result);
        }
    }
    proof {
        assert(all.take(raws.len() as int) =~= all);
    }
    results
}

proof fn lemma_present_empty()
    ensures
        present(Seq::<Seq<char>>::empty()) == Seq::<Seq<char>>::empty(),
{
    reveal(Seq::filter);
}

/// The canonical names of the stale images among `results`.
pub fn stale_images(results: &[ReconciliationResult]) -> (names: Vec<String>)
    ensures
        strings(names@) == stale_names(results@),
{
    let mut names: Vec<String> = Vec::new();
    proof {
        reveal(Seq::filter);
        assert(results@.take(0) =~= Seq::<ReconciliationResult>::empty());
        assert(strings(names@) =~= stale_names(results@.take(0)));
    }
    for i in 0..results.len()
        invariant
            strings(names@) == stale_names(results@.take(i as int)),
    {
        proof {
            assert(results@.take(i + 1) =~= results@.take(i as int).push(results[i as int]));
            lemma_stale_push(results@.take(i as int), results[i as int]);
        }
        let ghost before = strings(names@);
        match results[i].status {
            Status::Stale => {
                names.push(results[i].reference.dump());
                assert(strings(names@) =~= before.push(dump(results[i as int].reference@)));
            },
            _ => {},
        }
    }
    proof {
        assert(results@.take(results.len() as int) =~= results@);
    }
    names
}

} // verus!
