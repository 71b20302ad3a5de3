use image_check::{
    reconcile, reconcile_all, stale_images, verdict_on, Digest, FetchError, Image, InspectError,
    ParseError, Reason, ReconciliationResult, Remote, Status,
};
use std::cell::{Cell, RefCell};

fn image(namespace: &str, repo: Option<&str>, tag: Option<&str>, remote: Remote) -> Image {
    Image {
        namespace: namespace.to_string(),
        repo: repo.map(|r| r.to_string()),
        tag: tag.map(|t| t.to_string()),
        remote,
    }
}

fn never_fetch(_: &Image) -> Result<Digest, FetchError> {
    panic!("the registry was asked")
}

fn never_inspect(_: &str) -> Result<Digest, InspectError> {
    panic!("the local copy was inspected")
}

#[test]
fn same_digest_is_current() {
    let result = reconcile(
        "nginx/nginx:1.27",
        &|_: &Image| Ok(Digest::from_str("sha256:abc123")),
        &|_: &str| Ok(Digest::from_str("nginx/nginx@sha256:abc123")),
    );
    assert_eq!(result.status, Status::Current);
    assert_eq!(result.reference, image("nginx", Some("nginx"), Some("1.27"), Remote::DockerHub));
}

#[test]
fn other_digest_is_stale() {
    let result = reconcile(
        "nginx/nginx:1.27",
        &|_: &Image| Ok(Digest::from_str("sha256:abc123")),
        &|_: &str| Ok(Digest::from_str("sha256:def456")),
    );
    assert_eq!(result.status, Status::Stale);
}

#[test]
fn quay_is_unsupported_and_never_asked() {
    let result = reconcile("quay.io/prometheus/node-exporter:v1.8.1", &never_fetch, &never_inspect);
    assert_eq!(result.status, Status::Unsupported);
    assert_eq!(
        result.reference,
        image("prometheus", Some("node-exporter"), Some("v1.8.1"), Remote::Quay)
    );
}

#[test]
fn ghcr_and_lscr_are_unsupported_and_never_asked() {
    let result = reconcile("ghcr.io/owner/app", &never_fetch, &never_inspect);
    assert_eq!(result.status, Status::Unsupported);
    let result = reconcile("lscr.io/linuxserver/pihole:latest", &never_fetch, &never_inspect);
    assert_eq!(result.status, Status::Unsupported);
}

#[test]
fn failed_fetch_is_unsupported_and_skips_inspection() {
    for error in [FetchError::Unreachable, FetchError::Status(404), FetchError::Malformed] {
        let result = reconcile("nginx/nginx", &|_: &Image| Err(error), &never_inspect);
        assert_eq!(result.status, Status::Unsupported);
        assert_eq!(result.reference, image("nginx", Some("nginx"), None, Remote::DockerHub));
    }
}

#[test]
fn failed_inspection_is_an_error() {
    let result = reconcile(
        "nginx/nginx",
        &|_: &Image| Ok(Digest::from_str("sha256:abc123")),
        &|_: &str| Err(InspectError::Failed),
    );
    assert_eq!(result.status, Status::Error(Reason::Inspect(InspectError::Failed)));
    let result = reconcile(
        "nginx/nginx",
        &|_: &Image| Ok(Digest::from_str("sha256:abc123")),
        &|_: &str| Err(InspectError::Malformed),
    );
    assert_eq!(result.status, Status::Error(Reason::Inspect(InspectError::Malformed)));
}

#[test]
fn text_that_is_no_name_is_an_error() {
    let result = reconcile("a/b/c/d", &never_fetch, &never_inspect);
    assert_eq!(
        result.status,
        Status::Error(Reason::Parse(ParseError::InvalidReference("a/b/c/d".to_string())))
    );
    assert_eq!(result.reference, image("error", Some("error"), None, Remote::DockerHub));
    assert_eq!(result.reference, Image::placeholder());
    let result = reconcile("postgres:", &never_fetch, &never_inspect);
    assert_eq!(
        result.status,
        Status::Error(Reason::Parse(ParseError::InvalidReference("postgres:".to_string())))
    );
}

#[test]
fn empty_text_is_an_error_of_its_own_kind() {
    let result = reconcile("", &never_fetch, &never_inspect);
    assert_eq!(result.status, Status::Error(Reason::Parse(ParseError::EmptyInput)));
    assert_eq!(result.reference, Image::placeholder());
}

#[test]
fn fetch_is_asked_with_latest_for_an_absent_tag() {
    let asked: RefCell<Vec<Image>> = RefCell::new(Vec::new());
    let result = reconcile(
        "nginx/nginx",
        &|image: &Image| {
            asked.borrow_mut().push(image.clone());
            Ok(Digest::from_str("sha256:abc123"))
        },
        &|_: &str| Ok(Digest::from_str("sha256:abc123")),
    );
    assert_eq!(
        asked.into_inner(),
        vec![image("nginx", Some("nginx"), Some("latest"), Remote::DockerHub)]
    );
    assert_eq!(result.reference.tag, None);
    assert_eq!(result.status, Status::Current);
}

#[test]
fn fetch_is_asked_with_the_given_tag() {
    let asked: RefCell<Vec<Image>> = RefCell::new(Vec::new());
    reconcile(
        "postgres:13",
        &|image: &Image| {
            asked.borrow_mut().push(image.clone());
            Err(FetchError::Status(404))
        },
        &never_inspect,
    );
    assert_eq!(asked.into_inner(), vec![image("postgres", None, Some("13"), Remote::DockerHub)]);
}

#[test]
fn inspect_is_asked_for_the_canonical_name() {
    let names: RefCell<Vec<String>> = RefCell::new(Vec::new());
    let inspect = |name: &str| {
        names.borrow_mut().push(name.to_string());
        Ok(Digest::from_str("sha256:abc123"))
    };
    let fetch = |_: &Image| Ok(Digest::from_str("sha256:abc123"));
    reconcile("docker.io/library/nginx:1.27", &fetch, &inspect);
    reconcile("nginx/nginx", &fetch, &inspect);
    reconcile("postgres:13", &fetch, &inspect);
    assert_eq!(names.into_inner(), vec!["library/nginx:1.27", "nginx/nginx", "postgres:13"]);
}

#[test]
fn each_collaborator_is_asked_once() {
    let fetched = Cell::new(0);
    let inspected = Cell::new(0);
    reconcile(
        "nginx/nginx",
        &|_: &Image| {
            fetched.set(fetched.get() + 1);
            Ok(Digest::from_str("sha256:abc123"))
        },
        &|_: &str| {
            inspected.set(inspected.get() + 1);
            Err(InspectError::Failed)
        },
    );
    assert_eq!(fetched.get(), 1);
    assert_eq!(inspected.get(), 1);
}

#[test]
fn a_failure_does_not_stop_the_batch() {
    let raws = vec!["broken/image:1".to_string(), "nginx/nginx:1.27".to_string()];
    let results = reconcile_all(
        &raws,
        &|_: &Image| Ok(Digest::from_str("sha256:abc123")),
        &|name: &str| {
            if name == "broken/image:1" {
                Err(InspectError::Failed)
            } else {
                Ok(Digest::from_str("sha256:abc123"))
            }
        },
    );
    assert_eq!(results.len(), 2);
    assert_eq!(results[0].status, Status::Error(Reason::Inspect(InspectError::Failed)));
    assert_eq!(results[0].reference, image("broken", Some("image"), Some("1"), Remote::DockerHub));
    assert_eq!(results[1].status, Status::Current);
    assert_eq!(results[1].reference, image("nginx", Some("nginx"), Some("1.27"), Remote::DockerHub));
}

#[test]
fn a_batch_reports_every_kind_in_order() {
    let raws: Vec<String> = [
        "nginx/nginx",
        "a/b/c/d",
        "quay.io/prometheus/node-exporter",
        "old/image:1",
        "gone/image",
    ]
    .iter()
    .map(|raw| raw.to_string())
    .collect();
    let results = reconcile_all(
        &raws,
        &|image: &Image| {
            if image.namespace == "gone" {
                Err(FetchError::Status(404))
            } else {
                Ok(Digest::from_str("sha256:new"))
            }
        },
        &|name: &str| {
            if name == "old/image:1" {
                Ok(Digest::from_str("sha256:old"))
            } else {
                Ok(Digest::from_str("sha256:new"))
            }
        },
    );
    let statuses: Vec<Status> = results.iter().map(|result| result.status.clone()).collect();
    assert_eq!(
        statuses,
        vec![
            Status::Current,
            Status::Error(Reason::Parse(ParseError::InvalidReference("a/b/c/d".to_string()))),
            Status::Unsupported,
            Status::Stale,
            Status::Unsupported,
        ]
    );
}

#[test]
fn a_batch_passes_over_empty_texts() {
    let raws = vec![String::new(), "nginx/nginx".to_string(), String::new()];
    let results = reconcile_all(
        &raws,
        &|_: &Image| Ok(Digest::from_str("sha256:abc123")),
        &|_: &str| Ok(Digest::from_str("sha256:abc123")),
    );
    assert_eq!(results.len(), 1);
    assert_eq!(results[0].reference, image("nginx", Some("nginx"), None, Remote::DockerHub));
    assert_eq!(results[0].status, Status::Current);
}

#[test]
fn an_empty_batch_has_no_results() {
    let results = reconcile_all(&[], &never_fetch, &never_inspect);
    assert_eq!(results, Vec::new());
}

#[test]
fn verdict_compares_payloads() {
    let remote = Digest::from_str("sha256:abc123");
    assert_eq!(verdict_on(&remote, Ok(Digest::from_str("abc123"))), Status::Current);
    assert_eq!(verdict_on(&remote, Ok(Digest::from_str("md5:abc123"))), Status::Current);
    assert_eq!(verdict_on(&remote, Ok(Digest::from_str("sha256:abc124"))), Status::Stale);
    assert_eq!(
        verdict_on(&remote, Err(InspectError::Malformed)),
        Status::Error(Reason::Inspect(InspectError::Malformed))
    );
}

#[test]
fn stale_images_lists_the_stale_names_in_order() {
    let result = |raw: &str, status: Status| ReconciliationResult {
        reference: Image::from_str(raw).unwrap(),
        status,
    };
    let results = vec![
        result("nginx/nginx", Status::Stale),
        result("postgres:13", Status::Current),
        result("quay.io/a/b", Status::Unsupported),
        result("docker.io/library/redis:7", Status::Stale),
        result("x/y", Status::Error(Reason::Inspect(InspectError::Failed))),
        result("lscr.io/linuxserver/pihole", Status::Stale),
    ];
    assert_eq!(
        stale_images(&results),
        vec!["nginx/nginx", "library/redis:7", "lscr.io/linuxserver/pihole"]
    );
    assert_eq!(stale_images(&[]), Vec::<String>::new());
}
