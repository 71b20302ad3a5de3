//! Image names: their structured form, the parser and the canonical text.

use crate::text::{leading_pair, lemma_split_pieces, split, split_on, strings};
use crate::theorems::{lemma_dump_parse, lemma_parse_canonical};
use vstd::prelude::*;
use vstd::string::StringExecFns;

verus! {

/// The registry that hosts an image.
#[derive(Clone, Copy, Debug, PartialEq, Eq, Structural)]
pub enum Remote {
    DockerHub,
    Ghcr,
    Lscr,
    Quay,
}

impl Remote {
    /// The host name by which a registry is written in an image name. Docker
    /// Hub, the default, is written without one.
    pub open spec fn host(self) -> Seq<char> {
        match self {
            Remote::DockerHub => Seq::empty(),
            Remote::Ghcr => "ghcr.io"@,
            Remote::Lscr => "lscr.io"@,
            Remote::Quay => "quay.io"@,
        }
    }

    /// The registry that a host name selects: the known names select their
    /// registry, letter for letter, and every other text selects Docker Hub.
    pub open spec fn of_host(host: Seq<char>) -> Remote {
        if host == "lscr.io"@ {
            Remote::Lscr
        } else if host == "ghcr.io"@ {
            Remote::Ghcr
        } else if host == "quay.io"@ {
            Remote::Quay
        } else {
            Remote::DockerHub
        }
    }

    /// What `dump` writes before the namespace: nothing for Docker Hub, else
    /// the host name and a slash.
    pub open spec fn prefix(self) -> Seq<char> {
        match self {
            Remote::DockerHub => Seq::empty(),
            _ => self.host().push('/'),
        }
    }

    /// The host name of the registry; the empty text for Docker Hub.
    pub fn hostname(&self) -> (name: &'static str)
        ensures
            name@ == self.host(),
    {
        match self {
            Remote::DockerHub => {
                proof {
                    reveal_strlit("");
                }
                ""
            },
            Remote::Ghcr => "ghcr.io",
            Remote::Lscr => "lscr.io",
            Remote::Quay => "quay.io",
        }
    }

    /// Selects the registry named by the first of three segments.
    pub fn from_host(host: &str) -> (remote: Remote)
        ensures
            remote == Remote::of_host(host@),
    {
        if host.eq("lscr.io") {
            Remote::Lscr
        } else if host.eq("ghcr.io") {
            Remote::Ghcr
        } else if host.eq("quay.io") {
            Remote::Quay
        } else {
            Remote::DockerHub
        }
    }
}

/// An image name in structured form.
///
/// A name without a tag is valid (`pihole/pihole`), so `tag` is optional; the
/// official images are written without a repository (`postgres:13`), so
/// `repo` is optional too. An absent tag stays absent: it is not `latest`.
#[derive(Clone, Debug, PartialEq, Eq)]
pub struct Image {
    pub namespace: String,
    pub repo: Option<String>,
    pub tag: Option<String>,
    pub remote: Remote,
}

/// What an `Image` holds, as mathematical text.
pub struct ImageView {
    pub namespace: Seq<char>,
    pub repo: Option<Seq<char>>,
    pub tag: Option<Seq<char>>,
    pub remote: Remote,
}

impl ImageView {
    /// The images that the parser can return: no part holds a slash, neither
    /// repository nor tag holds a colon, and an image without a repository is
    /// on Docker Hub, its namespace holds no colon, and its tag (or, without
    /// a tag, its namespace) is not empty.
    pub open spec fn is_canonical(self) -> bool {
        &&& !self.namespace.contains('/')
        &&& self.tag matches Some(t) ==> !t.contains('/') && !t.contains(':')
        &&& match self.repo {
            Some(r) => !r.contains('/') && !r.contains(':'),
            None => {
                &&& self.remote == Remote::DockerHub
                &&& !self.namespace.contains(':')
                &&& match self.tag {
                    Some(t) => t.len() > 0,
                    None => self.namespace.len() > 0,
                }
            },
        }
    }
}

impl View for Image {
    type V = ImageView;

    open spec fn view(&self) -> ImageView {
        ImageView {
            namespace: self.namespace@,
            repo: match self.repo {
                Some(r) => Some(r@),
                None => None,
            },
            tag: match self.tag {
                Some(t) => Some(t@),
                None => None,
            },
            remote: self.remote,
        }
    }
}

/// Why a text is not an image name.
#[derive(Clone, Debug, PartialEq, Eq)]
pub enum ParseError {
    /// The text is empty: there is nothing to parse.
    EmptyInput,
    /// The text has more than three segments, or a single segment whose tag
    /// is empty. It carries the text.
    InvalidReference(String),
}

/// What a `ParseError` holds, as mathematical text.
pub enum ParseErrorView {
    EmptyInput,
    InvalidReference(Seq<char>),
}

impl View for ParseError {
    type V = ParseErrorView;

    open spec fn view(&self) -> ParseErrorView {
        match self {
            ParseError::EmptyInput => ParseErrorView::EmptyInput,
            ParseError::InvalidReference(raw) => ParseErrorView::InvalidReference(raw@),
        }
    }
}

/// The name in a segment of the form `name[:tag]`: the text before the first
/// colon.
pub open spec fn name_of(segment: Seq<char>) -> Seq<char> {
    split(segment, ':')[0]
}

/// The tag in a segment of the form `name[:tag]`: absent without a colon,
/// else the text between the first colon and the next one (or the end).
pub open spec fn tag_of(segment: Seq<char>) -> Option<Seq<char>> {
    let pieces = split(segment, ':');
    if pieces.len() >= 2 {
        Some(pieces[1])
    } else {
        None
    }
}

/// The image that a text names, by the number of its segments between
/// slashes.
///
/// - Three segments are `registry/namespace/repo[:tag]`.
/// - Two segments are `namespace/repo[:tag]` on Docker Hub.
/// - One segment is `namespace[:tag]` on Docker Hub, without a repository;
///   it is invalid where a colon is followed by an empty tag, and the empty
///   text is no input at all.
/// - More segments are invalid.
pub open spec fn parse(raw: Seq<char>) -> Result<ImageView, ParseErrorView> {
    let segments = split(raw, '/');
    if segments.len() == 3 {
        Ok(
            ImageView {
                namespace: segments[1],
                repo: Some(name_of(segments[2])),
                tag: tag_of(segments[2]),
                remote: Remote::of_host(segments[0]),
            },
        )
    } else if segments.len() == 2 {
        Ok(
            ImageView {
                namespace: segments[0],
                repo: Some(name_of(segments[1])),
                tag: tag_of(segments[1]),
                remote: Remote::DockerHub,
            },
        )
    } else if segments.len() == 1 {
        if raw.len() == 0 {
            Err(ParseErrorView::EmptyInput)
        } else if tag_of(raw) == Some(Seq::<char>::empty()) {
            Err(ParseErrorView::InvalidReference(raw))
        } else {
            Ok(
                ImageView {
                    namespace: name_of(raw),
                    repo: None,
                    tag: tag_of(raw),
                    remote: Remote::DockerHub,
                },
            )
        }
    } else {
        Err(ParseErrorView::InvalidReference(raw))
    }
}

/// The canonical text of an image: the registry's prefix, the namespace,
/// `/repo` where there is a repository and `:tag` where there is a tag.
pub open spec fn dump(image: ImageView) -> Seq<char> {
    image.remote.prefix() + image.namespace + (match image.repo {
        Some(r) => seq!['/'] + r,
        None => Seq::empty(),
    }) + (match image.tag {
        Some(t) => seq![':'] + t,
        None => Seq::empty(),
    })
}

/// The view of what `Image::from_str` returns.
pub open spec fn parsed(r: Result<Image, ParseError>) -> Result<ImageView, ParseErrorView> {
    match r {
        Ok(image) => Ok(image@),
        Err(e) => Err(e@),
    }
}

impl Image {
    /// Parses the plain text of an image name.
    ///
    /// The text is parted at its slashes. Three segments are a registry's
    /// host, a namespace and `repo[:tag]`; a host that is not known stands for
    /// Docker Hub. Two segments are a namespace and `repo[:tag]` on Docker
    /// Hub. One segment is `namespace[:tag]` on Docker Hub. The empty text is
    /// `EmptyInput`; more than three segments, or one segment whose tag is
    /// empty, are an `InvalidReference` that carries the text.
    pub fn from_str(namestring: &str) -> (r: Result<Image, ParseError>)
        ensures
            parsed(r) == parse(namestring@),
            r matches Ok(image) ==> image@.is_canonical(),
    {
        proof {
            lemma_split_pieces(namestring@, '/');
            lemma_parse_canonical(namestring@);
        }
        let mut parts = split_on(namestring, '/');
        let ghost segments = split(namestring@, '/');
        assert(forall|i: int| 0 <= i < parts.len() ==> parts@[i]@ == segments[i]) by {
            assert(forall|i: int|
                0 <= i < parts.len() ==> parts@[i]@ == #[trigger] strings(parts@)[i]);
        }
        if parts.len() == 3 {
            let last = parts.pop().unwrap();
            let namespace = parts.pop().unwrap();
            let host = parts.pop().unwrap();
            let (repo, tag) = leading_pair(last.as_str(), ':');
            let remote = Remote::from_host(host.as_str());
            Ok(Image { namespace, repo: Some(repo), tag, remote })
        } else if parts.len() == 2 {
            let last = parts.pop().unwrap();
            let namespace = parts.pop().unwrap();
            let (repo, tag) = leading_pair(last.as_str(), ':');
            Ok(Image { namespace, repo: Some(repo), tag, remote: Remote::DockerHub })
        } else if parts.len() == 1 {
            if namestring.is_empty() {
                return Err(ParseError::EmptyInput);
            }
            let (namespace, tag) = leading_pair(namestring, ':');
            let tag_is_empty = match &tag {
                Some(t) => t.as_str().is_empty(),
                None => false,
            };
            if tag_is_empty {
                assert(tag_of(namestring@) =~= Some(Seq::<char>::empty()));
                Err(ParseError::InvalidReference(namestring.to_owned()))
            } else {
                Ok(Image { namespace, repo: None, tag, remote: Remote::DockerHub })
            }
        } else {
            Err(ParseError::InvalidReference(namestring.to_owned()))
        }
    }

    /// Writes the image as the name that Docker knows it by: the registry's
    /// host and a slash unless the registry is Docker Hub, the namespace,
    /// `/repo` where there is a repository, `:tag` where there is a tag.
    /// What `from_str` returned it reads back from this text.
    pub fn dump(&self) -> (name: String)
        ensures
            name@ == dump(self@),
            self@.is_canonical() ==> parse(name@) == Ok::<ImageView, ParseErrorView>(self@),
    {
        proof {
            if self@.is_canonical() {
                lemma_dump_parse(self@);
            }
        }
        let mut name = self.remote.hostname().to_owned();
        match self.remote {
            Remote::DockerHub => {},
            _ => {
                name.push('/');
            },
        }
        name.append(self.namespace.as_str());
        let ghost stem = name@;
        let ghost repo_part = match self@.repo {
            Some(r) => seq!['/'] + r,
            None => Seq::empty(),
        };
        match &self.repo {
            Some(r) => {
                name.push('/');
                name.append(r.as_str());
            },
            None => {},
        }
        assert(name@ =~= stem + repo_part);
        let ghost body = name@;
        match &self.tag {
            Some(t) => {
                name.push(':');
                name.append(t.as_str());
            },
            None => {},
        }
        assert(name@ =~= body + (match self@.tag {
            Some(t) => seq![':'] + t,
            None => Seq::empty(),
        }));
        name
    }
}

} // verus!
