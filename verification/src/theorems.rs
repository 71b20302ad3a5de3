//! What holds of the parser and the canonical text together: proofs, with
//! nothing to run.

use crate::image::{dump, name_of, parse, tag_of, ImageView, Remote};
use crate::text::{
    head_len, lemma_head_len, lemma_split_first, lemma_split_pieces, lemma_split_whole, split,
};
use vstd::prelude::*;

verus! {

/// A segment `name[:tag]`, as `dump` writes it.
spec fn segment(name: Seq<char>, tag: Option<Seq<char>>) -> Seq<char> {
    name + (match tag {
        Some(t) => seq![':'] + t,
        None => Seq::empty(),
    })
}

proof fn lemma_concat_free(a: Seq<char>, b: Seq<char>, c: char)
    requires
        !a.contains(c),
        !b.contains(c),
    ensures
        !(a + b).contains(c),
{
    if (a + b).contains(c) {
        let k = choose|k: int| 0 <= k < (a + b).len() && (a + b)[k] == c;
        if k < a.len() {
            assert(a[k] == c);
        } else {
            assert(b[k - a.len()] == c);
        }
    }
}

/// A written segment is read back as its name and its tag.
proof fn lemma_segment(name: Seq<char>, tag: Option<Seq<char>>)
    requires
        !name.contains(':'),
        !name.contains('/'),
        tag matches Some(t) ==> !t.contains(':') && !t.contains('/'),
    ensures
        name_of(segment(name, tag)) == name,
        tag_of(segment(name, tag)) == tag,
        !segment(name, tag).contains('/'),
{
    match tag {
        Some(t) => {
            assert(segment(name, tag) =~= name + seq![':'] + t);
            lemma_split_first(name, t, ':');
            lemma_split_whole(t, ':');
            assert(!seq![':'].contains('/'));
            lemma_concat_free(seq![':'], t, '/');
            lemma_concat_free(name, seq![':'] + t, '/');
        },
        None => {
            assert(segment(name, tag) =~= name);
            lemma_split_whole(name, ':');
        },
    }
}

/// The known host names hold no slash, and each selects its own registry;
/// every other text selects Docker Hub.
pub proof fn lemma_hosts()
    ensures
        forall|r: Remote| r != Remote::DockerHub ==> Remote::of_host(#[trigger] r.host()) == r,
        forall|r: Remote| !(#[trigger] r.host()).contains('/'),
        forall|host: Seq<char>|
            host != "ghcr.io"@ && host != "lscr.io"@ && host != "quay.io"@ ==> #[trigger] Remote::of_host(
                host,
            ) == Remote::DockerHub,
{
    reveal_strlit("ghcr.io");
    reveal_strlit("lscr.io");
    reveal_strlit("quay.io");
    assert("ghcr.io"@[0] != "lscr.io"@[0]);
    assert("ghcr.io"@[0] != "quay.io"@[0]);
    assert("lscr.io"@[0] != "quay.io"@[0]);
    assert forall|r: Remote| !(#[trigger] r.host()).contains('/') by {
        let h = r.host();
        if h.contains('/') {
            let k = choose|k: int| 0 <= k < h.len() && h[k] == '/';
            assert(h[k] != '/');
        }
    }
}

/// Every image that the parser returns is canonical.
pub proof fn lemma_parse_canonical(raw: Seq<char>)
    ensures
        parse(raw) matches Ok(image) ==> image.is_canonical(),
{
    lemma_split_pieces(raw, '/');
    let segments = split(raw, '/');
    if segments.len() == 3 || segments.len() == 2 {
        let last = segments[segments.len() - 1];
        let namespace = segments[segments.len() - 2];
        assert(!namespace.contains('/'));
        assert(!last.contains('/'));
        lemma_split_pieces(last, ':');
    } else if segments.len() == 1 {
        lemma_split_pieces(raw, ':');
        let pieces = split(raw, ':');
        if pieces.len() >= 2 && pieces[1].len() == 0 {
            assert(pieces[1] =~= Seq::<char>::empty());
        }
    }
}

/// The parser reads the canonical text of a canonical image back as that
/// image.
pub proof fn lemma_dump_parse(image: ImageView)
    requires
        image.is_canonical(),
    ensures
        parse(dump(image)) == Ok::<ImageView, crate::image::ParseErrorView>(image),
{
    lemma_hosts();
    let text = dump(image);
    match image.repo {
        Some(r) => {
            let last = segment(r, image.tag);
            lemma_segment(r, image.tag);
            lemma_split_whole(last, '/');
            lemma_split_first(image.namespace, last, '/');
            let body = image.namespace + seq!['/'] + last;
            if image.remote == Remote::DockerHub {
                assert(text =~= body);
                assert(split(text, '/') =~= seq![image.namespace, last]);
            } else {
                let host = image.remote.host();
                assert(text =~= host + seq!['/'] + body);
                lemma_split_first(host, body, '/');
                assert(split(text, '/') =~= seq![host, image.namespace, last]);
            }
        },
        None => {
            assert(text =~= segment(image.namespace, image.tag));
            lemma_segment(image.namespace, image.tag);
            lemma_split_whole(text, '/');
            if text.len() == 0 {
                assert(image.namespace =~= Seq::<char>::empty());
            }
        },
    }
}

/// Parsing is stable once a name is canonical: the canonical text of what
/// the parser returned is parsed as the same image.
pub proof fn lemma_round_trip(raw: Seq<char>)
    ensures
        parse(raw) matches Ok(image) ==> parse(dump(image)) == parse(raw),
{
    lemma_parse_canonical(raw);
    if let Ok(image) = parse(raw) {
        lemma_dump_parse(image);
    }
}

/// Only a name of three segments selects a registry, by its first segment;
/// with fewer segments the registry is Docker Hub. A name of two or three
/// segments always parses.
pub proof fn lemma_registry_selection(raw: Seq<char>)
    ensures
        split(raw, '/').len() == 3 ==> parse(raw) is Ok,
        split(raw, '/').len() == 2 ==> parse(raw) is Ok,
        parse(raw) matches Ok(image) ==> image.remote == (if split(raw, '/').len() == 3 {
            Remote::of_host(split(raw, '/')[0])
        } else {
            Remote::DockerHub
        }),
{
}

/// The namespace of a parsed image is not empty, unless the text leaves its
/// place empty: a text none of whose segments is empty, and which does not
/// begin with a colon, has a namespace.
pub proof fn lemma_namespace_present(raw: Seq<char>)
    requires
        forall|i: int| 0 <= i < split(raw, '/').len() ==> (#[trigger] split(raw, '/')[i]).len() > 0,
        raw.len() > 0 ==> raw[0] != ':',
    ensures
        parse(raw) matches Ok(image) ==> image.namespace.len() > 0,
{
    lemma_split_pieces(raw, '/');
    let segments = split(raw, '/');
    if segments.len() == 3 {
        assert(segments[1].len() > 0);
    } else if segments.len() == 2 {
        assert(segments[0].len() > 0);
    } else if segments.len() == 1 && raw.len() > 0 {
        lemma_head_len(raw, ':');
        if head_len(raw, ':') >= raw.len() {
            assert(name_of(raw) == raw);
        } else {
            assert(head_len(raw, ':') > 0);
            assert(name_of(raw) == raw.take(head_len(raw, ':')));
        }
    }
}

} // verus!
