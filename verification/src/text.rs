//! Splitting and trimming of text, stated over sequences of characters.

use vstd::prelude::*;

verus! {

/// How many characters of `s` stand before its first `sep`: the length of
/// `s` where it holds none.
pub open spec fn head_len(s: Seq<char>, sep: char) -> int
    decreases s.len(),
{
    if s.len() == 0 || s[0] == sep {
        0
    } else {
        1 + head_len(s.drop_first(), sep)
    }
}

/// The pieces of `s` between the occurrences of `sep`, in order. There is
/// always at least one piece, and one more piece than there are separators;
/// a piece is empty where two separators meet or `s` begins or ends with one.
pub open spec fn split(s: Seq<char>, sep: char) -> Seq<Seq<char>>
    decreases s.len(),
    via split_decreases
{
    let n = head_len(s, sep);
    if n >= s.len() {
        seq![s]
    } else {
        seq![s.take(n)] + split(s.skip(n + 1), sep)
    }
}

#[via_fn]
proof fn split_decreases(s: Seq<char>, sep: char) {
    lemma_head_len(s, sep);
}

/// The views of a sequence of strings.
pub open spec fn strings(v: Seq<String>) -> Seq<Seq<char>> {
    Seq::new(v.len(), |i: int| v[i]@)
}

/// `s` without the characters `c` that it begins with.
pub open spec fn trim_start(s: Seq<char>, c: char) -> Seq<char>
    decreases s.len(),
{
    if s.len() > 0 && s[0] == c {
        trim_start(s.drop_first(), c)
    } else {
        s
    }
}

/// `s` without the characters `c` that it ends with.
pub open spec fn trim_end(s: Seq<char>, c: char) -> Seq<char>
    decreases s.len(),
{
    if s.len() > 0 && s.last() == c {
        trim_end(s.drop_last(), c)
    } else {
        s
    }
}

/// `s` without the characters `c` at either end.
pub open spec fn trim(s: Seq<char>, c: char) -> Seq<char> {
    trim_end(trim_start(s, c), c)
}

/// `head_len` is the index of the first separator, or the length.
pub proof fn lemma_head_len(s: Seq<char>, sep: char)
    ensures
        0 <= head_len(s, sep) <= s.len(),
        forall|j: int| 0 <= j < head_len(s, sep) ==> s[j] != sep,
        head_len(s, sep) < s.len() ==> s[head_len(s, sep)] == sep,
    decreases s.len(),
{
    if s.len() == 0 || s[0] == sep {
    } else {
        let t = s.drop_first();
        lemma_head_len(t, sep);
        assert forall|j: int| 0 <= j < head_len(s, sep) implies s[j] != sep by {
            if j > 0 {
                assert(s[j] == t[j - 1]);
            }
        }
        if head_len(s, sep) < s.len() {
            assert(s[head_len(s, sep)] == t[head_len(t, sep)]);
        }
    }
}

/// Any index that has no separator before it, and is the length or holds
/// one, is `head_len`.
proof fn lemma_head_len_is(s: Seq<char>, sep: char, k: int)
    requires
        0 <= k <= s.len(),
        forall|j: int| 0 <= j < k ==> s[j] != sep,
        k < s.len() ==> s[k] == sep,
    ensures
        head_len(s, sep) == k,
{
    lemma_head_len(s, sep);
    let n = head_len(s, sep);
    if n < k {
        assert(s[n] == sep);
    } else if k < n {
        assert(s[k] != sep);
    }
}

/// Text without a separator is a single piece.
pub proof fn lemma_split_whole(s: Seq<char>, sep: char)
    requires
        !s.contains(sep),
    ensures
        split(s, sep) == seq![s],
{
    lemma_head_len(s, sep);
    if head_len(s, sep) < s.len() {
        assert(s.contains(s[head_len(s, sep)]));
    }
}

/// A separator after text that holds none ends the first piece there.
pub proof fn lemma_split_first(a: Seq<char>, b: Seq<char>, sep: char)
    requires
        !a.contains(sep),
    ensures
        split(a + seq![sep] + b, sep) == seq![a] + split(b, sep),
{
    let s = a + seq![sep] + b;
    assert forall|j: int| 0 <= j < a.len() implies s[j] != sep by {
        assert(s[j] == a[j]);
        assert(a.contains(a[j]));
    }
    assert(s[a.len() as int] == sep);
    lemma_head_len_is(s, sep, a.len() as int);
    assert(s.take(a.len() as int) =~= a);
    assert(s.skip(a.len() as int + 1) =~= b);
}

/// No piece holds the separator, and a piece holds only characters of the
/// text; the text is one piece exactly when it holds no separator.
pub proof fn lemma_split_pieces(s: Seq<char>, sep: char)
    ensures
        split(s, sep).len() >= 1,
        split(s, sep).len() == 1 <==> !s.contains(sep),
        split(s, sep).len() == 1 ==> split(s, sep)[0] == s,
        forall|i: int| 0 <= i < split(s, sep).len() ==> !(#[trigger] split(s, sep)[i]).contains(sep),
        forall|i: int, c: char|
            0 <= i < split(s, sep).len() && (#[trigger] split(s, sep)[i]).contains(c)
                ==> #[trigger] s.contains(c),
    decreases s.len(),
{
    lemma_head_len(s, sep);
    let n = head_len(s, sep);
    if n >= s.len() {
        if s.contains(sep) {
            let k = choose|k: int| 0 <= k < s.len() && s[k] == sep;
            assert(s[k] != sep);
        }
    } else {
        let head = s.take(n);
        let rest = s.skip(n + 1);
        lemma_split_pieces(rest, sep);
        let p = split(rest, sep);
        assert(s.contains(s[n]));
        assert forall|i: int| 0 <= i < split(s, sep).len() implies !(#[trigger] split(
            s,
            sep,
        )[i]).contains(sep) by {
            if i == 0 {
                if head.contains(sep) {
                    let k = choose|k: int| 0 <= k < head.len() && head[k] == sep;
                    assert(s[k] != sep);
                }
            } else {
                assert(split(s, sep)[i] == p[i - 1]);
            }
        }
        assert forall|i: int, c: char|
            0 <= i < split(s, sep).len() && (#[trigger] split(s, sep)[i]).contains(
                c,
            ) implies #[trigger] s.contains(c) by {
            if i == 0 {
                let k = choose|k: int| 0 <= k < head.len() && head[k] == c;
                assert(s[k] == c);
            } else {
                assert(split(s, sep)[i] == p[i - 1]);
                assert(rest.contains(c));
                let k = choose|k: int| 0 <= k < rest.len() && rest[k] == c;
                assert(s[k + n + 1] == c);
            }
        }
    }
}

/// What one more character does to the pieces: a separator opens a new,
/// empty piece, any other character joins the last piece.
proof fn lemma_split_push(s: Seq<char>, c: char, sep: char)
    ensures
        split(s, sep).len() >= 1,
        c == sep ==> split(s.push(c), sep) == split(s, sep).push(Seq::empty()),
        c != sep ==> split(s.push(c), sep) == split(s, sep).drop_last().push(
            split(s, sep).last().push(c),
        ),
    decreases s.len(),
{
    lemma_head_len(s, sep);
    let n = head_len(s, sep);
    let t = s.push(c);
    if n >= s.len() {
        if c == sep {
            lemma_head_len_is(t, sep, n);
            assert(t.take(n) =~= s);
            assert(t.skip(n + 1) =~= Seq::<char>::empty());
            assert(split(Seq::<char>::empty(), sep) =~= seq![Seq::<char>::empty()]);
            assert(split(t, sep) =~= split(s, sep).push(Seq::empty()));
        } else {
            lemma_head_len_is(t, sep, n + 1);
            assert(split(t, sep) =~= split(s, sep).drop_last().push(split(s, sep).last().push(c)));
        }
    } else {
        lemma_head_len_is(t, sep, n);
        let rest = s.skip(n + 1);
        assert(t.take(n) =~= s.take(n));
        assert(t.skip(n + 1) =~= rest.push(c));
        lemma_split_push(rest, c, sep);
        let p = split(rest, sep);
        if c == sep {
            assert(split(t, sep) =~= split(s, sep).push(Seq::empty()));
        } else {
            assert(split(s, sep).last() == p.last());
            assert(split(t, sep) =~= split(s, sep).drop_last().push(split(s, sep).last().push(c)));
        }
    }
}

/// Trimming at the start drops exactly the leading run of `c`.
proof fn lemma_trim_start(s: Seq<char>, c: char, k: int)
    requires
        0 <= k <= s.len(),
        forall|j: int| 0 <= j < k ==> s[j] == c,
        k < s.len() ==> s[k] != c,
    ensures
        trim_start(s, c) == s.skip(k),
    decreases k,
{
    if k == 0 {
        assert(s.skip(0) =~= s);
    } else {
        assert(s[0] == c);
        let t = s.drop_first();
        assert forall|j: int| 0 <= j < k - 1 implies t[j] == c by {
            assert(t[j] == s[j + 1]);
        }
        lemma_trim_start(t, c, k - 1);
        assert(t.skip(k - 1) =~= s.skip(k));
    }
}

/// Trimming at the end drops exactly the trailing run of `c`.
proof fn lemma_trim_end(s: Seq<char>, c: char, k: int)
    requires
        0 <= k <= s.len(),
        forall|j: int| k <= j < s.len() ==> s[j] == c,
        k > 0 ==> s[k - 1] != c,
    ensures
        trim_end(s, c) == s.take(k),
    decreases s.len() - k,
{
    if k == s.len() {
        assert(s.take(k) =~= s);
    } else {
        assert(s.last() == c);
        let t = s.drop_last();
        lemma_trim_end(t, c, k);
        assert(t.take(k) =~= s.take(k));
    }
}

/// `String::push` of the standard library: the character is appended and
/// nothing else changes.
pub assume_specification[ String::push ](s: &mut String, c: char)
    ensures
        final(s)@ == old(s)@.push(c),
;

/// `==` of the standard library on `str`: two texts are equal when they
/// hold the same characters.
pub assume_specification[ <str as PartialEq>::eq ](a: &str, b: &str) -> (same: bool)
    ensures
        same == (a@ == b@),
;

/// Splits `s` at every `sep`.
pub fn split_on(s: &str, sep: char) -> (parts: Vec<String>)
    ensures
        strings(parts@) == split(s@, sep),
{
    let mut parts: Vec<String> = Vec::new();
    let mut piece = String::new();
    proof {
        assert(s@.take(0) =~= Seq::<char>::empty());
        assert(split(Seq::<char>::empty(), sep) =~= seq![Seq::<char>::empty()]);
        assert(strings(parts@).push(piece@) =~= seq![Seq::<char>::empty()]);
    }
    for c in it: s.chars()
        invariant
            it.seq() == s@,
            strings(parts@).push(piece@) == split(s@.take(it.index() as int), sep),
    {
        proof {
            let seen = s@.take(it.index() as int);
            lemma_split_push(seen, c, sep);
            assert(s@.take(it.index() as int + 1) =~= seen.push(c));
        }
        let ghost before = strings(parts@).push(piece@);
        if c == sep {
            parts.push(piece);
            piece = String::new();
            assert(strings(parts@).push(piece@) =~= before.push(Seq::empty()));
        } else {
            piece.push(c);
            assert(strings(parts@).push(piece@) =~= before.drop_last().push(before.last().push(c)));
        }
    }
    proof {
        assert(s@.take(s@.len() as int) =~= s@);
    }
    let ghost before = strings(parts@).push(piece@);
    parts.push(piece);
    assert(strings(parts@) =~= before);
    parts
}

/// The first piece of `s` between separators, and the second where there is
/// one.
pub fn leading_pair(s: &str, sep: char) -> (pair: (String, Option<String>))
    ensures
        pair.0@ == split(s@, sep)[0],
        match pair.1 {
            Some(second) => split(s@, sep).len() >= 2 && second@ == split(s@, sep)[1],
            None => split(s@, sep).len() == 1,
        },
{
    proof {
        lemma_split_pieces(s@, sep);
    }
    let mut pieces = split_on(s, sep);
    assert(pieces@[0]@ == strings(pieces@)[0]);
    if pieces.len() >= 2 {
        assert(pieces@[1]@ == strings(pieces@)[1]);
        pieces.truncate(2);
        let second = pieces.pop().unwrap();
        let first = pieces.pop().unwrap();
        (first, Some(second))
    } else {
        let first = pieces.pop().unwrap();
        (first, None)
    }
}

/// The characters of `s`.
fn chars_of(s: &str) -> (chars: Vec<char>)
    ensures
        chars@ == s@,
{
    let mut chars: Vec<char> = Vec::new();
    for c in it: s.chars()
        invariant
            it.seq() == s@,
            chars@ == s@.take(it.index() as int),
    {
        chars.push(c);
    }
    chars
}

/// Removes every `c` that `s` begins or ends with.
pub fn trim_matches(s: &str, c: char) -> (trimmed: String)
    ensures
        trimmed@ == trim(s@, c),
{
    let chars = chars_of(s);
    let mut start: usize = 0;
    while start < chars.len() && chars[start] == c
        invariant
            start <= chars.len(),
            forall|j: int| 0 <= j < start ==> chars@[j] == c,
        decreases chars.len() - start,
    {
        start += 1;
    }
    let mut end: usize = chars.len();
    while end > start && chars[end - 1] == c
        invariant
            start <= end <= chars.len(),
            forall|j: int| end <= j < chars.len() ==> chars@[j] == c,
        decreases end,
    {
        end -= 1;
    }
    proof {
        lemma_trim_start(s@, c, start as int);
        let rest = s@.skip(start as int);
        assert forall|j: int| end - start <= j < rest.len() implies rest[j] == c by {
            assert(rest[j] == s@[j + start]);
        }
        if end > start {
            assert(rest[end - start - 1] == s@[end - 1]);
        }
        lemma_trim_end(rest, c, end - start);
        assert(rest.take(end - start) =~= s@.subrange(start as int, end as int));
    }
    let mut trimmed = String::new();
    let mut i: usize = start;
    while i < end
        invariant
            start <= i <= end <= chars.len(),
            trimmed@ == chars@.subrange(start as int, i as int),
        decreases end - i,
    {
        trimmed.push(chars[i]);
        assert(chars@.subrange(start as int, i + 1) =~= chars@.subrange(start as int, i as int).push(
            chars@[i as int],
        ));
        i += 1;
    }
    trimmed
}

} // verus!
