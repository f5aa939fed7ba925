//! What holds of every identifier: how a text that is put together from its
//! parts is taken apart again.

use crate::resolution::parser::{
    base_of, canonical_did, failure_of, id_of, id_part_of, method_prefix, method_specific_of,
    namespace_of, pair_of, path_kind, path_of, path_value, query_map, query_of, query_onto,
    query_text_of, two_segments, version_of, with_piece, ParseFailure, DEFAULT_NAMESPACE,
};
use crate::text::{
    lemma_contains_in_concat, lemma_joined_without, lemma_position, lemma_position_of_separator,
    lemma_position_unique, lemma_position_without, position,
};
use vstd::prelude::*;

verus! {

/// `/` and then `path`, where there is a path.
pub open spec fn path_suffix(path: Option<Seq<char>>) -> Seq<char> {
    match path {
        Some(path) => seq!['/'] + path,
        None => Seq::empty(),
    }
}

/// `?` and then `query`, where there is a query.
pub open spec fn query_suffix(query: Option<Seq<char>>) -> Seq<char> {
    match query {
        Some(query) => seq!['?'] + query,
        None => Seq::empty(),
    }
}

/// The identifier with the given parts: the method, then namespace and
/// identifier, then the path and the query where there are any.
pub open spec fn assembled(
    id_part: Seq<char>,
    path: Option<Seq<char>>,
    query: Option<Seq<char>>,
) -> Seq<char> {
    method_prefix() + id_part + path_suffix(path) + query_suffix(query)
}

/// Whether `s` holds neither `/` nor `?`.
pub open spec fn plain(s: Seq<char>) -> bool {
    !s.contains('/') && !s.contains('?')
}

/// The method prefix holds none of the characters that separate the parts
/// after it.
proof fn lemma_prefix_is_plain()
    ensures
        method_prefix().len() == 10,
        !method_prefix().contains('?'),
        !method_prefix().contains('/'),
{
    reveal_strlit("did:cheqd:");
    let p = method_prefix();
    if p.contains('?') {
        let i = p.index_of('?');
        assert(p[i] != '?');
    }
    if p.contains('/') {
        let i = p.index_of('/');
        assert(p[i] != '/');
    }
}

/// The two kinds of path are not empty, hold neither `/` nor `?`, and are
/// not the same.
proof fn lemma_kinds_are_plain()
    ensures
        plain("resources"@),
        plain("versions"@),
        "resources"@.len() > 0,
        "versions"@.len() > 0,
        "resources"@ != "versions"@,
{
    reveal_strlit("resources");
    reveal_strlit("versions");
    let r = "resources"@;
    let v = "versions"@;
    if r.contains('/') {
        assert(r[r.index_of('/')] != '/');
    }
    if r.contains('?') {
        assert(r[r.index_of('?')] != '?');
    }
    if v.contains('/') {
        assert(v[v.index_of('/')] != '/');
    }
    if v.contains('?') {
        assert(v[v.index_of('?')] != '?');
    }
    assert(r.len() != v.len());
}

/// An identifier is taken apart into the parts from which it was put
/// together: the part with namespace and identifier, the path and the text of
/// the query. This holds where that first part holds neither `/` nor `?`, and
/// the path no `?`.
pub proof fn lemma_parts_of_assembled(
    id_part: Seq<char>,
    path: Option<Seq<char>>,
    query: Option<Seq<char>>,
)
    requires
        plain(id_part),
        path matches Some(p) ==> !p.contains('?'),
    ensures
        method_prefix().is_prefix_of(assembled(id_part, path, query)),
        id_part_of(assembled(id_part, path, query)) == id_part,
        path_of(assembled(id_part, path, query)) == path,
        query_text_of(assembled(id_part, path, query)) == query,
{
    lemma_prefix_is_plain();
    let s = assembled(id_part, path, query);
    let prefix = method_prefix();
    let base = prefix + id_part + path_suffix(path);
    assert(!base.contains('?')) by {
        lemma_contains_in_concat(prefix, id_part, '?');
        match path {
            Some(p) => {
                lemma_joined_without(prefix + id_part, '/', p, '?');
                assert(base =~= prefix + id_part + seq!['/'] + p);
            },
            None => {
                assert(base =~= prefix + id_part);
            },
        }
    }
    match query {
        Some(q) => {
            assert(s =~= base + seq!['?'] + q);
            lemma_position_of_separator(base, '?', q);
        },
        None => {
            assert(s =~= base);
            lemma_position_without(base, '?');
        },
    }
    assert(base_of(s) == base);
    assert(prefix =~= s.subrange(0, 10));
    let m = method_specific_of(s);
    assert(m =~= id_part + path_suffix(path));
    match path {
        Some(p) => {
            assert(m =~= id_part + seq!['/'] + p);
            lemma_position_of_separator(id_part, '/', p);
        },
        None => {
            assert(m =~= id_part);
            lemma_position_without(id_part, '/');
        },
    }
}

/// A path of a kind, `/` and a value has these two as its segments. Neither
/// is empty, and neither holds a `/`.
pub proof fn lemma_segments_of_path(kind: Seq<char>, value: Seq<char>)
    requires
        kind.len() > 0,
        value.len() > 0,
        !kind.contains('/'),
        !value.contains('/'),
    ensures
        two_segments(kind + seq!['/'] + value),
        path_kind(kind + seq!['/'] + value) == kind,
        path_value(kind + seq!['/'] + value) == value,
{
    lemma_position_of_separator(kind, '/', value);
}

/// An identifier that names a namespace has that namespace, and its
/// canonical form is the identifier itself: `did:cheqd:<ns>:<id>` is taken
/// apart into `ns` and `id`. This holds for every `ns` without `:`, `/` and
/// `?` and every `id` without `/` and `?`.
pub proof fn lemma_namespace_as_given(ns: Seq<char>, id: Seq<char>)
    requires
        !ns.contains(':'),
        plain(ns),
        plain(id),
    ensures
        failure_of(method_prefix() + ns + seq![':'] + id) is None,
        namespace_of(method_prefix() + ns + seq![':'] + id) == ns,
        id_of(method_prefix() + ns + seq![':'] + id) == id,
        canonical_did(ns, id) == method_prefix() + ns + seq![':'] + id,
        query_of(method_prefix() + ns + seq![':'] + id) is None,
        version_of(method_prefix() + ns + seq![':'] + id) is None,
{
    let id_part = ns + seq![':'] + id;
    let s = method_prefix() + ns + seq![':'] + id;
    lemma_joined_without(ns, ':', id, '/');
    lemma_joined_without(ns, ':', id, '?');
    assert(s =~= assembled(id_part, None, None));
    lemma_parts_of_assembled(id_part, None, None);
    lemma_position_of_separator(ns, ':', id);
    reveal_strlit(":");
    assert(":"@ =~= seq![':']);
}

/// An identifier that names no namespace has the default one:
/// `did:cheqd:<id>` is taken apart into `mainnet` and `id`. This holds for
/// every `id` without `:`, `/` and `?`.
pub proof fn lemma_namespace_by_default(id: Seq<char>)
    requires
        !id.contains(':'),
        plain(id),
    ensures
        failure_of(method_prefix() + id) is None,
        namespace_of(method_prefix() + id) == DEFAULT_NAMESPACE@,
        id_of(method_prefix() + id) == id,
{
    assert(method_prefix() + id =~= assembled(id, None, None));
    lemma_parts_of_assembled(id, None, None);
}

/// A path `/resources/<r>` puts `r` into the query as `resourceId`, and
/// gives no version: the parameters of `did:cheqd:<id_part>/resources/<r>`
/// are `resourceId` alone.
pub proof fn lemma_resource_path(id_part: Seq<char>, r: Seq<char>)
    requires
        plain(id_part),
        plain(r),
        r.len() > 0,
    ensures
        failure_of(assembled(id_part, Some("resources"@ + seq!['/'] + r), None)) is None,
        query_of(assembled(id_part, Some("resources"@ + seq!['/'] + r), None)) == Some(
            Map::<Seq<char>, Seq<char>>::empty().insert("resourceId"@, r),
        ),
        version_of(assembled(id_part, Some("resources"@ + seq!['/'] + r), None)) is None,
{
    reveal_strlit("resourceId");
    reveal_strlit("versionId");
    let kind = "resources"@;
    let path = kind + seq!['/'] + r;
    lemma_kinds_are_plain();
    lemma_joined_without(kind, '/', r, '?');
    lemma_parts_of_assembled(id_part, Some(path), None);
    lemma_segments_of_path(kind, r);
    assert("resourceId"@ != "versionId"@) by {
        assert("resourceId"@.len() != "versionId"@.len());
    }
}

/// A path `/versions/<v>` gives the version `v` and puts nothing into the
/// query: `did:cheqd:<id_part>/versions/<v>` has the version `v` and no
/// parameters.
pub proof fn lemma_version_path(id_part: Seq<char>, v: Seq<char>)
    requires
        plain(id_part),
        plain(v),
        v.len() > 0,
    ensures
        failure_of(assembled(id_part, Some("versions"@ + seq!['/'] + v), None)) is None,
        version_of(assembled(id_part, Some("versions"@ + seq!['/'] + v), None)) == Some(v),
        query_of(assembled(id_part, Some("versions"@ + seq!['/'] + v), None)) is None,
{
    let kind = "versions"@;
    let path = kind + seq!['/'] + v;
    lemma_kinds_are_plain();
    lemma_joined_without(kind, '/', v, '?');
    lemma_parts_of_assembled(id_part, Some(path), None);
    lemma_segments_of_path(kind, v);
}

/// A query of the one piece `<name>=<value>` gives the one parameter `name`
/// with the value `value`. This holds where `name` holds neither `=` nor `&`
/// and `value` no `&`.
pub proof fn lemma_query_of_one_pair(name: Seq<char>, value: Seq<char>)
    requires
        !name.contains('='),
        !name.contains('&'),
        !value.contains('&'),
    ensures
        query_map(name + seq!['='] + value) == Map::<Seq<char>, Seq<char>>::empty().insert(
            name,
            value,
        ),
{
    let text = name + seq!['='] + value;
    lemma_joined_without(name, '=', value, '&');
    lemma_position_without(text, '&');
    lemma_position_of_separator(name, '=', value);
    assert(pair_of(text) == Some((name, value)));
}

/// A piece that is added to a query is put in after the pieces before it.
pub proof fn lemma_query_onto_appended(
    acc: Map<Seq<char>, Seq<char>>,
    text: Seq<char>,
    piece: Seq<char>,
)
    requires
        !piece.contains('&'),
    ensures
        query_onto(acc, text + seq!['&'] + piece) == with_piece(query_onto(acc, text), piece),
    decreases text.len(),
{
    let full = text + seq!['&'] + piece;
    let end = position(text, '&');
    lemma_position(text, '&');
    lemma_position_without(piece, '&');
    if end < text.len() {
        let rest = text.skip(end + 1);
        assert(full[end] == '&');
        assert forall|j: int| 0 <= j < end implies full[j] != '&' by {
            assert(full[j] == text[j]);
        }
        lemma_position_unique(full, '&', end);
        assert(full.take(end) =~= text.take(end));
        assert(full.skip(end + 1) =~= rest + seq!['&'] + piece);
        let next = with_piece(acc, text.take(end));
        lemma_query_onto_appended(next, rest, piece);
        assert(query_onto(acc, text) == query_onto(next, rest));
        assert(query_onto(acc, full) == query_onto(next, rest + seq!['&'] + piece));
    } else {
        lemma_position_of_separator(text, '&', piece);
        assert(text.take(end) =~= text);
        let next = with_piece(acc, text);
        assert(query_onto(acc, text) == next);
        assert(query_onto(acc, full) == query_onto(next, piece));
        assert(query_onto(next, piece) == with_piece(next, piece));
    }
}

/// Of two pieces of a query with one name the later counts: a piece
/// `<name>=<value>` that is added to a query gives `name` the value `value`,
/// whatever the query gave it before, and leaves the other parameters as
/// they were.
pub proof fn lemma_last_occurrence_wins(text: Seq<char>, name: Seq<char>, value: Seq<char>)
    requires
        !name.contains('='),
        !name.contains('&'),
        !value.contains('&'),
    ensures
        query_map(text + seq!['&'] + (name + seq!['='] + value)) == query_map(text).insert(
            name,
            value,
        ),
{
    let piece = name + seq!['='] + value;
    lemma_joined_without(name, '=', value, '&');
    lemma_position_of_separator(name, '=', value);
    lemma_query_onto_appended(Map::empty(), text, piece);
}

/// The `versionId` of the query overrides the version of the path:
/// `did:cheqd:<id_part>/versions/<v1>?versionId=<v2>` has the version `v2`.
pub proof fn lemma_query_overrides_path(id_part: Seq<char>, v1: Seq<char>, v2: Seq<char>)
    requires
        plain(id_part),
        plain(v1),
        v1.len() > 0,
        !v2.contains('&'),
    ensures
        failure_of(
            assembled(
                id_part,
                Some("versions"@ + seq!['/'] + v1),
                Some("versionId"@ + seq!['='] + v2),
            ),
        ) is None,
        version_of(
            assembled(
                id_part,
                Some("versions"@ + seq!['/'] + v1),
                Some("versionId"@ + seq!['='] + v2),
            ),
        ) == Some(v2),
{
    reveal_strlit("versionId");
    let kind = "versions"@;
    let path = kind + seq!['/'] + v1;
    let name = "versionId"@;
    let text = name + seq!['='] + v2;
    lemma_kinds_are_plain();
    lemma_joined_without(kind, '/', v1, '?');
    assert(!name.contains('=') && !name.contains('&')) by {
        if name.contains('=') {
            let i = name.index_of('=');
            assert(name[i] != '=');
        }
        if name.contains('&') {
            let i = name.index_of('&');
            assert(name[i] != '&');
        }
    }
    lemma_parts_of_assembled(id_part, Some(path), Some(text));
    lemma_segments_of_path(kind, v1);
    lemma_query_of_one_pair(name, v2);
}

/// A path of two segments whose first is neither `resources` nor `versions`
/// is refused as an unsupported path segment, whatever the rest of the
/// identifier.
pub proof fn lemma_unsupported_kind(
    id_part: Seq<char>,
    kind: Seq<char>,
    value: Seq<char>,
    query: Option<Seq<char>>,
)
    requires
        plain(id_part),
        plain(kind),
        plain(value),
        kind.len() > 0,
        value.len() > 0,
        kind != "resources"@,
        kind != "versions"@,
    ensures
        failure_of(assembled(id_part, Some(kind + seq!['/'] + value), query)) == Some(
            ParseFailure::UnsupportedPathSegment,
        ),
{
    let path = kind + seq!['/'] + value;
    lemma_joined_without(kind, '/', value, '?');
    lemma_parts_of_assembled(id_part, Some(path), query);
    lemma_segments_of_path(kind, value);
}

/// A path that is not two segments is refused as malformed, whatever its
/// first segment and whatever the rest of the identifier: a path of one
/// segment, a path with an empty segment, and a path of two segments with
/// more after them.
pub proof fn lemma_malformed_path(id_part: Seq<char>, path: Seq<char>, query: Option<Seq<char>>)
    requires
        plain(id_part),
        !path.contains('?'),
        !two_segments(path),
    ensures
        failure_of(assembled(id_part, Some(path), query)) == Some(ParseFailure::MalformedPath),
{
    lemma_parts_of_assembled(id_part, Some(path), query);
}

/// A path with more than one `/` is not two segments, and neither is one
/// without any.
pub proof fn lemma_not_two_segments(a: Seq<char>, b: Seq<char>, c: Seq<char>)
    requires
        !a.contains('/'),
    ensures
        !two_segments(a),
        !two_segments(a + seq!['/'] + b + seq!['/'] + c),
        !two_segments(a + seq!['/']),
        !two_segments(seq!['/'] + b),
{
    let three = a + seq!['/'] + b + seq!['/'] + c;
    assert(three =~= a + seq!['/'] + (b + seq!['/'] + c));
    lemma_position_of_separator(a, '/', b + seq!['/'] + c);
    assert((b + seq!['/'] + c)[b.len() as int] == '/');
    assert(a + seq!['/'] =~= a + seq!['/'] + Seq::<char>::empty());
    lemma_position_of_separator(a, '/', Seq::<char>::empty());
    assert(seq!['/'] + b =~= Seq::<char>::empty() + seq!['/'] + b);
    lemma_position_of_separator(Seq::<char>::empty(), '/', b);
}

/// A text that does not begin with the method prefix is refused as being of
/// another method.
pub proof fn lemma_method_mismatch(s: Seq<char>)
    requires
        !method_prefix().is_prefix_of(s),
    ensures
        failure_of(s) == Some(ParseFailure::MethodMismatch),
{
}

} // verus!
