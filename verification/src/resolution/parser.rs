//! The grammar of a `did:cheqd` identifier:
//!
//! `did:cheqd:[<namespace>:]<id>[/<kind>/<value>][?<query>]`
//!
//! The functions named `*_of` say, for the text of an identifier, what each
//! part of it is; `parse` computes them.

use crate::error::{DidCheqdError, DidCheqdResult};
use crate::resolution::query::QueryMap;
use crate::text::{
    find_from, joined, lemma_position, lemma_position_unique, position, split_once, starts_with,
    str_eq, to_chars,
};
use vstd::prelude::*;
use vstd::string::{StrSliceExecFns, StringExecFns};

verus! {

/// The namespace of an identifier that names none.
pub const DEFAULT_NAMESPACE: &'static str = "mainnet";

/// A `did:cheqd` DID or DID URL, taken apart.
#[derive(Debug, PartialEq, Eq)]
pub struct DidCheqdParsed {
    /// The DID in canonical form, `did:cheqd:<namespace>:<id>`, without path or query.
    pub did: String,
    /// The namespace, `mainnet` where the input names none.
    pub namespace: String,
    /// The identifier within the namespace. It also names the collection of
    /// the DID's resources.
    pub id: String,
    /// The query parameters, with `resourceId` added where the path names a resource.
    pub query: Option<QueryMap>,
    /// The version asked for, by the `versionId` parameter or else by the path.
    pub version: Option<String>,
}

/// The ways in which a text fails to be an identifier of this method.
pub enum ParseFailure {
    MethodMismatch,
    MalformedPath,
    UnsupportedPathSegment,
}

/// The text with which every identifier of the method begins.
pub open spec fn method_prefix() -> Seq<char> {
    "did:cheqd:"@
}

/// What stands before the first `?` of `s`: the method, the namespace, the
/// identifier and the path.
pub open spec fn base_of(s: Seq<char>) -> Seq<char> {
    s.take(position(s, '?'))
}

/// What stands after the first `?` of `s`, where there is one.
pub open spec fn query_text_of(s: Seq<char>) -> Option<Seq<char>> {
    if s.contains('?') {
        Some(s.skip(position(s, '?') + 1))
    } else {
        None
    }
}

/// What stands between the method prefix and the query.
pub open spec fn method_specific_of(s: Seq<char>) -> Seq<char> {
    base_of(s).skip(method_prefix().len() as int)
}

/// What stands before the first `/` of the method-specific part: the
/// namespace, where one is given, and the identifier.
pub open spec fn id_part_of(s: Seq<char>) -> Seq<char> {
    let m = method_specific_of(s);
    m.take(position(m, '/'))
}

/// What stands after the first `/` of the method-specific part, where there is one.
pub open spec fn path_of(s: Seq<char>) -> Option<Seq<char>> {
    let m = method_specific_of(s);
    if m.contains('/') {
        Some(m.skip(position(m, '/') + 1))
    } else {
        None
    }
}

/// The namespace: what stands before the first `:` of the id part, or the
/// default where the id part has no `:`.
pub open spec fn namespace_of(s: Seq<char>) -> Seq<char> {
    let p = id_part_of(s);
    if p.contains(':') {
        p.take(position(p, ':'))
    } else {
        DEFAULT_NAMESPACE@
    }
}

/// The identifier: what stands after the first `:` of the id part, or all of
/// it where it has no `:`.
pub open spec fn id_of(s: Seq<char>) -> Seq<char> {
    let p = id_part_of(s);
    if p.contains(':') {
        p.skip(position(p, ':') + 1)
    } else {
        p
    }
}

/// The canonical DID: the method, the namespace and the identifier.
pub open spec fn canonical_did(namespace: Seq<char>, id: Seq<char>) -> Seq<char> {
    method_prefix() + namespace + ":"@ + id
}

/// The first segment of a path `<kind>/<value>`.
pub open spec fn path_kind(path: Seq<char>) -> Seq<char> {
    path.take(position(path, '/'))
}

/// The second segment of a path `<kind>/<value>`.
pub open spec fn path_value(path: Seq<char>) -> Seq<char> {
    path.skip(position(path, '/') + 1)
}

/// Whether `path` is two segments, neither of them empty.
pub open spec fn two_segments(path: Seq<char>) -> bool {
    &&& path.contains('/')
    &&& path_kind(path).len() > 0
    &&& path_value(path).len() > 0
    &&& !path_value(path).contains('/')
}

/// The parameter that one piece of a query gives: the name before its first
/// `=` and the value after it. A piece without `=` gives none.
pub open spec fn pair_of(piece: Seq<char>) -> Option<(Seq<char>, Seq<char>)> {
    if piece.contains('=') {
        Some((piece.take(position(piece, '=')), piece.skip(position(piece, '=') + 1)))
    } else {
        None
    }
}

/// `acc` with the parameter of `piece` put into it, where it gives one.
pub open spec fn with_piece(acc: Map<Seq<char>, Seq<char>>, piece: Seq<char>) -> Map<
    Seq<char>,
    Seq<char>,
> {
    match pair_of(piece) {
        Some((name, value)) => acc.insert(name, value),
        None => acc,
    }
}

/// `acc` with the parameters of `text` put into it, piece by piece from the
/// left; the pieces are what `&` separates. A later piece overrides an
/// earlier one of the same name.
pub open spec fn query_onto(acc: Map<Seq<char>, Seq<char>>, text: Seq<char>) -> Map<
    Seq<char>,
    Seq<char>,
>
    decreases text.len(),
{
    let end = position(text, '&');
    let next = with_piece(acc, text.take(end));
    if 0 <= end < text.len() {
        query_onto(next, text.skip(end + 1))
    } else {
        next
    }
}

/// The parameters that the text of a query gives.
pub open spec fn query_map(text: Seq<char>) -> Map<Seq<char>, Seq<char>> {
    query_onto(Map::empty(), text)
}

/// The parameters of the identifier: those of its query, and `resourceId`
/// with the value of the path where the path names a resource.
pub open spec fn query_of(s: Seq<char>) -> Option<Map<Seq<char>, Seq<char>>> {
    let given = match query_text_of(s) {
        Some(text) => Some(query_map(text)),
        None => None,
    };
    match path_of(s) {
        Some(path) if path_kind(path) == "resources"@ => Some(
            (match given {
                Some(m) => m,
                None => Map::empty(),
            }).insert("resourceId"@, path_value(path)),
        ),
        _ => given,
    }
}

/// The version of the identifier: the `versionId` parameter where there is
/// one, else the value of the path where the path names a version.
pub open spec fn version_of(s: Seq<char>) -> Option<Seq<char>> {
    match query_of(s) {
        Some(m) if m.contains_key("versionId"@) => Some(m["versionId"@]),
        _ => match path_of(s) {
            Some(path) if path_kind(path) == "versions"@ => Some(path_value(path)),
            _ => None,
        },
    }
}

/// Why `s` is not an identifier of the method, or `None` where it is one.
pub open spec fn failure_of(s: Seq<char>) -> Option<ParseFailure> {
    if !method_prefix().is_prefix_of(s) {
        Some(ParseFailure::MethodMismatch)
    } else {
        match path_of(s) {
            None => None,
            Some(path) => if !two_segments(path) {
                Some(ParseFailure::MalformedPath)
            } else if path_kind(path) != "resources"@ && path_kind(path) != "versions"@ {
                Some(ParseFailure::UnsupportedPathSegment)
            } else {
                None
            },
        }
    }
}

/// The text of an optional string.
pub open spec fn text_of(s: Option<String>) -> Option<Seq<char>> {
    match s {
        Some(s) => Some(s@),
        None => None,
    }
}

/// The mapping of an optional query.
pub open spec fn map_of(q: Option<QueryMap>) -> Option<Map<Seq<char>, Seq<char>>> {
    match q {
        Some(q) => Some(q@),
        None => None,
    }
}

impl DidCheqdParsed {
    /// Whether these are the parts of the identifier `s`.
    pub open spec fn is_parse_of(&self, s: Seq<char>) -> bool {
        &&& self.namespace@ == namespace_of(s)
        &&& self.id@ == id_of(s)
        &&& self.did@ == canonical_did(namespace_of(s), id_of(s))
        &&& map_of(self.query) == query_of(s)
        &&& text_of(self.version) == version_of(s)
    }
}

impl DidCheqdError {
    /// Whether this is the error with which `parse` refuses `s` for the reason `why`.
    pub open spec fn reports(&self, why: ParseFailure, s: Seq<char>) -> bool {
        match why {
            ParseFailure::MethodMismatch => self matches DidCheqdError::MethodMismatch(d) && d@
                == "not a did:cheqd string: "@ + s,
            ParseFailure::MalformedPath => self matches DidCheqdError::MalformedPath(d) && d@
                == "unsupported path format; expected /resources/<id> or /versions/<id>"@,
            ParseFailure::UnsupportedPathSegment => self matches DidCheqdError::UnsupportedPathSegment(
                d,
            ) && d@
                == "unsupported path segment; only `resources` and `versions` are accepted"@,
        }
    }
}

/// The parser of `did:cheqd` identifiers.
pub struct DidCheqdParser;

impl DidCheqdParser {
    /// Takes a DID or DID URL apart.
    ///
    /// Accepted are `did:cheqd:<namespace>:<id>` with the namespace and its
    /// colon optional, then optionally `/resources/<value>` or
    /// `/versions/<value>`, then optionally `?` and a query.
    pub fn parse(input: &str) -> (parsed: DidCheqdResult<DidCheqdParsed>)
        ensures
            parsed is Ok <==> failure_of(input@) is None,
            parsed matches Ok(p) ==> p.is_parse_of(input@),
            parsed matches Err(e) ==> e.reports(failure_of(input@)->0, input@),
    {
        if !starts_with(input, "did:cheqd:") {
            return Err(
                DidCheqdError::MethodMismatch(joined("not a did:cheqd string: ", input)),
            );
        }
        let (base, query_text) = match split_once(input, '?') {
            Some((before, after)) => (before, Some(after)),
            None => (input, None),
        };
        proof {
            lemma_position(input@, '?');
            assert(base@ == base_of(input@)) by {
                assert(input@.take(input@.len() as int) =~= input@);
            }
            lemma_prefix_has_no_mark(input@);
        }
        let rest = base.substring_char(10, base.unicode_len());
        assert(rest@ == method_specific_of(input@));
        let (id_part, path) = match split_once(rest, '/') {
            Some((before, after)) => (before, Some(after)),
            None => (rest, None),
        };
        proof {
            lemma_position(rest@, '/');
            assert(id_part@ == id_part_of(input@)) by {
                assert(rest@.take(rest@.len() as int) =~= rest@);
            }
        }
        let (namespace, id) = match split_once(id_part, ':') {
            Some((before, after)) => (String::from_str(before), String::from_str(after)),
            None => (String::from_str(DEFAULT_NAMESPACE), String::from_str(id_part)),
        };
        let mut query = match query_text {
            Some(text) => Some(parse_query_string(text)),
            None => None,
        };
        let mut version: Option<String> = None;
        if let Some(path) = path {
            let (kind, value) = match path_segments(path) {
                Some(segments) => segments,
                None => {
                    return Err(
                        DidCheqdError::MalformedPath(
                            String::from_str(
                                "unsupported path format; expected /resources/<id> or /versions/<id>",
                            ),
                        ),
                    );
                },
            };
            if str_eq(kind, "resources") {
                proof {
                    reveal_strlit("resources");
                    reveal_strlit("versions");
                }
                let mut map = match query {
                    Some(map) => map,
                    None => QueryMap::new(),
                };
                map.insert(String::from_str("resourceId"), String::from_str(value));
                query = Some(map);
            } else if str_eq(kind, "versions") {
                version = Some(String::from_str(value));
            } else {
                return Err(
                    DidCheqdError::UnsupportedPathSegment(
                        String::from_str(
                            "unsupported path segment; only `resources` and `versions` are accepted",
                        ),
                    ),
                );
            }
        }
        if let Some(map) = &query {
            if let Some(v) = map.get("versionId") {
                version = Some(v.clone());
            }
        }
        let mut did = joined("did:cheqd:", namespace.as_str());
        did.append(":");
        did.append(id.as_str());
        Ok(DidCheqdParsed { did, namespace, id, query, version })
    }
}

/// The method prefix holds no `?`, so a text that begins with it has the
/// whole prefix before any query.
proof fn lemma_prefix_has_no_mark(s: Seq<char>)
    requires
        method_prefix().is_prefix_of(s),
    ensures
        method_prefix().len() == 10,
        position(s, '?') >= 10,
{
    reveal_strlit("did:cheqd:");
    lemma_position(s, '?');
    let p = position(s, '?');
    if p < 10 {
        assert(s[p] == method_prefix()[p]);
    }
}

/// The two segments of `path`, where it has two and neither is empty.
fn path_segments(path: &str) -> (segments: Option<(&str, &str)>)
    ensures
        segments is Some <==> two_segments(path@),
        segments matches Some((kind, value)) ==> kind@ == path_kind(path@) && value@ == path_value(
            path@,
        ),
{
    match split_once(path, '/') {
        Some((kind, value)) => {
            if kind.unicode_len() == 0 || value.unicode_len() == 0 || split_once(
                value,
                '/',
            ).is_some() {
                None
            } else {
                Some((kind, value))
            }
        },
        None => None,
    }
}

/// The parameters that the text of a query gives: for each piece between
/// `&`s that holds a `=`, the name before the first `=` with the value after
/// it. Of two pieces with one name the later counts.
pub fn parse_query_string(q: &str) -> (query: QueryMap)
    ensures
        query@ == query_map(q@),
{
    let chars = to_chars(q);
    let n = chars.len();
    let mut query = QueryMap::new();
    let mut start: usize = 0;
    assert(q@.skip(0) =~= q@);
    loop
        invariant_except_break
            query_map(q@) == query_onto(query@, q@.skip(start as int)),
        invariant
            start <= n,
            n == chars.len(),
            chars@ == q@,
        ensures
            query@ == query_map(q@),
        decreases n - start,
    {
        let ghost text = q@.skip(start as int);
        let ghost acc = query@;
        let end = find_from(&chars, start, '&');
        let eq = find_from(&chars, start, '=');
        let ghost piece = text.take(end - start);
        proof {
            lemma_position(text, '&');
            lemma_position(text, '=');
            lemma_position(piece, '=');
            if eq < end {
                lemma_position_unique(piece, '=', eq - start);
            } else {
                if piece.contains('=') {
                    let k = position(piece, '=');
                    assert(piece[k] == text[k]);
                }
            }
        }
        if eq < end {
            let name = String::from_str(q.substring_char(start, eq));
            let value = String::from_str(q.substring_char(eq + 1, end));
            proof {
                assert(name@ =~= piece.take(eq - start));
                assert(value@ =~= piece.skip(eq - start + 1));
            }
            query.insert(name, value);
        }
        if end >= n {
            break;
        }
        proof {
            assert(text.skip(end - start + 1) =~= q@.skip(end + 1));
        }
        start = end + 1;
    }
    query
}

} // verus!
