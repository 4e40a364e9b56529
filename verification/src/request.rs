//! What is logged and recorded of a request: its URI without secrets, and its
//! identifier.

use vstd::prelude::*;
use crate::id::{read_uuid, Uuid};
use crate::text::{
    before, join, join_all, pieces_are_free_of_the_separator, same, split, split_all, split_once,
    splitting_undoes_joining, texts,
};

verus! {

/// The header that carries a request's identifier.
pub const REQUEST_ID_HEADER: &'static str = "x-request-id";

/// The query parameter that carries a session's CSRF token. Its value never
/// reaches a log.
pub const CSRF_QUERY_PARAM: &'static str = "csrf";

/// A request URI: its path, its query without the question mark, and the whole
/// of it as received.
pub struct UriParts {
    pub path: String,
    pub query: Option<String>,
    pub text: String,
}

/// The name in a `key=value` pair, or a bare `key`.
pub open spec fn param_name(pair: Seq<char>) -> Seq<char> {
    before(pair, '=')
}

/// A query pair as it is logged.
pub open spec fn redacted_pair(pair: Seq<char>) -> Seq<char> {
    if param_name(pair) == "csrf"@ {
        "csrf=[redacted]"@
    } else {
        pair
    }
}

/// The pairs of a query as they are logged.
pub open spec fn redacted_pairs(query: Seq<char>) -> Seq<Seq<char>> {
    split(query, '&').map_values(|pair: Seq<char>| redacted_pair(pair))
}

/// Whether the query holds the token.
pub open spec fn is_tainted(query: Seq<char>) -> bool {
    exists|i: int|
        0 <= i < split(query, '&').len() && param_name(#[trigger] split(query, '&')[i]) == "csrf"@
}

impl UriParts {
    /// The URI as it is safe to log.
    pub open spec fn sanitized(self) -> Seq<char> {
        match self.query {
            Some(q) => if is_tainted(q@) {
                self.path@ + seq!['?'] + join(redacted_pairs(q@), '&')
            } else {
                self.text@
            },
            None => self.text@,
        }
    }
}

/// Whether a `key=value` (or bare `key`) query pair names `param`.
pub fn is_param(pair: &str, param: &str) -> (r: bool)
    ensures
        r == (param_name(pair@) == param@),
{
    match split_once(pair, '=') {
        Some((k, _)) => same(k, param),
        None => same(pair, param),
    }
}

/// The request URI as it is safe to log: unchanged unless its query holds the
/// token, else path and query with every value of the token replaced. The key
/// is kept, so the log still shows that the parameter was there.
pub fn sanitized_uri(uri: &UriParts) -> (r: String)
    ensures
        r@ == uri.sanitized(),
{
    let query: &String = match &uri.query {
        Some(q) => q,
        None => return uri.text.clone(),
    };
    let pairs: Vec<String> = split_all(query.as_str(), '&');
    let ghost pieces = split(query@, '&');
    let mut tainted: bool = false;
    let mut redacted: Vec<String> = Vec::new();
    let mut i: usize = 0;
    while i < pairs.len()
        invariant
            i <= pairs.len(),
            texts(pairs@) == pieces,
            pieces == split(query@, '&'),
            texts(redacted@) == redacted_pairs(query@).take(i as int),
            tainted == exists|k: int|
                0 <= k < i && param_name(#[trigger] pieces[k]) == "csrf"@,
        decreases pairs.len() - i,
    {
        let pair: &str = pairs[i].as_str();
        assert(pieces[i as int] == pair@);
        let ghost sofar = redacted@;
        if is_param(pair, CSRF_QUERY_PARAM) {
            tainted = true;
            redacted.push("csrf=[redacted]".to_owned());
        } else {
            redacted.push(pair.to_owned());
        }
        assert(redacted@.last()@ == redacted_pairs(query@)[i as int]);
        assert(texts(redacted@) == texts(sofar).push(redacted@.last()@));
        assert(texts(redacted@) == redacted_pairs(query@).take(i + 1));
        i = i + 1;
    }
    if !tainted {
        return uri.text.clone();
    }
    assert(texts(redacted@) == redacted_pairs(query@));
    let mut out: String = uri.path.clone();
    out.push('?');
    out.append(join_all(&redacted, '&').as_str());
    assert(out@ == uri.sanitized());
    out
}

proof fn lemma_redacted_pair_is_clean()
    ensures
        !"csrf=[redacted]"@.contains('&'),
        param_name("csrf=[redacted]"@) == "csrf"@,
{
    reveal_strlit("csrf=[redacted]");
    reveal_strlit("csrf");
    let s = "csrf=[redacted]"@;
    reveal_with_fuel(before, 6);
    assert(before(s, '=') == "csrf"@);
}

/// The query that is logged has the pairs that were sent, in their order, with
/// only the values of the token replaced. No value of the token is among them.
pub proof fn logged_query_keeps_all_but_the_token(query: Seq<char>)
    ensures
        split(join(redacted_pairs(query), '&'), '&') == redacted_pairs(query),
        redacted_pairs(query).len() == split(query, '&').len(),
        forall|i: int|
            #![trigger redacted_pairs(query)[i]]
            0 <= i < split(query, '&').len() ==> {
                let sent = split(query, '&')[i];
                let logged = redacted_pairs(query)[i];
                &&& param_name(logged) == param_name(sent)
                &&& param_name(sent) != "csrf"@ ==> logged == sent
                &&& param_name(sent) == "csrf"@ ==> logged == "csrf=[redacted]"@
            },
{
    pieces_are_free_of_the_separator(query, '&');
    lemma_redacted_pair_is_clean();
    let p = redacted_pairs(query);
    assert forall|i: int| 0 <= i < p.len() implies !(#[trigger] p[i]).contains('&') by {
        assert(p[i] == redacted_pair(split(query, '&')[i]));
    }
    splitting_undoes_joining(p, '&');
}

/// What is logged does not depend on the token: two requests that differ in
/// nothing but the token's values give the same line.
pub proof fn logged_uri_does_not_depend_on_the_token(a: UriParts, b: UriParts)
    requires
        a.path@ == b.path@,
        a.query is Some && b.query is Some,
        is_tainted(a.query->0@) && is_tainted(b.query->0@),
        split(a.query->0@, '&').len() == split(b.query->0@, '&').len(),
        forall|i: int|
            #![trigger split(a.query->0@, '&')[i]]
            0 <= i < split(a.query->0@, '&').len() ==> {
                let x = split(a.query->0@, '&')[i];
                let y = split(b.query->0@, '&')[i];
                x == y || (param_name(x) == "csrf"@ && param_name(y) == "csrf"@)
            },
    ensures
        a.sanitized() == b.sanitized(),
{
    assert(redacted_pairs(a.query->0@) == redacted_pairs(b.query->0@));
}

/// Sanitizing a line that was already sanitized changes nothing.
pub proof fn sanitizing_twice_is_sanitizing_once(query: Seq<char>)
    ensures
        redacted_pairs(join(redacted_pairs(query), '&')) == redacted_pairs(query),
{
    logged_query_keeps_all_but_the_token(query);
    lemma_redacted_pair_is_clean();
    let p = redacted_pairs(query);
    assert forall|i: int| 0 <= i < p.len() implies redacted_pair(#[trigger] p[i]) == p[i] by {}
    assert(redacted_pairs(join(p, '&')) == p);
}

/// Whether `r` is what [`request_id_or`] owes its caller.
pub open spec fn request_id_or_outcome(r: Uuid, header: Option<&str>, fresh: Uuid) -> bool {
    r == (match header {
        Some(h) => match read_uuid(h@) {
            Some(id) => id,
            None => fresh,
        },
        None => fresh,
    })
}

/// The identifier that a request is recorded under: the one its header gives,
/// else `fresh`.
pub fn request_id_or(header: Option<&str>, fresh: Uuid) -> (r: Uuid)
    ensures
        request_id_or_outcome(r, header, fresh),
{
    match header {
        Some(h) => match Uuid::parse_str(h) {
            Some(id) => id,
            None => fresh,
        },
        None => fresh,
    }
}

/// Whether `r` is what [`request_id_from_parts`] owes its caller.
pub open spec fn request_id_from_parts_outcome(r: Uuid, header: Option<&str>) -> bool {
    match header {
        Some(h) => match read_uuid(h@) {
            Some(id) => r == id,
            None => r.is_v7(),
        },
        None => r.is_v7(),
    }
}

/// The identifier of a request, from its [`REQUEST_ID_HEADER`] header. Falls
/// back to a new one where the header is absent or does not read as an
/// identifier, so that a request always has one.
pub fn request_id_from_parts(header: Option<&str>) -> (r: Uuid)
    ensures
        request_id_from_parts_outcome(r, header),
{
    request_id_or(header, Uuid::now_v7())
}

/// A request goes by the identifier that its header gives, and by a new one where
/// the header gives none.
pub proof fn a_request_keeps_its_identifier(r: Uuid, header: Option<&str>, fresh: Uuid)
    requires
        request_id_or_outcome(r, header, fresh),
    ensures
        forall|id: Uuid| header is Some && read_uuid(header->0@) == Some(id) ==> r == id,
        header is None || read_uuid(header->0@) is None ==> r == fresh,
{
}

/// A request goes by the identifier that its header gives, and by a time-ordered
/// one where the header gives none.
pub proof fn a_request_always_has_an_identifier(r: Uuid, header: Option<&str>)
    requires
        request_id_from_parts_outcome(r, header),
    ensures
        forall|id: Uuid| header is Some && read_uuid(header->0@) == Some(id) ==> r == id,
        header is None || read_uuid(header->0@) is None ==> r.is_v7(),
{
}

/// A URI without the token is logged as it was received.
pub proof fn a_uri_without_the_token_is_logged_as_it_is(uri: UriParts)
    requires
        uri.query is Some ==> forall|i: int|
            0 <= i < split(uri.query->0@, '&').len() ==> before(
                #[trigger] split(uri.query->0@, '&')[i],
                '=',
            ) != "csrf"@,
    ensures
        uri.sanitized() == uri.text@,
{
}

/// A URI with the token is logged by its path and its redacted query.
pub proof fn a_uri_with_the_token_keeps_its_path(uri: UriParts, i: int)
    requires
        uri.query is Some,
        0 <= i < split(uri.query->0@, '&').len(),
        before(split(uri.query->0@, '&')[i], '=') == "csrf"@,
    ensures
        uri.sanitized() == uri.path@ + seq!['?'] + join(redacted_pairs(uri.query->0@), '&'),
{
    assert(is_tainted(uri.query->0@));
}

} // verus!
