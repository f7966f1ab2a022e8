//! Links that log a person in: a login token travels in the `autologin` query
//! parameter, which is taken out again before the page is shown.
use vstd::prelude::*;
use url::Url;
use crate::text::push_str;
use crate::clock::Timestamp;
use crate::tokens::{is_drawn_reusable_token, LoginToken, LoginTokenType};
use crate::users::UserId;

verus! {

/// The query parameter that carries a login token.
pub open spec fn autologin_param() -> Seq<char> {
    "autologin"@
}

/// The texts of name and value pairs.
pub open spec fn pairs_view(pairs: Seq<(String, String)>) -> Seq<(Seq<char>, Seq<char>)> {
    pairs.map_values(|p: (String, String)| (p.0@, p.1@))
}

/// The path and the decoded query pairs of an absolute path such as `/a/b?c=d`, as
/// the `url` crate reads them; nothing where it cannot be read.
pub uninterp spec fn origin_parts_of(uri: Seq<char>) -> Option<(Seq<char>, Seq<(Seq<char>, Seq<char>)>)>;

/// Name and value pairs encoded as the query of a URL, as the `url` crate writes them.
pub uninterp spec fn encoded_query_of(pairs: Seq<(Seq<char>, Seq<char>)>) -> Seq<char>;

/// A URL with one more query pair, as the `url` crate writes it; nothing where the
/// URL cannot be read.
pub uninterp spec fn with_query_pair_of(url: Seq<char>, name: Seq<char>, value: Seq<char>) -> Option<Seq<char>>;

/// Calls `Url::parse` on the path behind a fixed origin, then `Url::path` and
/// `Url::query_pairs`. Claimed: the result depends on the path alone.
#[verifier::external_body]
fn origin_parts(uri: &str) -> (parts: Option<(String, Vec<(String, String)>)>)
    ensures
        match parts {
            Some(p) => origin_parts_of(uri@) == Some((p.0@, pairs_view(p.1@))),
            None => origin_parts_of(uri@) is None,
        },
{
    match Url::parse(&format!("http://example.com{uri}")) {
        Ok(url) => Some((url.path().to_owned(), url.query_pairs().map(|(n, v)| (n.into_owned(), v.into_owned())).collect())),
        Err(_) => None,
    }
}

/// Calls `Url::query_pairs_mut`, `Serializer::extend_pairs` and `Url::query` on a
/// fixed URL without a query. Claimed: the result depends on the pairs alone, and it
/// is empty exactly where there are no pairs (each pair is written with a `=`).
#[verifier::external_body]
fn encode_query(pairs: &[(String, String)]) -> (query: String)
    ensures
        query@ == encoded_query_of(pairs_view(pairs@)),
        query@.len() == 0 <==> pairs@.len() == 0,
{
    let mut url = Url::parse("http://example.com/").unwrap();
    url.query_pairs_mut().extend_pairs(pairs);
    url.query().unwrap_or_default().to_owned()
}

/// Calls `Url::parse`, `Serializer::append_pair` and `Url::to_string`. Claimed: the
/// result depends on the arguments alone, and whether there is one depends on the URL
/// alone, since only `Url::parse` can fail.
#[verifier::external_body]
fn append_query_pair(url: &str, name: &str, value: &str) -> (appended: Option<String>)
    ensures
        match appended {
            Some(a) => with_query_pair_of(url@, name@, value@) == Some(a@),
            None => with_query_pair_of(url@, name@, value@) is None,
        },
        forall|n: Seq<char>, v: Seq<char>| (#[trigger] with_query_pair_of(url@, n, v)) is Some <==> appended is Some,
{
    match Url::parse(url) {
        Ok(mut parsed) => {
            parsed.query_pairs_mut().append_pair(name, value);
            Some(parsed.to_string())
        },
        Err(_) => None,
    }
}

/// A link to `uri` that logs the holder of `token` in; nothing where `uri` is not a URL.
pub fn with_autologin_token(uri: &str, token: &LoginToken) -> (link: Option<String>)
    ensures
        match link {
            Some(l) => with_query_pair_of(uri@, autologin_param(), token.token@) == Some(l@),
            None => with_query_pair_of(uri@, autologin_param(), token.token@) is None,
        },
        link is Some <==> takes_token(uri@),
{
    proof {
        reveal_strlit("autologin");
    }
    let link = append_query_pair(uri, "autologin", token.token.as_str());
    assert(with_query_pair_of(uri@, autologin_param(), Seq::empty()) is Some <==> link is Some);
    link
}

/// `uri` is a URL that a login token can be added to.
pub open spec fn takes_token(uri: Seq<char>) -> bool {
    with_query_pair_of(uri, autologin_param(), Seq::empty()) is Some
}

/// A fresh reusable token for `user` valid until `valid_until`, and the link to `uri`
/// that carries it; nothing where `uri` is not a URL.
pub fn autologin_link(uri: &str, user: UserId, valid_until: Timestamp) -> (made: Option<(LoginToken, String)>)
    ensures
        made is Some <==> takes_token(uri@),
        made matches Some(m) ==> {
            &&& m.0.type_ == LoginTokenType::Reusable
            &&& is_drawn_reusable_token(m.0.token@)
            &&& m.0.user_id == user
            &&& m.0.valid_until == valid_until
            &&& with_query_pair_of(uri@, autologin_param(), m.0.token@) == Some(m.1@)
        },
{
    let token = LoginToken::generate_reusable(user, valid_until);
    match with_autologin_token(uri, &token) {
        Some(link) => Some((token, link)),
        None => None,
    }
}

/// The query pairs other than the login token, in order.
pub open spec fn without_token(pairs: Seq<(Seq<char>, Seq<char>)>) -> Seq<(Seq<char>, Seq<char>)> {
    pairs.filter(|p: (Seq<char>, Seq<char>)| p.0 != autologin_param())
}

/// Taking the login token out leaves no pair named `autologin`, and keeps every other
/// pair.
pub proof fn lemma_token_removed(pairs: Seq<(Seq<char>, Seq<char>)>)
    ensures
        forall|k: int| 0 <= k < without_token(pairs).len() ==> (#[trigger] without_token(pairs)[k]).0 != autologin_param(),
        forall|k: int| 0 <= k < pairs.len() && (#[trigger] pairs[k]).0 != autologin_param()
            ==> without_token(pairs).contains(pairs[k]),
{
    broadcast use vstd::seq_lib::group_filter_ensures;
    let pred = |p: (Seq<char>, Seq<char>)| p.0 != autologin_param();
    assert forall|k: int| 0 <= k < without_token(pairs).len() implies (#[trigger] without_token(pairs)[k]).0 != autologin_param() by {
        assert(pred(pairs.filter(pred)[k]));
    }
    assert forall|k: int| 0 <= k < pairs.len() && (#[trigger] pairs[k]).0 != autologin_param()
        implies without_token(pairs).contains(pairs[k]) by {
        assert(pred(pairs[k]));
        assert(pairs.filter(pred).contains(pairs[k]));
    }
}

/// A path with the given query, or without a query where it is empty.
pub open spec fn path_with_query(path: Seq<char>, query: Seq<char>) -> Seq<char> {
    if query.len() > 0 {
        path + "?"@ + query
    } else {
        path
    }
}

/// The query pairs other than the login token, in order.
pub fn pairs_without_token(pairs: &[(String, String)]) -> (kept: Vec<(String, String)>)
    ensures
        pairs_view(kept@) == without_token(pairs_view(pairs@)),
{
    proof {
        reveal_strlit("autologin");
    }
    let ghost pred = |p: (Seq<char>, Seq<char>)| p.0 != autologin_param();
    let mut kept: Vec<(String, String)> = Vec::new();
    let mut i: usize = 0;
    while i < pairs.len()
        invariant
            i <= pairs@.len(),
            pred == (|p: (Seq<char>, Seq<char>)| p.0 != autologin_param()),
            pairs_view(kept@) == pairs_view(pairs@).take(i as int).filter(pred),
        decreases pairs@.len() - i,
    {
        assert(pairs_view(pairs@).take(i + 1) =~= pairs_view(pairs@).take(i as int).push(pairs_view(pairs@)[i as int]));
        proof {
            pairs_view(pairs@).take(i as int).lemma_filter_push(pairs_view(pairs@)[i as int], pred);
        }
        let name = pairs[i].0.as_str();
        if !crate::text::str_eq(name, "autologin") {
            let ghost before = kept@;
            kept.push((pairs[i].0.clone(), pairs[i].1.clone()));
            assert(pairs_view(kept@) =~= pairs_view(before).push(pairs_view(pairs@)[i as int]));
        }
        i = i + 1;
    }
    assert(pairs_view(pairs@).take(i as int) =~= pairs_view(pairs@));
    kept
}

/// The path with the query pairs other than the login token, where there are any.
pub fn strip_token(path: String, pairs: &[(String, String)]) -> (stripped: String)
    ensures
        stripped@ == path_with_query(path@, encoded_query_of(without_token(pairs_view(pairs@)))),
        stripped@ == path@ <==> without_token(pairs_view(pairs@)).len() == 0,
{
    proof {
        reveal_strlit("?");
    }
    let kept = pairs_without_token(pairs);
    let query = encode_query(kept.as_slice());
    assert(pairs_view(kept@).len() == kept@.len());
    if query.as_str().is_empty() {
        path
    } else {
        let mut result = path;
        push_str(&mut result, "?");
        push_str(&mut result, query.as_str());
        result
    }
}

/// The absolute path `uri` without the login token: its path, and its other query
/// pairs where there are any; nothing where `uri` cannot be read.
pub fn uri_without_token(uri: &str) -> (stripped: Option<String>)
    ensures
        match origin_parts_of(uri@) {
            Some(parts) => stripped matches Some(s)
                && s@ == path_with_query(parts.0, encoded_query_of(without_token(parts.1)))
                && (s@ == parts.0 <==> without_token(parts.1).len() == 0),
            None => stripped is None,
        },
{
    match origin_parts(uri) {
        None => None,
        Some((path, pairs)) => Some(strip_token(path, pairs.as_slice())),
    }
}

/// What a request that may carry a login token leads to.
#[derive(Debug)]
pub enum AutoLogin {
    /// No token: the request goes on as it is.
    Pass,
    /// A token: log in with it where nobody is logged in yet, then go to the page
    /// without the token (nothing where the page cannot be read).
    Redirect { use_token: Option<String>, redirect_to: Option<String> },
}

/// A request for `uri` with the token found in its query, if any, by a visitor who
/// is logged in or not.
pub fn auto_login(token: Option<String>, logged_in: bool, uri: &str) -> (plan: AutoLogin)
    ensures
        token is None ==> plan is Pass,
        token matches Some(t) ==> plan matches AutoLogin::Redirect { use_token, redirect_to } && {
            &&& use_token == (if logged_in { None } else { Some(t) })
            &&& match origin_parts_of(uri@) {
                Some(parts) => redirect_to matches Some(r)
                    && r@ == path_with_query(parts.0, encoded_query_of(without_token(parts.1))),
                None => redirect_to is None,
            }
        },
{
    match token {
        None => AutoLogin::Pass,
        Some(t) => {
            let use_token = if logged_in { None } else { Some(t) };
            AutoLogin::Redirect { use_token, redirect_to: uri_without_token(uri) }
        },
    }
}

} // verus!
