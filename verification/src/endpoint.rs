//! Subscription endpoints: how the address of a stream is derived from a base
//! address and a query, and what of an address identifies the server behind it.
//!
//! Addresses are `url::Url` values. What this module states of them is stated
//! over an [`Address`]: the parts of the serialised URL.

use url::ParseError;
use url::Url;
use vstd::pervasive::unreached;
use vstd::prelude::*;

verus! {

#[verifier::external_type_specification]
#[verifier::external_body]
pub struct ExUrl(url::Url);

#[verifier::external_type_specification]
#[verifier::external_body]
pub struct ExParseError(url::ParseError);

/// The parts that the serialisation of a URL is made of.
pub struct Address {
    /// All that stands before the path: the scheme, its colon and, where
    /// there is one, the authority (user, host and port).
    pub origin: Seq<char>,
    /// The path.
    pub path: Seq<char>,
    /// The query, without its question mark.
    pub query: Option<Seq<char>>,
    /// The fragment, without its hash sign.
    pub fragment: Option<Seq<char>>,
    /// Whether relative references can be resolved against the URL: its
    /// scheme is followed by a slash (`ws://host/`, not `mailto:someone`).
    pub hierarchical: bool,
}

/// The parts of `url`: what `Url::path`, `Url::query` and `Url::fragment`
/// return, the slice of the URL before its path, and the negation of
/// `Url::cannot_be_a_base`.
pub uninterp spec fn url_address(url: Url) -> Address;

/// The origin and the path of the URL that `Url::join` gives where it
/// resolves the relative reference `reference` against a URL with the parts
/// `base`.
pub uninterp spec fn joined_origin_and_path(base: Address, reference: Seq<char>) -> (
    Seq<char>,
    Seq<char>,
);

/// The query that `Url::set_query` writes into a URL with the parts `target`
/// for the text `query`: the text percent-encoded as the scheme asks for.
pub uninterp spec fn url_query_text(target: Address, query: Seq<char>) -> Seq<char>;

/// One name or value in `application/x-www-form-urlencoded` syntax: what
/// `form_urlencoded::byte_serialize` makes of the UTF-8 bytes of `text`.
pub uninterp spec fn form_component(text: Seq<char>) -> Seq<char>;

/// The serialisation of a URL with the parts `address`.
pub open spec fn address_text(address: Address) -> Seq<char> {
    address.origin + address.path + match address.query {
        Some(query) => seq!['?'] + query,
        None => Seq::<char>::empty(),
    } + match address.fragment {
        Some(fragment) => seq!['#'] + fragment,
        None => Seq::<char>::empty(),
    }
}

/// An ASCII letter or digit.
pub open spec fn is_ascii_alphanumeric(c: char) -> bool {
    ('a' <= c && c <= 'z') || ('A' <= c && c <= 'Z') || ('0' <= c && c <= '9')
}

/// A relative reference that is nothing but a path: letters, digits and
/// slashes, not starting with a slash.
pub open spec fn is_plain_path(reference: Seq<char>) -> bool {
    &&& reference.len() > 0
    &&& reference[0] != '/'
    &&& forall|i: int|
        0 <= i < reference.len() ==> is_ascii_alphanumeric(#[trigger] reference[i])
            || reference[i] == '/'
}

/// The path segment under which a Riemann server offers its index as a stream.
pub open spec fn subscription_path() -> Seq<char> {
    "index/"@
}

/// The text of the `subscribe` parameter.
pub open spec fn flag_text(subscribe: bool) -> Seq<char> {
    if subscribe {
        "true"@
    } else {
        "false"@
    }
}

/// One `name=value` pair in `application/x-www-form-urlencoded` syntax.
pub open spec fn form_pair(name: Seq<char>, value: Seq<char>) -> Seq<char> {
    form_component(name) + seq!['='] + form_component(value)
}

/// The query string of a subscription: `subscribe=<flag>&query=<query>`, with
/// each name and value form-encoded.
pub open spec fn subscription_query(subscribe: bool, query: Seq<char>) -> Seq<char> {
    form_pair("subscribe"@, flag_text(subscribe)) + seq!['&'] + form_pair("query"@, query)
}

/// Whether resolving a plain path against an address with the parts `base`
/// is sure to leave the origin as it is. It may not where the origin ends in
/// `/.`, the mark that sets a path with an empty first segment apart from an
/// authority, or where the path begins with two slashes: resolution puts
/// the mark where the new path needs it and takes it away where it does not.
pub open spec fn keeps_origin(base: Address) -> bool {
    &&& !(base.origin.len() >= 2 && base.origin[base.origin.len() - 2] == '/'
        && base.origin[base.origin.len() - 1] == '.')
    &&& !(base.path.len() >= 2 && base.path[0] == '/' && base.path[1] == '/')
}

/// The parts of the URL that results from resolving the plain path
/// `reference` against a hierarchical address with the parts `base`: the
/// origin and the path that resolution gives, neither query nor fragment.
pub open spec fn resolved_address(base: Address, reference: Seq<char>) -> Address {
    Address {
        origin: joined_origin_and_path(base, reference).0,
        path: joined_origin_and_path(base, reference).1,
        query: None,
        fragment: None,
        hierarchical: true,
    }
}

/// The parts of `target` with its query replaced by the text `query`.
pub open spec fn address_with_query(target: Address, query: Seq<char>) -> Address {
    Address {
        origin: target.origin,
        path: target.path,
        query: Some(url_query_text(target, query)),
        fragment: target.fragment,
        hierarchical: target.hierarchical,
    }
}

/// The parts of the endpoint that a subscription to `query` has at a
/// hierarchical base address with the parts `base`: the subscription path
/// resolved against the base, with the query of the subscription.
pub open spec fn endpoint_address(base: Address, subscribe: bool, query: Seq<char>) -> Address {
    address_with_query(
        resolved_address(base, subscription_path()),
        subscription_query(subscribe, query),
    )
}

/// What is left of a path when its segments are removed: its leading slash.
pub open spec fn cleared_path(path: Seq<char>) -> Seq<char> {
    if path.len() > 0 {
        path.subrange(0, 1)
    } else {
        path
    }
}

/// The parts of the comparison base of a hierarchical address: the address
/// without its path segments, its query and its fragment.
pub open spec fn base_address(address: Address) -> Address {
    Address {
        origin: address.origin,
        path: cleared_path(address.path),
        query: None,
        fragment: None,
        hierarchical: address.hierarchical,
    }
}

/// Whether two addresses have the same comparison base. An address that is
/// not hierarchical has none, and so shares it with no address.
pub open spec fn same_base_address(first: Address, second: Address) -> bool {
    &&& first.hierarchical
    &&& second.hierarchical
    &&& address_text(base_address(first)) == address_text(base_address(second))
}

/// An address that cannot serve as a base: it is not hierarchical.
#[derive(Clone, Copy, Debug, PartialEq, Eq, Structural)]
pub struct InvalidBase;

/// `Url::join`, for a reference that is a plain path. It succeeds exactly
/// against a hierarchical base. The result then has the origin and the path
/// that resolution gives, neither query nor fragment, and is hierarchical.
/// Its origin is that of `base` wherever `keeps_origin` holds of `base`.
#[verifier::external_body]
fn join_path(base: &Url, reference: &str) -> (joined: Result<Url, ParseError>)
    requires
        is_plain_path(reference@),
    ensures
        joined is Ok <==> url_address(*base).hierarchical,
        joined matches Ok(target) ==> url_address(target) == (Address {
            origin: joined_origin_and_path(url_address(*base), reference@).0,
            path: joined_origin_and_path(url_address(*base), reference@).1,
            query: None,
            fragment: None,
            hierarchical: true,
        }),
        joined matches Ok(target) ==> (keeps_origin(url_address(*base)) ==> url_address(
            target,
        ).origin == url_address(*base).origin),
{
    base.join(reference)
}

/// `Url::cannot_be_a_base`, negated: whether the URL is hierarchical.
#[verifier::external_body]
fn can_be_a_base(url: &Url) -> (hierarchical: bool)
    ensures
        hierarchical == url_address(*url).hierarchical,
{
    !url.cannot_be_a_base()
}

/// `Url::set_query`, on a hierarchical URL: the query is replaced by the
/// encoded text, or removed for `None`; the other parts stay. Where a new
/// query is written before a fragment, `set_query` holds the length of the
/// URL against what it supports and panics past it: that call is left out.
#[verifier::external_body]
fn set_query(url: &mut Url, query: Option<&str>)
    requires
        url_address(*old(url)).hierarchical,
        url_address(*old(url)).fragment is None || query is None,
    ensures
        url_address(*final(url)) == (Address {
            origin: url_address(*old(url)).origin,
            path: url_address(*old(url)).path,
            query: match query {
                Some(text) => Some(url_query_text(url_address(*old(url)), text@)),
                None => None,
            },
            fragment: url_address(*old(url)).fragment,
            hierarchical: url_address(*old(url)).hierarchical,
        }),
{
    url.set_query(query)
}

/// `Url::path_segments_mut` and, where it gives the segments,
/// `PathSegmentsMut::clear`. The segments are given exactly for a
/// hierarchical URL; clearing them cuts the path after its leading slash and
/// leaves the other parts.
#[verifier::external_body]
fn clear_path_segments(url: &mut Url) -> (cleared: bool)
    ensures
        cleared == url_address(*old(url)).hierarchical,
        url_address(*final(url)) == if cleared {
            Address {
                origin: url_address(*old(url)).origin,
                path: cleared_path(url_address(*old(url)).path),
                query: url_address(*old(url)).query,
                fragment: url_address(*old(url)).fragment,
                hierarchical: url_address(*old(url)).hierarchical,
            }
        } else {
            url_address(*old(url))
        },
{
    match url.path_segments_mut() {
        Ok(mut segments) => {
            segments.clear();
            true
        },
        Err(_) => false,
    }
}

/// `Url::set_fragment` with `None`, on a hierarchical URL: the fragment is
/// removed and the other parts stay.
#[verifier::external_body]
fn remove_fragment(url: &mut Url)
    requires
        url_address(*old(url)).hierarchical,
    ensures
        url_address(*final(url)) == (Address {
            origin: url_address(*old(url)).origin,
            path: url_address(*old(url)).path,
            query: url_address(*old(url)).query,
            fragment: None,
            hierarchical: url_address(*old(url)).hierarchical,
        }),
{
    url.set_fragment(None)
}

/// `==` on `Url`: URLs compare like their serialisations.
#[verifier::external_body]
fn same_url(first: &Url, second: &Url) -> (same: bool)
    ensures
        same == (address_text(url_address(*first)) == address_text(url_address(*second))),
{
    first == second
}

/// `form_urlencoded::Serializer` fed with two pairs: the pairs as
/// `name=value`, each name and value encoded, joined by `&`.
#[verifier::external_body]
fn form_urlencode(first: (&str, &str), second: (&str, &str)) -> (text: String)
    ensures
        text@ == form_component(first.0@) + seq!['='] + form_component(first.1@) + seq!['&']
            + form_component(second.0@) + seq!['='] + form_component(second.1@),
{
    url::form_urlencoded::Serializer::new(String::new())
        .append_pair(first.0, first.1)
        .append_pair(second.0, second.1)
        .finish()
}

/// A copy of a URL has the parts of the URL.
pub assume_specification[ <Url as Clone>::clone ](url: &Url) -> (copy: Url)
    ensures
        url_address(copy) == url_address(*url),
;

/// The endpoint of a subscription, given the subscription path already
/// resolved against the base address: `joined` with the query
/// `subscribe=<flag>&query=<query>`.
fn endpoint_from_joined(joined: Url, subscribe: bool, query: &str) -> (endpoint: Url)
    requires
        url_address(joined).hierarchical,
        url_address(joined).fragment is None,
    ensures
        url_address(endpoint) == address_with_query(
            url_address(joined),
            subscription_query(subscribe, query@),
        ),
{
    let flag = if subscribe {
        "true"
    } else {
        "false"
    };
    let parameters = form_urlencode(("subscribe", flag), ("query", query));
    assert(parameters@ =~= subscription_query(subscribe, query@));
    let mut endpoint = joined;
    set_query(&mut endpoint, Some(parameters.as_str()));
    endpoint
}

/// Whether `url` can serve as a base address: it is hierarchical.
pub fn is_hierarchical(url: &Url) -> (hierarchical: bool)
    ensures
        hierarchical == url_address(*url).hierarchical,
{
    can_be_a_base(url)
}

/// The endpoint of a subscription to `query` at the base address `url`: the
/// subscription path resolved against `url`, with the query
/// `subscribe=<flag>&query=<query>`.
///
/// The endpoint has the origin of `url` wherever `keeps_origin` holds of
/// `url`.
///
/// The base address must be hierarchical, which [`is_hierarchical`] tests;
/// [`try_websocket_url`] asks for nothing and reports where it is not.
pub fn websocket_url(url: &Url, subscribe: bool, query: &str) -> (endpoint: Url)
    requires
        url_address(*url).hierarchical,
    ensures
        url_address(endpoint) == endpoint_address(url_address(*url), subscribe, query@),
        keeps_origin(url_address(*url)) ==> url_address(endpoint).origin == url_address(
            *url,
        ).origin,
{
    let path = "index/";
    proof {
        reveal_strlit("index/");
        assert(is_plain_path(path@));
    }
    match join_path(url, path) {
        Ok(joined) => endpoint_from_joined(joined, subscribe, query),
        Err(_) => unreached(),
    }
}

/// The endpoint of a subscription to `query` at the base address `url`, or
/// `InvalidBase` exactly where `url` is not hierarchical.
pub fn try_websocket_url(url: &Url, subscribe: bool, query: &str) -> (endpoint: Result<
    Url,
    InvalidBase,
>)
    ensures
        match endpoint {
            Ok(target) => {
                &&& url_address(*url).hierarchical
                &&& url_address(target) == endpoint_address(
                    url_address(*url),
                    subscribe,
                    query@,
                )
                &&& keeps_origin(url_address(*url)) ==> url_address(target).origin
                    == url_address(*url).origin
            },
            Err(_) => !url_address(*url).hierarchical,
        },
{
    if is_hierarchical(url) {
        Ok(websocket_url(url, subscribe, query))
    } else {
        Err(InvalidBase)
    }
}

/// The comparison base of `url`: the URL without its path segments, its
/// query and its fragment, which identifies the server and nothing of the
/// subscription. Fails with `InvalidBase` exactly where `url` is not
/// hierarchical.
pub fn base_url(url: Url) -> (base: Result<Url, InvalidBase>)
    ensures
        match base {
            Ok(stripped) => {
                &&& url_address(url).hierarchical
                &&& url_address(stripped) == base_address(url_address(url))
            },
            Err(_) => !url_address(url).hierarchical,
        },
{
    let mut stripped = url;
    if clear_path_segments(&mut stripped) {
        set_query(&mut stripped, None);
        remove_fragment(&mut stripped);
        Ok(stripped)
    } else {
        Err(InvalidBase)
    }
}

/// Whether two addresses have the same comparison base. An address without
/// one counts as different from every address.
pub fn same_base(first: &Url, second: &Url) -> (same: bool)
    ensures
        same == same_base_address(url_address(*first), url_address(*second)),
{
    match base_url(first.clone()) {
        Ok(first_base) => match base_url(second.clone()) {
            Ok(second_base) => same_url(&first_base, &second_base),
            Err(_) => false,
        },
        Err(_) => false,
    }
}

/// Neither the subscribe flag nor the query of an endpoint affects its
/// comparison base: two endpoints built from one base address have the same
/// comparison base, whatever they subscribe to.
pub proof fn lemma_base_ignores_subscription(
    base: Address,
    first_subscribe: bool,
    first_query: Seq<char>,
    second_subscribe: bool,
    second_query: Seq<char>,
)
    ensures
        endpoint_address(base, first_subscribe, first_query).hierarchical,
        base_address(endpoint_address(base, first_subscribe, first_query)) == base_address(
            endpoint_address(base, second_subscribe, second_query),
        ),
        same_base_address(
            endpoint_address(base, first_subscribe, first_query),
            endpoint_address(base, second_subscribe, second_query),
        ),
{
}

/// A comparison base is the identity of a server and no more: it has
/// neither query nor fragment, and of the path at most the leading slash.
/// So two addresses that differ only in path, query and fragment, each path
/// empty or not as the other, have the same comparison base.
pub proof fn lemma_base_is_the_identity(first: Address, second: Address)
    requires
        first.origin == second.origin,
        first.hierarchical == second.hierarchical,
        cleared_path(first.path) == cleared_path(second.path),
    ensures
        base_address(first).query is None,
        base_address(first).fragment is None,
        base_address(first).path.len() <= 1,
        base_address(first) == base_address(second),
        first.hierarchical ==> same_base_address(first, second),
{
}

/// Taking the comparison base twice gives what taking it once gives.
pub proof fn lemma_base_of_base(address: Address)
    ensures
        base_address(base_address(address)) == base_address(address),
{
    assert(cleared_path(cleared_path(address.path)) =~= cleared_path(address.path));
}

/// Having the same comparison base is symmetric and transitive, and holds
/// of a hierarchical address and itself.
pub proof fn lemma_same_base_is_an_equivalence(first: Address, second: Address, third: Address)
    ensures
        first.hierarchical ==> same_base_address(first, first),
        same_base_address(first, second) ==> same_base_address(second, first),
        same_base_address(first, second) && same_base_address(second, third) ==> same_base_address(
            first,
            third,
        ),
{
}

} // verus!
