//! The tunnel client identity and the endpoint encoder: a fully qualified,
//! percent-encoded query URL built from a base URL, a path, an ordered list
//! of optional named parameters, and an optional bearer token.

use vstd::prelude::*;

use crate::encode::{percent_decoded, percent_encoded, url_param};
use crate::error::TunnelClientError;
use crate::transport::{classify, fetch};

verus! {

/// A parameter as the specification sees it: a name and an optional value.
pub type ParamView = (Seq<char>, Option<Seq<char>>);

/// How a parameter value appears inside a URL: the percent-encoding of its
/// UTF-8 bytes.
pub open spec fn encoded_value(v: Seq<char>) -> Seq<char> {
    percent_encoded(vstd::utf8::encode_utf8(v))
}

/// The separator before the next appended parameter: `?` for the first one,
/// `&` for every later one.
pub open spec fn sep_str(any_before: bool) -> Seq<char> {
    if any_before {
        "&"@
    } else {
        "?"@
    }
}

/// Whether any parameter in the list carries a value (and so is appended).
pub open spec fn any_present(params: Seq<ParamView>) -> bool {
    exists|i: int| 0 <= i < params.len() && params[i].1 is Some
}

/// The query fragment contributed by a parameter list, given whether some
/// parameter was already appended before it. Parameters without a value are
/// omitted entirely.
pub open spec fn query_suffix(params: Seq<ParamView>, any_before: bool) -> Seq<char>
    decreases params.len(),
{
    if params.len() == 0 {
        Seq::empty()
    } else {
        match params[0].1 {
            Option::None => query_suffix(params.drop_first(), any_before),
            Option::Some(v) => sep_str(any_before) + params[0].0 + "="@ + encoded_value(v)
                + query_suffix(params.drop_first(), true),
        }
    }
}

/// The trailing token parameter: appended last, named `token`, only when
/// token-gating is requested and a token is held.
pub open spec fn token_suffix(
    any_before: bool,
    include_token: bool,
    token: Option<Seq<char>>,
) -> Seq<char> {
    match token {
        Option::Some(t) => if include_token {
            sep_str(any_before) + "token="@ + encoded_value(t)
        } else {
            Seq::empty()
        },
        Option::None => Seq::empty(),
    }
}

/// The whole URL: `base/path`, the query fragment of the present parameters,
/// then the token parameter.
pub open spec fn full_url(
    base: Seq<char>,
    path: Seq<char>,
    params: Seq<ParamView>,
    include_token: bool,
    token: Option<Seq<char>>,
) -> Seq<char> {
    base + "/"@ + path + query_suffix(params, false) + token_suffix(
        any_present(params),
        include_token,
        token,
    )
}

/// Dropping an absent-valued head does not change whether a value is present.
proof fn lemma_any_present_drop_first(params: Seq<ParamView>)
    requires
        params.len() > 0,
        params[0].1 is None,
    ensures
        any_present(params) == any_present(params.drop_first()),
{
    if any_present(params) {
        let i = choose|i: int| 0 <= i < params.len() && params[i].1 is Some;
        assert(params.drop_first()[i - 1].1 is Some);
    }
    if any_present(params.drop_first()) {
        let i = choose|i: int| 0 <= i < params.drop_first().len() && params.drop_first()[i].1
            is Some;
        assert(params[i + 1].1 is Some);
    }
}

/// Appending a parameter appends whether it carries a value.
proof fn lemma_any_present_push(params: Seq<ParamView>, p: ParamView)
    ensures
        any_present(params.push(p)) == (any_present(params) || p.1 is Some),
{
    if any_present(params) {
        let i = choose|i: int| 0 <= i < params.len() && params[i].1 is Some;
        assert(params.push(p)[i].1 is Some);
    }
    if p.1 is Some {
        assert(params.push(p)[params.len() as int].1 is Some);
    }
    if any_present(params.push(p)) {
        let i = choose|i: int| 0 <= i < params.push(p).len() && params.push(p)[i].1 is Some;
        if i < params.len() {
            assert(params[i].1 is Some);
        }
    }
}

/// The query fragment of a list with one more parameter: the fragment of the
/// list, then that parameter's own fragment with the right separator.
proof fn lemma_query_suffix_push(params: Seq<ParamView>, p: ParamView, any_before: bool)
    ensures
        query_suffix(params.push(p), any_before) == query_suffix(params, any_before) + (match p.1 {
            Option::None => Seq::<char>::empty(),
            Option::Some(v) => sep_str(any_before || any_present(params)) + p.0 + "="@
                + encoded_value(v),
        }),
    decreases params.len(),
{
    let frag = (match p.1 {
        Option::None => Seq::<char>::empty(),
        Option::Some(v) => sep_str(any_before || any_present(params)) + p.0 + "="@ + encoded_value(
            v,
        ),
    });
    if params.len() == 0 {
        assert(params.push(p).drop_first() =~= Seq::<ParamView>::empty());
        assert(params.push(p)[0] == p);
        assert(!any_present(params));
        assert(query_suffix(Seq::<ParamView>::empty(), any_before) == Seq::<char>::empty());
        assert(query_suffix(Seq::<ParamView>::empty(), true) == Seq::<char>::empty());
        assert(query_suffix(params, any_before) == Seq::<char>::empty());
        match p.1 {
            Option::None => {
                assert(query_suffix(params.push(p), any_before) == query_suffix(
                    params.push(p).drop_first(),
                    any_before,
                ));
                assert(query_suffix(params.push(p), any_before) =~= query_suffix(
                    params,
                    any_before,
                ) + frag);
            },
            Option::Some(v) => {
                assert(query_suffix(params.push(p), any_before) == sep_str(any_before) + p.0 + "="@
                    + encoded_value(v) + query_suffix(params.push(p).drop_first(), true));
                assert(query_suffix(params.push(p).drop_first(), true) == Seq::<char>::empty());
                assert(frag == sep_str(any_before) + p.0 + "="@ + encoded_value(v));
                assert(query_suffix(params.push(p), any_before) =~= query_suffix(
                    params,
                    any_before,
                ) + frag);
            },
        }
    } else {
        assert(params.push(p).drop_first() =~= params.drop_first().push(p));
        assert(params.push(p)[0] == params[0]);
        match params[0].1 {
            Option::None => {
                lemma_query_suffix_push(params.drop_first(), p, any_before);
                lemma_any_present_drop_first(params);
                assert(query_suffix(params.push(p), any_before) =~= query_suffix(
                    params,
                    any_before,
                ) + frag);
            },
            Option::Some(v0) => {
                lemma_query_suffix_push(params.drop_first(), p, true);
                assert(any_present(params)) by {
                    assert(params[0].1 is Some);
                }
                assert(query_suffix(params.push(p), any_before) =~= query_suffix(
                    params,
                    any_before,
                ) + frag);
            },
        }
    }
}

/// How often a character occurs in a sequence.
pub open spec fn occurrences(s: Seq<char>, c: char) -> nat
    decreases s.len(),
{
    if s.len() == 0 {
        0
    } else {
        (if s[0] == c {
            1nat
        } else {
            0nat
        }) + occurrences(s.drop_first(), c)
    }
}

proof fn lemma_occurrences_concat(a: Seq<char>, b: Seq<char>, c: char)
    ensures
        occurrences(a + b, c) == occurrences(a, c) + occurrences(b, c),
    decreases a.len(),
{
    if a.len() == 0 {
        assert(a + b =~= b);
    } else {
        assert((a + b).drop_first() =~= a.drop_first() + b);
        assert((a + b)[0] == a[0]);
        lemma_occurrences_concat(a.drop_first(), b, c);
    }
}

proof fn lemma_occurrences_single(s: Seq<char>, c: char)
    requires
        s.len() == 1,
    ensures
        occurrences(s, c) == if s[0] == c {
            1nat
        } else {
            0nat
        },
{
    assert(s.drop_first().len() == 0);
    assert(occurrences(s.drop_first(), c) == 0);
}

proof fn lemma_occurrences_absent(s: Seq<char>, c: char)
    requires
        forall|i: int| 0 <= i < s.len() ==> s[i] != c,
    ensures
        occurrences(s, c) == 0,
    decreases s.len(),
{
    if s.len() > 0 {
        lemma_occurrences_absent(s.drop_first(), c);
    }
}

/// An encoded value contains neither `?` nor `&`: every character of it is
/// `%`, a hex digit or unreserved.
proof fn lemma_encoded_value_no_separators(v: Seq<char>)
    ensures
        occurrences(encoded_value(v), '?') == 0,
        occurrences(encoded_value(v), '&') == 0,
{
    crate::encode::lemma_encoding_unreserved_output(vstd::utf8::encode_utf8(v));
    assert forall|i: int| 0 <= i < encoded_value(v).len() implies encoded_value(v)[i] != '?'
        && encoded_value(v)[i] != '&' by {
        let c = encoded_value(v)[i];
        assert(c == '%' || crate::encode::is_upper_hex_char(c) || crate::encode::is_unreserved_char(
            c,
        ));
    }
    lemma_occurrences_absent(encoded_value(v), '?');
    lemma_occurrences_absent(encoded_value(v), '&');
}

/// A parameter value round-trips through the URL encoding: percent-decoding
/// its encoded form recovers exactly its UTF-8 bytes, and those bytes decode
/// back to the value itself.
pub proof fn lemma_value_round_trip(v: Seq<char>)
    ensures
        percent_decoded(encoded_value(v)) == Option::Some(vstd::utf8::encode_utf8(v)),
        vstd::utf8::decode_utf8(vstd::utf8::encode_utf8(v)) == v,
{
    crate::encode::lemma_encoding_round_trip(vstd::utf8::encode_utf8(v));
    vstd::utf8::encode_utf8_decode_utf8(v);
}

/// Separator counts of the query fragment alone: each appended parameter
/// brings exactly one separator, the first one `?` unless something already
/// stood before, every later one `&`.
proof fn lemma_query_suffix_separators(params: Seq<ParamView>, any_before: bool)
    requires
        forall|i: int| 0 <= i < params.len() ==> (#[trigger] params[i]).1 is Some,
        forall|i: int, j: int|
            0 <= i < params.len() && 0 <= j < params[i].0.len() ==> (#[trigger] params[i].0[j])
                != '?' && params[i].0[j] != '&',
    ensures
        occurrences(query_suffix(params, any_before), '?') == if !any_before && params.len() > 0 {
            1nat
        } else {
            0nat
        },
        occurrences(query_suffix(params, any_before), '&') == params.len() - (
        if !any_before && params.len() > 0 {
            1nat
        } else {
            0nat
        }),
        params.len() > 0 ==> query_suffix(params, any_before).len() > 0 && query_suffix(
            params,
            any_before,
        )[0] == (if any_before {
            '&'
        } else {
            '?'
        }),
    decreases params.len(),
{
    reveal_strlit("?");
    reveal_strlit("&");
    reveal_strlit("=");
    if params.len() > 0 {
        let v = params[0].1->Some_0;
        let name = params[0].0;
        let rest = params.drop_first();
        assert(query_suffix(params, any_before) == sep_str(any_before) + name + "="@
            + encoded_value(v) + query_suffix(rest, true));
        lemma_query_suffix_separators(rest, true);
        lemma_encoded_value_no_separators(v);
        assert(forall|j: int| 0 <= j < name.len() ==> name[j] != '?' && name[j] != '&');
        lemma_occurrences_absent(name, '?');
        lemma_occurrences_absent(name, '&');
        lemma_occurrences_single("="@, '?');
        lemma_occurrences_single("="@, '&');
        lemma_occurrences_single(sep_str(any_before), '?');
        lemma_occurrences_single(sep_str(any_before), '&');
        lemma_occurrences_concat(sep_str(any_before), name, '?');
        lemma_occurrences_concat(sep_str(any_before) + name, "="@, '?');
        lemma_occurrences_concat(sep_str(any_before) + name + "="@, encoded_value(v), '?');
        lemma_occurrences_concat(
            sep_str(any_before) + name + "="@ + encoded_value(v),
            query_suffix(rest, true),
            '?',
        );
        lemma_occurrences_concat(sep_str(any_before), name, '&');
        lemma_occurrences_concat(sep_str(any_before) + name, "="@, '&');
        lemma_occurrences_concat(sep_str(any_before) + name + "="@, encoded_value(v), '&');
        lemma_occurrences_concat(
            sep_str(any_before) + name + "="@ + encoded_value(v),
            query_suffix(rest, true),
            '&',
        );
        assert(query_suffix(params, any_before)[0] == sep_str(any_before)[0]);
    }
}

/// Separator correctness of a whole built URL's query part: with every
/// parameter value present, no appended parameter at all leaves no query
/// string; otherwise exactly one `?` stands first and each of the remaining
/// appended parameters (the trailing token included) is joined by one `&`.
pub proof fn lemma_separator_correctness(
    params: Seq<ParamView>,
    include_token: bool,
    token: Option<Seq<char>>,
)
    requires
        forall|i: int| 0 <= i < params.len() ==> (#[trigger] params[i]).1 is Some,
        forall|i: int, j: int|
            0 <= i < params.len() && 0 <= j < params[i].0.len() ==> (#[trigger] params[i].0[j])
                != '?' && params[i].0[j] != '&',
    ensures
        ({
            let q = query_suffix(params, false) + token_suffix(
                any_present(params),
                include_token,
                token,
            );
            let appended = params.len() + (if include_token && token is Some {
                1nat
            } else {
                0nat
            });
            (appended == 0 ==> q.len() == 0) && (appended > 0 ==> q[0] == '?' && occurrences(
                q,
                '?',
            ) == 1 && occurrences(q, '&') == appended - 1)
        }),
{
    reveal_strlit("?");
    reveal_strlit("&");
    reveal_strlit("token=");
    let q1 = query_suffix(params, false);
    let q2 = token_suffix(any_present(params), include_token, token);
    lemma_query_suffix_separators(params, false);
    lemma_occurrences_concat(q1, q2, '?');
    lemma_occurrences_concat(q1, q2, '&');
    if params.len() > 0 {
        assert(params[0].1 is Some);
        assert(any_present(params));
    } else {
        assert(!any_present(params));
    }
    match token {
        Option::Some(t) => {
            if include_token {
                let sep = sep_str(any_present(params));
                assert(q2 == sep + "token="@ + encoded_value(t));
                lemma_encoded_value_no_separators(t);
                assert(forall|j: int| 0 <= j < "token="@.len() ==> "token="@[j] != '?'
                    && "token="@[j] != '&');
                lemma_occurrences_absent("token="@, '?');
                lemma_occurrences_absent("token="@, '&');
                lemma_occurrences_single(sep, '?');
                lemma_occurrences_single(sep, '&');
                lemma_occurrences_concat(sep, "token="@, '?');
                lemma_occurrences_concat(sep + "token="@, encoded_value(t), '?');
                lemma_occurrences_concat(sep, "token="@, '&');
                lemma_occurrences_concat(sep + "token="@, encoded_value(t), '&');
                if params.len() == 0 {
                    assert((q1 + q2)[0] == q2[0]) by {
                        assert(q1.len() == 0);
                        assert(q1 + q2 =~= q2);
                    }
                    assert(q2[0] == sep[0]);
                }
            } else {
                assert(q2.len() == 0);
            }
        },
        Option::None => {
            assert(q2.len() == 0);
        },
    }
    if params.len() > 0 {
        assert((q1 + q2)[0] == q1[0]);
    }
}

/// A client identity: the service's base URL and, once a subscription
/// succeeded, the issued bearer token. A held token is the sole credential
/// for all token-gated operations.
pub struct TunnelClient {
    pub tunnel_url: String,
    pub token: Option<String>,
}

impl TunnelClient {
    /// A fresh identity for the service at `tunnel_url`, holding `token` if
    /// one was already issued.
    pub fn new(tunnel_url: &str, token: Option<String>) -> (r: Self)
        ensures
            r.tunnel_url@ == tunnel_url@,
            r.token == token,
    {
        TunnelClient { tunnel_url: tunnel_url.to_owned(), token }
    }

    /// The view of the held token, if any.
    pub open spec fn token_view(&self) -> Option<Seq<char>> {
        match self.token {
            Option::Some(t) => Option::Some(t@),
            Option::None => Option::None,
        }
    }

    /// Build the full request URL for an operation: `base/path`, every
    /// present parameter percent-encoded and appended with the `?`-then-`&`
    /// separator rule, and the token appended last when requested and held.
    /// Total over any input; no side effects.
    pub fn get_full_url(
        &self,
        path: &str,
        params: &[(&str, Option<&str>)],
        include_token: bool,
    ) -> (r: String)
        ensures
            r@ == full_url(
                self.tunnel_url@,
                path@,
                params.deep_view(),
                include_token,
                self.token_view(),
            ),
    {
        let ghost pv = params.deep_view();
        let mut url = self.tunnel_url.clone();
        url.append("/");
        url.append(path);
        let mut wrote: bool = false;
        let mut i: usize = 0;
        while i < params.len()
            invariant
                i <= pv.len(),
                pv == params.deep_view(),
                pv.len() == params@.len(),
                url@ == self.tunnel_url@ + "/"@ + path@ + query_suffix(pv.take(i as int), false),
                wrote == any_present(pv.take(i as int)),
            decreases pv.len() - i,
        {
            let ghost prev = url@;
            let (pname, pvalue) = params[i];
            proof {
                assert(pv[i as int] == (pname.deep_view(), pvalue.deep_view()));
            }
            match pvalue {
                Option::Some(v) => {
                    if wrote {
                        url.append("&");
                    } else {
                        url.append("?");
                    }
                    url.append(pname);
                    url.append("=");
                    let enc = url_param(v);
                    url.append(enc.as_str());
                    proof {
                        assert(url@ == prev + sep_str(any_present(pv.take(i as int))) + pname@
                            + "="@ + encoded_value(v@));
                    }
                    wrote = true;
                },
                Option::None => {},
            }
            proof {
                lemma_query_suffix_push(pv.take(i as int), pv[i as int], false);
                lemma_any_present_push(pv.take(i as int), pv[i as int]);
                assert(pv.take(i + 1 as int) =~= pv.take(i as int).push(pv[i as int]));
            }
            i += 1;
        }
        proof {
            assert(pv.take(i as int) =~= pv);
        }
        if include_token {
            match &self.token {
                Option::Some(token) => {
                    if wrote {
                        url.append("&");
                    } else {
                        url.append("?");
                    }
                    url.append("token=");
                    let enc = url_param(token.as_str());
                    url.append(enc.as_str());
                },
                Option::None => {},
            }
        }
        url
    }

    /// One token-gated, GET-style call that expects an empty body: fails
    /// with `MissingToken` before any request when gating is requested and
    /// no token is held; otherwise sends exactly one request and classifies
    /// its outcome.
    pub fn call_empty(
        &self,
        path: &str,
        params: &[(&str, Option<&str>)],
        with_token: bool,
    ) -> (r: Result<(), TunnelClientError>)
        ensures
            with_token && self.token is None <==> r matches Err(TunnelClientError::MissingToken),
            r matches Err(e) ==> (e matches TunnelClientError::MissingToken || e matches
                TunnelClientError::RejectedRequest { .. } || e matches
                TunnelClientError::TransportFailure { .. }),
    {
        if with_token && self.token.is_none() {
            return Err(TunnelClientError::MissingToken);
        }
        let url = self.get_full_url(path, params, with_token);
        match classify(fetch(url.as_str())) {
            Ok(_) => Ok(()),
            Err(e) => Err(e),
        }
    }

    /// One token-gated, GET-style call that expects a body: fails with
    /// `MissingToken` before any request when gating is requested and no
    /// token is held; otherwise sends exactly one request and yields the
    /// success body or the classified failure.
    pub fn call_body(
        &self,
        path: &str,
        params: &[(&str, Option<&str>)],
        with_token: bool,
    ) -> (r: Result<String, TunnelClientError>)
        ensures
            with_token && self.token is None <==> r matches Err(TunnelClientError::MissingToken),
            r matches Err(e) ==> (e matches TunnelClientError::MissingToken || e matches
                TunnelClientError::RejectedRequest { .. } || e matches
                TunnelClientError::TransportFailure { .. }),
    {
        if with_token && self.token.is_none() {
            return Err(TunnelClientError::MissingToken);
        }
        let url = self.get_full_url(path, params, with_token);
        classify(fetch(url.as_str()))
    }
}

} // verus!
