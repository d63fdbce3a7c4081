//! The storefront's endpoints: the validated API root and the URL of each
//! call made against it.

use vstd::prelude::*;
use vstd::string::*;
use url::ParseError;
use url::Url;
use crate::error::Error;
use crate::text::decimal;
use crate::text::push_decimal;
use crate::text::lemma_decimal_len_u128;
use crate::text::signed_decimal;
use crate::text::signed_decimal_text;

verus! {

/// The longest URL text, in characters, that the library rewrites: two to
/// the power 27. A text of that length has at most four times as many
/// bytes, and a URL made of it at most three times as many again, so that a
/// URL made of two such texts stays under the four gigabytes that a URL can
/// have.
pub const MAX_URL_CHARS: usize = 134_217_728;

/// The serialization of the absolute URL that `text` parses to, if it
/// parses.
pub uninterp spec fn parsed_url(text: Seq<char>) -> Option<Seq<char>>;

/// The serialization of `reference` resolved against `base`, if both
/// parse.
pub uninterp spec fn joined_url(base: Seq<char>, reference: Seq<char>) -> Option<Seq<char>>;

/// The serialization of `base` with its path replaced by `path`, if `base`
/// parses.
pub uninterp spec fn url_with_path(base: Seq<char>, path: Seq<char>) -> Option<Seq<char>>;

/// The serialization of `base` with its query replaced by `query`, if
/// `base` parses.
pub uninterp spec fn url_with_query(base: Seq<char>, query: Seq<char>) -> Option<Seq<char>>;

/// Whether a text is short enough to be rewritten.
pub open spec fn fits(text: Seq<char>) -> bool {
    text.len() <= MAX_URL_CHARS
}

/// Calls `Url::parse` and hands back the URL's serialization. Trusted: that
/// the outcome depends on the text alone, which `parsed_url` names.
#[verifier::external_body]
fn parse_url(text: &str) -> (r: Result<String, ParseError>)
    ensures
        match r {
            Ok(s) => parsed_url(text@) == Some(s@),
            Err(_) => parsed_url(text@) is None,
        },
{
    Url::parse(text).map(String::from)
}

/// Calls `Url::join` on the parsed `base`. Trusted: that the outcome
/// depends on the two texts alone, which `joined_url` names.
#[verifier::external_body]
fn join_url(base: &str, reference: &str) -> (r: Result<String, ParseError>)
    ensures
        match r {
            Ok(s) => joined_url(base@, reference@) == Some(s@),
            Err(_) => joined_url(base@, reference@) is None,
        },
{
    Url::parse(base)?.join(reference).map(String::from)
}

/// Calls `Url::set_path` on the parsed `base`. Trusted: that the outcome
/// depends on the two texts alone, which `url_with_path` names. The call
/// panics only when the rewritten URL passes four gigabytes, which texts
/// within the bound cannot reach.
#[verifier::external_body]
fn replace_path(base: &str, path: &str) -> (r: Result<String, ParseError>)
    requires
        fits(base@),
        fits(path@),
    ensures
        match r {
            Ok(s) => url_with_path(base@, path@) == Some(s@),
            Err(_) => url_with_path(base@, path@) is None,
        },
{
    let mut url = Url::parse(base)?;
    url.set_path(path);
    Ok(String::from(url))
}

/// Calls `Url::set_query` on the parsed `base`. Trusted: that the outcome
/// depends on the two texts alone, which `url_with_query` names. The call
/// panics only when the rewritten URL passes four gigabytes, which texts
/// within the bound cannot reach.
#[verifier::external_body]
fn replace_query(base: &str, query: &str) -> (r: Result<String, ParseError>)
    requires
        fits(base@),
        fits(query@),
    ensures
        match r {
            Ok(s) => url_with_query(base@, query@) == Some(s@),
            Err(_) => url_with_query(base@, query@) is None,
        },
{
    let mut url = Url::parse(base)?;
    url.set_query(Some(query));
    Ok(String::from(url))
}

/// The text of the error that refuses a URL over the bound.
pub open spec fn too_long() -> Seq<char> {
    "url too long"@
}

/// What an endpoint comes to: the URL, or why there is none.
pub enum Outcome {
    /// The URL.
    Url(Seq<char>),
    /// One of the texts did not parse.
    Unparsed,
    /// A URL on the way was over the bound.
    TooLong,
}

/// Whether `e` is the error that `outcome` calls for: a parse error for a
/// text that did not parse, the refusal for a URL over the bound.
pub open spec fn excuses(e: Error, outcome: Outcome) -> bool {
    match outcome {
        Outcome::Url(_) => false,
        Outcome::Unparsed => e is ParseError,
        Outcome::TooLong => e matches Error::Unknown(text) && text@ == too_long(),
    }
}

/// Whether `r` is what `outcome` asks for: the URL itself, or the error
/// that it calls for.
pub open spec fn delivers(r: Result<String, Error>, outcome: Outcome) -> bool {
    match r {
        Ok(url) => outcome == Outcome::Url(url@),
        Err(e) => excuses(e, outcome),
    }
}

/// A parsed URL, or `Unparsed`.
pub open spec fn parsed_or_not(url: Option<Seq<char>>) -> Outcome {
    match url {
        Some(u) => Outcome::Url(u),
        None => Outcome::Unparsed,
    }
}

/// Where the session is established.
pub open spec fn session_url(base: Seq<char>) -> Outcome {
    parsed_or_not(joined_url(base, "/api/users/me"@))
}

/// Where a product's catalog entry is fetched, with the time of asking as
/// a query that no cache has seen.
pub open spec fn catalog_url(base: Seq<char>, product: Seq<char>, now_millis: nat) -> Outcome {
    match joined_url(base, "/api/products/"@) {
        None => Outcome::Unparsed,
        Some(dir) => match joined_url(dir, product) {
            None => Outcome::Unparsed,
            Some(entry) => if fits(entry) {
                parsed_or_not(url_with_query(entry, "ts="@ + decimal(now_millis)))
            } else {
                Outcome::TooLong
            },
        },
    }
}

/// Where orders are created.
pub open spec fn orders_url(base: Seq<char>) -> Outcome {
    parsed_or_not(url_with_path(base, "/api/checkout/v1/orders"@))
}

/// Where one order is patched.
pub open spec fn order_url(base: Seq<char>, order: int) -> Outcome {
    match url_with_path(base, "/api/checkout/v1/orders/"@) {
        None => Outcome::Unparsed,
        Some(dir) => parsed_or_not(joined_url(dir, signed_decimal(order))),
    }
}

/// Where one order is finalized.
pub open spec fn finalize_url(base: Seq<char>, order: int) -> Outcome {
    parsed_or_not(
        url_with_path(
            base,
            "/api/checkout/v1/orders/"@ + signed_decimal(order) + "/finalize"@,
        ),
    )
}

fn refuse_too_long() -> (r: Result<String, Error>)
    ensures
        delivers(r, Outcome::TooLong),
{
    Err(Error::Unknown("url too long".to_owned()))
}

fn deliver(r: Result<String, ParseError>) -> (out: Result<String, Error>)
    ensures
        match r {
            Ok(s) => delivers(out, Outcome::Url(s@)),
            Err(_) => delivers(out, Outcome::Unparsed),
        },
{
    match r {
        Ok(s) => Ok(s),
        Err(e) => Err(Error::ParseError(e)),
    }
}

/// The root of a storefront's API: an absolute URL in its normal form,
/// short enough to be rewritten.
#[derive(Debug)]
pub struct BaseUrl {
    text: String,
}

impl View for BaseUrl {
    type V = Seq<char>;

    closed spec fn view(&self) -> Seq<char> {
        self.text@
    }
}

impl Clone for BaseUrl {
    fn clone(&self) -> (copy: Self)
        ensures
            copy@ == self@,
    {
        proof {
            use_type_invariant(self);
        }
        BaseUrl { text: self.text.clone() }
    }
}

impl BaseUrl {
    #[verifier::type_invariant]
    spec fn bounded(&self) -> bool {
        fits(self.text@)
    }

    /// What parsing `text` as an API root comes to.
    pub open spec fn parse_outcome(text: Seq<char>) -> Outcome {
        match parsed_url(text) {
            None => Outcome::Unparsed,
            Some(url) => if fits(url) {
                Outcome::Url(url)
            } else {
                Outcome::TooLong
            },
        }
    }

    /// Parses the root of an API.
    pub fn parse(text: &str) -> (r: Result<BaseUrl, Error>)
        ensures
            match r {
                Ok(base) => Self::parse_outcome(text@) == Outcome::Url(base@),
                Err(e) => excuses(e, Self::parse_outcome(text@)),
            },
    {
        match parse_url(text) {
            Err(e) => Err(Error::ParseError(e)),
            Ok(url) => {
                if url.as_str().unicode_len() <= MAX_URL_CHARS {
                    Ok(BaseUrl { text: url })
                } else {
                    Err(Error::Unknown("url too long".to_owned()))
                }
            },
        }
    }

    /// The URL's text.
    pub fn as_str(&self) -> (text: &str)
        ensures
            text@ == self@,
            fits(text@),
    {
        proof {
            use_type_invariant(self);
        }
        self.text.as_str()
    }

    /// The URL at which the session is established.
    pub fn session(&self) -> (r: Result<String, Error>)
        ensures
            delivers(r, session_url(self@)),
    {
        deliver(join_url(self.text.as_str(), "/api/users/me"))
    }

    /// The URL of a product's catalog entry, asked at `now_millis`
    /// milliseconds since the epoch.
    pub fn catalog(&self, product: &str, now_millis: u128) -> (r: Result<String, Error>)
        ensures
            delivers(r, catalog_url(self@, product@, now_millis as nat)),
    {
        let dir = match join_url(self.text.as_str(), "/api/products/") {
            Ok(dir) => dir,
            Err(e) => {
                return Err(Error::ParseError(e));
            },
        };
        let entry = match join_url(dir.as_str(), product) {
            Ok(entry) => entry,
            Err(e) => {
                return Err(Error::ParseError(e));
            },
        };
        if entry.as_str().unicode_len() > MAX_URL_CHARS {
            return refuse_too_long();
        }
        let mut query = "ts=".to_owned();
        push_decimal(&mut query, now_millis);
        proof {
            reveal_strlit("ts=");
            lemma_decimal_len_u128(now_millis as nat);
        }
        deliver(replace_query(entry.as_str(), query.as_str()))
    }

    /// The URL at which orders are created.
    pub fn orders(&self) -> (r: Result<String, Error>)
        ensures
            delivers(r, orders_url(self@)),
    {
        proof {
            use_type_invariant(self);
            reveal_strlit("/api/checkout/v1/orders");
        }
        deliver(replace_path(self.text.as_str(), "/api/checkout/v1/orders"))
    }

    /// The URL at which the order `order` is patched.
    pub fn order(&self, order: i64) -> (r: Result<String, Error>)
        ensures
            delivers(r, order_url(self@, order as int)),
    {
        proof {
            use_type_invariant(self);
            reveal_strlit("/api/checkout/v1/orders/");
        }
        let dir = match replace_path(self.text.as_str(), "/api/checkout/v1/orders/") {
            Ok(dir) => dir,
            Err(e) => {
                return Err(Error::ParseError(e));
            },
        };
        let id = signed_decimal_text(order);
        deliver(join_url(dir.as_str(), id.as_str()))
    }

    /// The URL at which the order `order` is finalized.
    pub fn finalize(&self, order: i64) -> (r: Result<String, Error>)
        ensures
            delivers(r, finalize_url(self@, order as int)),
    {
        proof {
            use_type_invariant(self);
            reveal_strlit("/api/checkout/v1/orders/");
            reveal_strlit("/finalize");
        }
        let mut path = "/api/checkout/v1/orders/".to_owned();
        let id = signed_decimal_text(order);
        path.append(id.as_str());
        path.append("/finalize");
        deliver(replace_path(self.text.as_str(), path.as_str()))
    }
}

} // verus!
