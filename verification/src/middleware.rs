//! The pipeline stage that applies a rule set to responses.

use crate::data::CacheControl;
use crate::headers::{
    cache_control_name, header_entries, header_value_by_chars, insert_cache_control,
    is_header_text,
};
use actix_web::http::header::{HeaderMap, HeaderValue, InvalidHeaderValue};
use std::rc::Rc;
use vstd::prelude::*;
use vstd::utf8::encode_utf8;

verus! {

/// Whether the stage fails a request for `path`: a rule matches, and its
/// value holds a character that no header value may hold.
pub open spec fn refuses(rules: CacheControl, path: Seq<char>) -> bool {
    rules.lookup(path) matches Some(value) && !is_header_text(value)
}

/// The headers that the stage leaves behind for a request for `path`, given
/// those that the inner handler set: with the value of the matching rule as
/// the only cache-control header, or as they were where no rule matches or
/// the request fails.
pub open spec fn decorated(
    entries: Map<Seq<char>, Seq<Seq<u8>>>,
    rules: CacheControl,
    path: Seq<char>,
) -> Map<Seq<char>, Seq<Seq<u8>>> {
    match rules.lookup(path) {
        Some(value) => if is_header_text(value) {
            entries.insert(cache_control_name(), seq![encode_utf8(value)])
        } else {
            entries
        },
        None => entries,
    }
}

/// A rule value that the web framework refuses as a header value.
#[derive(Debug)]
pub struct InvalidCacheControl {
    /// The value of the rule that matched.
    pub value: String,
    /// The framework's own error.
    pub source: InvalidHeaderValue,
}

/// Middleware factory: holds the rule set and hands a shared handle of it to
/// every stage it makes.
#[derive(Clone)]
pub struct CacheHeaders(Rc<CacheControl>);

impl Default for CacheHeaders {
    /// A factory without rules.
    fn default() -> (made: Self)
        ensures
            made.rules() == CacheControl::without_rules(),
    {
        Self(Rc::new(CacheControl::default()))
    }
}

impl CacheHeaders {
    /// The rule set that every stage of this factory reads.
    pub closed spec fn rules(&self) -> CacheControl {
        *self.0
    }

    /// Makes a factory for the given rule set, or for one without rules
    /// where none is given.
    pub fn new(cache: Option<CacheControl>) -> (made: Self)
        ensures
            made.rules() == match cache {
                Some(rules) => rules,
                None => CacheControl::without_rules(),
            },
    {
        if let Some(cache) = cache {
            Self(Rc::new(cache))
        } else {
            Self(Rc::default())
        }
    }

    /// Makes the stage that wraps `service`. It shares this factory's rule
    /// set.
    pub fn new_transform<S>(&self, service: S) -> (stage: CacheHeadersMiddleware<S>)
        ensures
            stage.rules() == self.rules(),
            stage.service() == service,
    {
        CacheHeadersMiddleware { service, cache_control: self.0.clone() }
    }
}

/// The stage: the next service of the pipeline and the rule set that says
/// which responses get a cache-control header.
pub struct CacheHeadersMiddleware<S> {
    service: S,
    cache_control: Rc<CacheControl>,
}

impl<S> CacheHeadersMiddleware<S> {
    /// The rule set that this stage reads.
    pub closed spec fn rules(&self) -> CacheControl {
        *self.cache_control
    }

    /// The service that this stage wraps.
    pub closed spec fn service(&self) -> S {
        self.service
    }

    /// Lends the wrapped service, to ask whether it is ready and to hand it a
    /// request. The rule set stays as it is.
    pub fn service_mut(&mut self) -> (inner: &mut S)
        ensures
            *inner == old(self).service(),
            final(self).service() == *final(inner),
            final(self).rules() == old(self).rules(),
    {
        &mut self.service
    }

    /// Takes down what a request for `path` needs once its response is
    /// there. To be called before the request is handed to the wrapped
    /// service.
    pub fn capture(&self, path: &str) -> (held: CapturedRequest)
        ensures
            held.path() == path@,
            held.rules() == self.rules(),
    {
        CapturedRequest { cache_control: self.cache_control.clone(), path: path.to_owned() }
    }
}

/// What one request carries across the wait for the wrapped service: its
/// path as it was before the request was handed on, and the shared rule set.
pub struct CapturedRequest {
    cache_control: Rc<CacheControl>,
    path: String,
}

impl CapturedRequest {
    /// The rule set that decides about the response.
    pub closed spec fn rules(&self) -> CacheControl {
        *self.cache_control
    }

    /// The path of the request.
    pub closed spec fn path(&self) -> Seq<char> {
        self.path@
    }

    /// Sets the cache-control header of a response whose headers are
    /// `headers`: where a rule matches the captured path, the header becomes
    /// the value of that rule and nothing else, and every other header stays.
    /// Where no rule matches, the headers are not touched. Where the value
    /// of the matching rule cannot be a header value, the request fails and
    /// the headers are not touched either.
    pub fn apply(&self, headers: &mut HeaderMap) -> (done: Result<(), InvalidCacheControl>)
        ensures
            done is Err <==> refuses(self.rules(), self.path()),
            done matches Err(error) ==> self.rules().lookup(self.path()) == Some(error.value@),
            header_entries(*final(headers)) == decorated(
                header_entries(*old(headers)),
                self.rules(),
                self.path(),
            ),
            self.rules().lookup(self.path()) is None || done is Err ==> *final(headers) == *old(
                headers,
            ),
    {
        if let Some(value) = self.cache_control.get_value(self.path.as_str()) {
            proof {
                header_value_by_chars(value@);
            }
            match HeaderValue::from_str(value) {
                Ok(header) => {
                    insert_cache_control(headers, header);
                },
                Err(source) => {
                    return Err(InvalidCacheControl { value: value.to_owned(), source });
                },
            }
        }
        Ok(())
    }
}

/// A stage without rules fails no request and leaves every header as the
/// inner handler set it.
pub proof fn no_rules_no_change(
    entries: Map<Seq<char>, Seq<Seq<u8>>>,
    rules: CacheControl,
    path: Seq<char>,
)
    requires
        rules.suffix_rules().len() == 0,
        rules.prefix_rules().len() == 0,
    ensures
        !refuses(rules, path),
        decorated(entries, rules, path) == entries,
{
    rules.lookup_without_rules(path);
}

/// A second stage with the same rule set, run on what the first one left
/// behind for the same path, changes nothing.
pub proof fn apply_is_idempotent(
    entries: Map<Seq<char>, Seq<Seq<u8>>>,
    rules: CacheControl,
    path: Seq<char>,
)
    ensures
        decorated(decorated(entries, rules, path), rules, path) == decorated(entries, rules, path),
{
    assert(decorated(decorated(entries, rules, path), rules, path) =~= decorated(
        entries,
        rules,
        path,
    ));
}

} // verus!
