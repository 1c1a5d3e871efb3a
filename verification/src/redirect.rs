//! What the engine makes of a response: deliver it, or follow it to another URL.

use vstd::prelude::*;
use vstd::string::StringSliceAdditionalSpecFns;
use crate::error::{HttpError, HttpResult, ResponseFault, UrlFault};
use crate::headers::{fields, first, first_text, lemma_fixed_headers, visible, Fields, Headers};
use crate::request::Request;
use crate::text::latin;
use crate::url::{url_join, url_parse, ParseFault, Url, UrlView};

verus! {

/// Whether `status` is in the redirection class.
pub open spec fn redirection(status: u16) -> bool {
    300 <= status < 400
}

/// Whether `status` is in the redirection class.
pub fn is_redirection(status: u16) -> (r: bool)
    ensures
        r == redirection(status),
{
    300 <= status && status < 400
}

/// What a response asks of the engine, before any URL is read.
#[derive(Debug)]
pub enum Judgement {
    /// The response goes to the caller.
    Deliver,
    /// The response sends the engine to the location it names.
    Seek(String),
    /// The response cannot be acted on.
    Fail(HttpError),
}

/// The value of a [`Judgement`].
pub enum JudgementView {
    Deliver,
    Seek(Seq<char>),
    Fail(HttpError),
}

impl View for Judgement {
    type V = JudgementView;

    open spec fn view(&self) -> JudgementView {
        match self {
            Judgement::Deliver => JudgementView::Deliver,
            Judgement::Seek(location) => JudgementView::Seek(location@),
            Judgement::Fail(e) => JudgementView::Fail(*e),
        }
    }
}

/// What the engine does next.
#[derive(Debug)]
pub enum Verdict {
    /// The response goes to the caller as it came.
    Deliver,
    /// The next hop goes to this URL.
    Follow(Url),
}

/// The value of a [`Verdict`].
pub enum VerdictView {
    Deliver,
    Follow(UrlView),
}

impl View for Verdict {
    type V = VerdictView;

    open spec fn view(&self) -> VerdictView {
        match self {
            Verdict::Deliver => VerdictView::Deliver,
            Verdict::Follow(url) => VerdictView::Follow(url@),
        }
    }
}

/// What a look into a header map for a text gives: nothing where the name
/// is absent, no text where its first value is not one.
pub open spec fn found_view(found: Option<Option<String>>) -> Option<Option<Seq<char>>> {
    match found {
        None => None,
        Some(None) => Some(None),
        Some(Some(text)) => Some(Some(text@)),
    }
}

/// The location that a response with the headers `f` names.
pub open spec fn location_of(f: Fields) -> Option<Option<Seq<char>>> {
    match first(f, "location".spec_bytes()) {
        None => None,
        Some(value) => if visible(value) {
            Some(Some(latin(value)))
        } else {
            Some(None)
        },
    }
}

/// What a response with `status` asks of an engine that follows
/// redirections or not, given the location it names. Only a redirection
/// that is to be followed is looked into any further.
pub open spec fn judged(follow: bool, status: u16, location: Option<Option<Seq<char>>>) -> JudgementView {
    if !follow || !redirection(status) {
        JudgementView::Deliver
    } else {
        match location {
            None => JudgementView::Fail(HttpError::InvalidResponse(ResponseFault::NoLocation)),
            Some(None) => JudgementView::Fail(
                HttpError::InvalidResponse(ResponseFault::LocationNotText),
            ),
            Some(Some(text)) => JudgementView::Seek(text),
        }
    }
}

/// The target of a redirection, given what its location is as a URL of its
/// own and what it is when read against the URL it came from. A location
/// that is a URL of its own stands; only a relative one is joined.
pub open spec fn resolved(absolute: Result<UrlView, ParseFault>, relative: Result<UrlView, ParseFault>) -> Result<
    UrlView,
    HttpError,
> {
    match absolute {
        Ok(url) => Ok(url),
        Err(ParseFault::RelativeWithoutBase) => match relative {
            Ok(url) => Ok(url),
            Err(_) => Err(HttpError::InvalidUrl(UrlFault::CannotJoin)),
        },
        Err(ParseFault::Other) => Err(HttpError::InvalidUrl(UrlFault::InvalidRedirection)),
    }
}

/// What the engine does with a response that came from `url`, with
/// `status` and the headers `response`.
pub open spec fn decided(follow: bool, url: UrlView, status: u16, response: Fields) -> Result<
    VerdictView,
    HttpError,
> {
    match judged(follow, status, location_of(response)) {
        JudgementView::Deliver => Ok(VerdictView::Deliver),
        JudgementView::Fail(e) => Err(e),
        JudgementView::Seek(location) => match resolved(url_parse(location), url_join(url.href, location)) {
            Ok(next) => Ok(VerdictView::Follow(next)),
            Err(e) => Err(e),
        },
    }
}

/// What a response with `status` asks of the engine, given what a look for
/// its location found.
pub fn judge(follow: bool, status: u16, location: Option<Option<String>>) -> (r: Judgement)
    ensures
        r@ == judged(follow, status, found_view(location)),
{
    if !follow || !is_redirection(status) {
        return Judgement::Deliver;
    }
    match location {
        None => Judgement::Fail(HttpError::InvalidResponse(ResponseFault::NoLocation)),
        Some(None) => Judgement::Fail(HttpError::InvalidResponse(ResponseFault::LocationNotText)),
        Some(Some(text)) => Judgement::Seek(text),
    }
}

/// The target of a redirection whose location parsed to `absolute` on its
/// own: `None` where the location is relative and has to be joined.
pub fn absolute_target(absolute: Result<Url, ParseFault>) -> (r: Option<HttpResult<Url>>)
    ensures
        match absolute {
            Ok(url) => r is Some && r->0 is Ok && r->0->Ok_0@ == url@,
            Err(ParseFault::RelativeWithoutBase) => r is None,
            Err(ParseFault::Other) => r is Some && r->0 is Err && r->0->Err_0 == HttpError::InvalidUrl(
                UrlFault::InvalidRedirection,
            ),
        },
{
    match absolute {
        Ok(url) => Some(Ok(url)),
        Err(ParseFault::RelativeWithoutBase) => None,
        Err(ParseFault::Other) => Some(Err(HttpError::InvalidUrl(UrlFault::InvalidRedirection))),
    }
}

/// The target of a redirection whose relative location joined to `relative`.
pub fn joined_target(relative: Result<Url, ParseFault>) -> (r: HttpResult<Url>)
    ensures
        match relative {
            Ok(url) => r is Ok && r->Ok_0@ == url@,
            Err(_) => r is Err && r->Err_0 == HttpError::InvalidUrl(UrlFault::CannotJoin),
        },
{
    match relative {
        Ok(url) => Ok(url),
        Err(_) => Err(HttpError::InvalidUrl(UrlFault::CannotJoin)),
    }
}

impl Request {
    /// The URL that `location` sends to, for a response that came from
    /// `previous_url`.
    pub fn base_redirect_url(&self, location: &str, previous_url: &Url) -> (r: HttpResult<Url>)
        ensures
            match r {
                Ok(url) => resolved(url_parse(location@), url_join(previous_url@.href, location@)) == Ok::<
                    UrlView,
                    HttpError,
                >(url@),
                Err(e) => resolved(url_parse(location@), url_join(previous_url@.href, location@)) == Err::<
                    UrlView,
                    HttpError,
                >(e),
            },
    {
        match absolute_target(Url::parse(location)) {
            Some(target) => target,
            None => joined_target(previous_url.join(location)),
        }
    }

    /// What the engine does with a response that came from `url`, with
    /// `status` and `headers`: it delivers the response, fails, or goes on
    /// with a hop to another URL.
    pub fn on_response(&self, url: &Url, status: u16, headers: &Headers) -> (r: HttpResult<Verdict>)
        ensures
            match r {
                Ok(verdict) => decided(self@.redirect, url@, status, fields(*headers)) == Ok::<
                    VerdictView,
                    HttpError,
                >(verdict@),
                Err(e) => decided(self@.redirect, url@, status, fields(*headers)) == Err::<
                    VerdictView,
                    HttpError,
                >(e),
            },
    {
        proof {
            lemma_fixed_headers();
        }
        match judge(self.follows_redirects(), status, first_text(headers, "location")) {
            Judgement::Deliver => Ok(Verdict::Deliver),
            Judgement::Fail(e) => Err(e),
            Judgement::Seek(location) => match self.base_redirect_url(location.as_str(), url) {
                Ok(next) => Ok(Verdict::Follow(next)),
                Err(e) => Err(e),
            },
        }
    }
}

} // verus!
