//! The course of a send, hop by hop.
//!
//! A send is a loop around three steps of the engine: [`Request::connect`]
//! names the endpoint of a hop, [`Request::write_request`] gives the bytes to
//! write to it, and [`Request::on_response`] says what to do with what comes
//! back. The loop itself belongs to whoever owns the streams. This file says
//! what every such loop amounts to, over the responses that it meets, and
//! states what holds of it.
//!
//! The engine sets no limit to the number of hops. Two URLs that redirect to
//! each other keep a send going for as long as responses come: a loop that
//! wants a bound has to count its hops.

use vstd::prelude::*;
use vstd::string::StringSliceAdditionalSpecFns;
use crate::connect::endpoint_of;
use crate::error::{HttpError, ResponseFault};
use crate::headers::{fields, first, Fields, Headers};
use crate::redirect::{decided, location_of, redirection, resolved, Verdict, VerdictView};
use crate::request::{prepared, Request, RequestView};
use crate::url::{url_join, url_parse, ParseFault, Url, UrlView};
use crate::wire::{message, request_line};

verus! {

/// A response, as far as the engine reads it.
pub struct Response {
    /// The status code.
    pub status: u16,
    /// The headers.
    pub headers: Fields,
}

/// How a send ends.
pub enum Outcome {
    /// This response went to the caller.
    Delivered(Response),
    /// This error went to the caller.
    Failed(HttpError),
    /// The send waits for a response.
    Waiting,
}

/// The course of a send.
pub struct Course {
    /// The URLs that a connection was made for, in order.
    pub hops: Seq<UrlView>,
    /// The requests that were written, in order.
    pub requests: Seq<Seq<u8>>,
    /// How the send ended.
    pub outcome: Outcome,
}

/// Whether a hop to `url` can be made with a request whose headers are `f`:
/// there is an endpoint for the URL, and the request can be written.
pub open spec fn can_hop(f: Fields, url: UrlView) -> bool {
    endpoint_of(url) is Ok && prepared(f, url).1 is Ok
}

/// The course of a send of `request` whose next hop goes to `url`, over the
/// responses that the hops meet, one for each hop. Streams that fail are
/// left out: each connection is made, and each request is written.
#[verifier::opaque]
pub open spec fn course(request: RequestView, url: UrlView, responses: Seq<Response>) -> Course
    decreases responses.len(),
{
    if endpoint_of(url) is Err {
        Course {
            hops: Seq::empty(),
            requests: Seq::empty(),
            outcome: Outcome::Failed(endpoint_of(url)->Err_0),
        }
    } else if prepared(request.headers, url).1 is Err {
        Course {
            hops: seq![url],
            requests: Seq::empty(),
            outcome: Outcome::Failed(HttpError::Header(prepared(request.headers, url).1->Err_0)),
        }
    } else {
        let written = message(request.method, url, prepared(request.headers, url).0);
        if responses.len() == 0 {
            Course { hops: seq![url], requests: seq![written], outcome: Outcome::Waiting }
        } else {
            match decided(request.redirect, url, responses[0].status, responses[0].headers) {
                Ok(VerdictView::Deliver) => Course {
                    hops: seq![url],
                    requests: seq![written],
                    outcome: Outcome::Delivered(responses[0]),
                },
                Err(e) => Course { hops: seq![url], requests: seq![written], outcome: Outcome::Failed(e) },
                Ok(VerdictView::Follow(next)) => {
                    let rest = course(
                        RequestView { headers: prepared(request.headers, url).0, ..request },
                        next,
                        responses.drop_first(),
                    );
                    Course {
                        hops: seq![url] + rest.hops,
                        requests: seq![written] + rest.requests,
                        outcome: rest.outcome,
                    }
                },
            }
        }
    }
}

/// A response at hand: its status and its headers.
pub struct Reply {
    /// The status code.
    pub status: u16,
    /// The headers.
    pub headers: Headers,
}

impl View for Reply {
    type V = Response;

    open spec fn view(&self) -> Response {
        Response { status: self.status, headers: fields(self.headers) }
    }
}

/// The responses that `replies` hold, in order.
pub open spec fn responses_of(replies: Seq<Reply>) -> Seq<Response> {
    Seq::new(replies.len(), |i: int| replies[i]@)
}

/// How a replay ended.
#[derive(Clone, Copy, Debug, PartialEq, Eq, Structural)]
pub enum End {
    /// The reply at this index went to the caller.
    Delivered(usize),
    /// This error went to the caller.
    Failed(HttpError),
    /// The replies ran out: the send waits for a response.
    Waiting,
}

/// What a replay did.
#[derive(Debug)]
pub struct Replay {
    /// The URLs that a connection was asked for, in order.
    pub hops: Vec<Url>,
    /// The requests that were written, in order.
    pub requests: Vec<Vec<u8>>,
    /// How the replay ended.
    pub end: End,
}

impl Replay {
    /// The course that the replay stands for, over the responses it was given.
    pub open spec fn course(self, responses: Seq<Response>) -> Course {
        Course {
            hops: Seq::new(self.hops@.len(), |i: int| self.hops@[i]@),
            requests: Seq::new(self.requests@.len(), |i: int| self.requests@[i]@),
            outcome: match self.end {
                End::Delivered(i) => Outcome::Delivered(responses[i as int]),
                End::Failed(e) => Outcome::Failed(e),
                End::Waiting => Outcome::Waiting,
            },
        }
    }
}

/// What one hop of a replay came to.
enum Turn {
    /// The replay ends with this hop.
    Stop { connected: bool, sent: Option<Vec<u8>>, end: End },
    /// The replay goes on with a hop to `next`.
    Go { written: Vec<u8>, next: Url },
}

/// One hop of a replay: the hop to `url`, which meets the reply at `i` if
/// there is one.
fn turn(request: &mut Request, url: &Url, replies: &[Reply], i: usize) -> (t: Turn)
    requires
        i <= replies@.len(),
    ensures
        t matches Turn::Stop { connected, sent, end } ==> {
            let here = course(old(request)@, url@, responses_of(replies@).skip(i as int));
            &&& here.hops == if connected {
                seq![url@]
            } else {
                Seq::empty()
            }
            &&& here.requests == match sent {
                Some(bytes) => seq![bytes@],
                None => Seq::empty(),
            }
            &&& match end {
                End::Delivered(at) => at == i && i < replies@.len() && here.outcome
                    == Outcome::Delivered(replies@[i as int]@),
                End::Failed(e) => here.outcome == Outcome::Failed(e),
                End::Waiting => here.outcome == Outcome::Waiting,
            }
        },
        t matches Turn::Go { written, next } ==> {
            let here = course(old(request)@, url@, responses_of(replies@).skip(i as int));
            let rest = course(final(request)@, next@, responses_of(replies@).skip(i + 1));
            &&& i < replies@.len()
            &&& here.hops == seq![url@] + rest.hops
            &&& here.requests == seq![written@] + rest.requests
            &&& here.outcome == rest.outcome
        },
{
    reveal(course);
    let ghost all = responses_of(replies@);
    match request.connect(url) {
        Ok(_) => {},
        Err(e) => {
            return Turn::Stop { connected: false, sent: None, end: End::Failed(e) };
        },
    }
    let written = match request.write_request(url) {
        Ok(bytes) => bytes,
        Err(e) => {
            return Turn::Stop { connected: true, sent: None, end: End::Failed(e) };
        },
    };
    if i >= replies.len() {
        return Turn::Stop { connected: true, sent: Some(written), end: End::Waiting };
    }
    let reply = &replies[i];
    assert(all.skip(i as int)[0] == reply@);
    assert(all.skip(i as int).drop_first() =~= all.skip(i + 1));
    match request.on_response(url, reply.status, &reply.headers) {
        Ok(Verdict::Deliver) => Turn::Stop { connected: true, sent: Some(written), end: End::Delivered(i) },
        Ok(Verdict::Follow(next)) => Turn::Go { written, next },
        Err(e) => Turn::Stop { connected: true, sent: Some(written), end: End::Failed(e) },
    }
}

impl Request {
    /// Sends the request without streams: every connection counts as made,
    /// every request as written, and the responses are the given ones, one
    /// for each hop. The replay ends as the send would, or waits where the
    /// replies run out.
    pub fn replay(self, replies: &[Reply]) -> (r: Replay)
        ensures
            r.end matches End::Delivered(i) ==> i < replies@.len(),
            r.course(responses_of(replies@)) == course(self@, self@.url, responses_of(replies@)),
    {
        let ghost all = responses_of(replies@);
        let ghost start = self@;
        let ghost whole = course(start, start.url, all);
        let count = replies.len();
        let mut request = self;
        let mut url = request.url().clone();
        let mut hops: Vec<Url> = Vec::new();
        let mut requests: Vec<Vec<u8>> = Vec::new();
        let mut i: usize = 0;
        assert(all.skip(0) =~= all);
        loop
            invariant
                i <= replies@.len(),
                count == replies@.len(),
                all == responses_of(replies@),
                start == self@,
                whole == course(start, start.url, all),
                whole.hops == Seq::new(hops@.len(), |k: int| hops@[k]@) + course(
                    request@,
                    url@,
                    all.skip(i as int),
                ).hops,
                whole.requests == Seq::new(requests@.len(), |k: int| requests@[k]@) + course(
                    request@,
                    url@,
                    all.skip(i as int),
                ).requests,
                whole.outcome == course(request@, url@, all.skip(i as int)).outcome,
            decreases replies@.len() - i,
        {
            let ghost seen = Seq::new(hops@.len(), |k: int| hops@[k]@);
            let ghost sent = Seq::new(requests@.len(), |k: int| requests@[k]@);
            match turn(&mut request, &url, replies, i) {
                Turn::Stop { connected, sent, end } => {
                    if connected {
                        hops.push(url);
                    }
                    match sent {
                        Some(bytes) => {
                            requests.push(bytes);
                        },
                        None => {},
                    }
                    let r = Replay { hops, requests, end };
                    assert(r.course(all).hops =~= whole.hops);
                    assert(r.course(all).requests =~= whole.requests);
                    assert(r.course(all).outcome == whole.outcome) by {
                        if end is Delivered {
                            assert(all[i as int] == replies@[i as int]@);
                        }
                    }
                    return r;
                },
                Turn::Go { written, next } => {
                    hops.push(url);
                    requests.push(written);
                    url = next;
                    i += 1;
                    assert(Seq::new(hops@.len(), |k: int| hops@[k]@) =~= seen + seq![hops@.last()@]);
                    assert(Seq::new(requests@.len(), |k: int| requests@[k]@) =~= sent + seq![
                        requests@.last()@,
                    ]);
                    assert(whole.hops =~= Seq::new(hops@.len(), |k: int| hops@[k]@) + course(
                        request@,
                        url@,
                        all.skip(i as int),
                    ).hops);
                    assert(whole.requests =~= Seq::new(requests@.len(), |k: int| requests@[k]@)
                        + course(request@, url@, all.skip(i as int)).requests);
                },
            }
        }
    }
}

/// The URL that a response from `url` redirects to: it has a status of the
/// redirection class and a location that resolves.
pub open spec fn redirects_to(url: UrlView, response: Response) -> Option<UrlView> {
    if redirection(response.status) {
        match location_of(response.headers) {
            Some(Some(location)) => match resolved(url_parse(location), url_join(url.href, location)) {
                Ok(next) => Some(next),
                Err(_) => None,
            },
            _ => None,
        }
    } else {
        None
    }
}

/// Whether `responses` is a chain of redirections that starts at `url`,
/// each to a URL that a hop can be made to, with one response after it that
/// is no redirection.
pub open spec fn is_chain(f: Fields, url: UrlView, responses: Seq<Response>) -> bool
    decreases responses.len(),
{
    if responses.len() == 0 {
        false
    } else if responses.len() == 1 {
        can_hop(f, url) && !redirection(responses[0].status)
    } else {
        &&& can_hop(f, url)
        &&& redirects_to(url, responses[0]) is Some
        &&& is_chain(prepared(f, url).0, redirects_to(url, responses[0])->0, responses.drop_first())
    }
}

/// A response that is no redirection ends the send: one connection is made,
/// and the response goes to the caller as it came.
pub proof fn law_final_response(request: RequestView, url: UrlView, responses: Seq<Response>)
    requires
        can_hop(request.headers, url),
        responses.len() > 0,
        !redirection(responses[0].status),
    ensures
        course(request, url, responses) == (Course {
            hops: seq![url],
            requests: seq![message(request.method, url, prepared(request.headers, url).0)],
            outcome: Outcome::Delivered(responses[0]),
        }),
{
    reveal(course);
}

/// A chain of redirections with a last response after it takes one
/// connection for each response, and the last response goes to the caller.
pub proof fn law_chain(request: RequestView, url: UrlView, responses: Seq<Response>)
    requires
        request.redirect,
        is_chain(request.headers, url, responses),
    ensures
        course(request, url, responses).hops.len() == responses.len(),
        course(request, url, responses).requests.len() == responses.len(),
        course(request, url, responses).outcome == Outcome::Delivered(responses.last()),
    decreases responses.len(),
{
    reveal(course);
    if responses.len() > 1 {
        let next = redirects_to(url, responses[0])->0;
        let after = RequestView { headers: prepared(request.headers, url).0, ..request };
        law_chain(after, next, responses.drop_first());
        assert(responses.drop_first().last() == responses.last());
    }
}

/// Each hop but the first goes where the response to the hop before it
/// sent the engine: a location is read against the URL of the hop that it
/// came from, whatever URL the send began with.
pub proof fn law_hop_follows_hop(request: RequestView, url: UrlView, responses: Seq<Response>, i: int)
    requires
        0 <= i,
        i + 1 < course(request, url, responses).hops.len(),
    ensures
        i < responses.len(),
        decided(
            request.redirect,
            course(request, url, responses).hops[i],
            responses[i].status,
            responses[i].headers,
        ) == Ok::<VerdictView, HttpError>(
            VerdictView::Follow(course(request, url, responses).hops[i + 1]),
        ),
    decreases responses.len(),
{
    reveal(course);
    let all = course(request, url, responses);
    if endpoint_of(url) is Err {
    } else if prepared(request.headers, url).1 is Err {
    } else if responses.len() == 0 {
    } else {
        match decided(request.redirect, url, responses[0].status, responses[0].headers) {
            Ok(VerdictView::Follow(next)) => {
                let after = RequestView { headers: prepared(request.headers, url).0, ..request };
                let rest = course(after, next, responses.drop_first());
                assert(all.hops == seq![url] + rest.hops);
                assert(rest.hops.len() > 0);
                lemma_first_hop(after, next, responses.drop_first());
                if i == 0 {
                    assert(all.hops[1] == rest.hops[0]);
                } else {
                    law_hop_follows_hop(after, next, responses.drop_first(), i - 1);
                    assert(all.hops[i] == rest.hops[i - 1]);
                    assert(all.hops[i + 1] == rest.hops[i]);
                    assert(responses.drop_first()[i - 1] == responses[i]);
                }
            },
            _ => {},
        }
    }
}

/// Every request that is written begins with the request line of its hop:
/// the method of the request, and the path and the query of the URL that
/// the hop goes to.
pub proof fn law_request_line(request: RequestView, url: UrlView, responses: Seq<Response>, i: int)
    requires
        0 <= i < course(request, url, responses).requests.len(),
    ensures
        i < course(request, url, responses).hops.len(),
        request_line(request.method, course(request, url, responses).hops[i]).is_prefix_of(
            course(request, url, responses).requests[i],
        ),
    decreases responses.len(),
{
    reveal(course);
    let all = course(request, url, responses);
    if endpoint_of(url) is Err {
    } else if prepared(request.headers, url).1 is Err {
    } else {
        let written = message(request.method, url, prepared(request.headers, url).0);
        let line = request_line(request.method, url);
        assert(line =~= written.subrange(0, line.len() as int));
        if responses.len() > 0 {
            match decided(request.redirect, url, responses[0].status, responses[0].headers) {
                Ok(VerdictView::Follow(next)) => {
                    let after = RequestView { headers: prepared(request.headers, url).0, ..request };
                    let rest = course(after, next, responses.drop_first());
                    if i > 0 {
                        law_request_line(after, next, responses.drop_first(), i - 1);
                        assert(all.hops[i] == rest.hops[i - 1]);
                        assert(all.requests[i] == rest.requests[i - 1]);
                    }
                },
                _ => {},
            }
        }
    }
}

/// A send that connects at all connects to the URL it was begun with.
pub proof fn lemma_first_hop(request: RequestView, url: UrlView, responses: Seq<Response>)
    requires
        course(request, url, responses).hops.len() > 0,
    ensures
        course(request, url, responses).hops[0] == url,
{
    reveal(course);
}

/// A relative location is joined with the URL of the hop it came from.
pub proof fn law_relative_location(follow: bool, url: UrlView, response: Response, location: Seq<char>)
    requires
        follow,
        redirection(response.status),
        location_of(response.headers) == Some(Some(location)),
        url_parse(location) is Err,
        url_parse(location)->Err_0 == ParseFault::RelativeWithoutBase,
        url_join(url.href, location) is Ok,
    ensures
        decided(follow, url, response.status, response.headers) == Ok::<VerdictView, HttpError>(
            VerdictView::Follow(url_join(url.href, location)->Ok_0),
        ),
{
}

/// An engine that does not follow redirections delivers every response as
/// it came, after one connection.
pub proof fn law_redirect_disabled(request: RequestView, url: UrlView, responses: Seq<Response>)
    requires
        !request.redirect,
        can_hop(request.headers, url),
        responses.len() > 0,
    ensures
        course(request, url, responses) == (Course {
            hops: seq![url],
            requests: seq![message(request.method, url, prepared(request.headers, url).0)],
            outcome: Outcome::Delivered(responses[0]),
        }),
{
    reveal(course);
}

/// A redirection without a location fails the send, after one connection.
pub proof fn law_missing_location(request: RequestView, url: UrlView, responses: Seq<Response>)
    requires
        request.redirect,
        can_hop(request.headers, url),
        responses.len() > 0,
        redirection(responses[0].status),
        first(responses[0].headers, "location".spec_bytes()) is None,
    ensures
        course(request, url, responses) == (Course {
            hops: seq![url],
            requests: seq![message(request.method, url, prepared(request.headers, url).0)],
            outcome: Outcome::Failed(HttpError::InvalidResponse(ResponseFault::NoLocation)),
        }),
{
    reveal(course);
}

} // verus!
