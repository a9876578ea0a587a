//! Utilities for using the long-polling `/sync` API.

use vstd::prelude::*;
use vstd::string::*;
use crate::dict::{index_of, lookup};
use crate::errors::{MatrixError, MatrixErrorView, MatrixResult};
use crate::json::JsonView;
use crate::request::apis::r0::ClientApi;
use crate::request::{
    address_of, request_outcome, Async, HttpRequest, HttpRequestView, MatrixRequest,
    MatrixRequestable, Method, ResponseState, TypedApiResponse,
};
use crate::text::{decimal, owned, u64_to_string};
use crate::types::sync::SyncReply;

verus! {

/// The state of a sync stream.
pub ghost struct SyncState {
    /// The batch token of the last reply, where there was one.
    pub cursor: Option<Seq<char>>,
    /// Whether polling marks us as online.
    pub set_presence: bool,
    /// The long-polling timeout, in milliseconds.
    pub timeout: u64,
    /// The response to the request that is outstanding; `None` where none is.
    pub pending: Option<ResponseState>,
}

/// The query parameters of the `/sync` request that a stream makes: always
/// `set_presence`, and `since` and `timeout` where the stream has a cursor.
pub open spec fn sync_params(state: SyncState) -> Seq<(Seq<char>, Seq<char>)> {
    let presence = seq![
        (
            "set_presence"@,
            if state.set_presence {
                "online"@
            } else {
                "offline"@
            },
        ),
    ];
    match state.cursor {
        Some(since) => presence.push(("since"@, since)).push(
            ("timeout"@, decimal(state.timeout as nat)),
        ),
        None => presence,
    }
}

/// The HTTP request that a stream in `state` makes for a client.
pub open spec fn sync_request<C: MatrixRequestable>(state: SyncState, client: &C) -> Result<
    HttpRequestView,
    MatrixErrorView,
> {
    request_outcome(
        Method::Get,
        address_of(client, "/_matrix/client/r0"@, "/sync"@, sync_params(state)),
        JsonView::Null,
    )
}

impl SyncState {
    /// The state of a new stream: no cursor, no request outstanding, polling marks us as
    /// online, and the server is asked to hold a request for 30 seconds.
    pub open spec fn initial() -> SyncState {
        SyncState { cursor: None, set_presence: true, timeout: 30000, pending: None }
    }

    /// The state after a request was handed out to be sent.
    pub open spec fn sent(self) -> SyncState {
        SyncState { pending: Some(ResponseState::AwaitingHead), ..self }
    }

    /// The state after the outstanding request was answered with a reply whose batch token
    /// is `next_batch`: the token is the new cursor.
    pub open spec fn answered(self, next_batch: Seq<char>) -> SyncState {
        SyncState { cursor: Some(next_batch), pending: None, ..self }
    }

    /// The state after the outstanding request failed: the cursor stays where it was.
    pub open spec fn failed(self) -> SyncState {
        SyncState { pending: None, ..self }
    }

    /// The state after a round of polling in which the request was sent and then
    /// answered, with a batch token where it went well and with `None` where it failed.
    pub open spec fn after_round(self, outcome: Option<Seq<char>>) -> SyncState {
        match outcome {
            Some(next_batch) => self.sent().answered(next_batch),
            None => self.sent().failed(),
        }
    }

    /// The state after some rounds of polling, one after the other.
    pub open spec fn after_rounds(self, outcomes: Seq<Option<Seq<char>>>) -> SyncState
        decreases outcomes.len(),
    {
        if outcomes.len() == 0 {
            self
        } else {
            self.after_rounds(outcomes.drop_last()).after_round(outcomes.last())
        }
    }
}

/// The batch token of the last round that went well; `fallback` where none did.
pub open spec fn last_batch(outcomes: Seq<Option<Seq<char>>>, fallback: Option<Seq<char>>) -> Option<
    Seq<char>,
>
    decreases outcomes.len(),
{
    if outcomes.len() == 0 {
        fallback
    } else {
        match outcomes.last() {
            Some(next_batch) => Some(next_batch),
            None => last_batch(outcomes.drop_last(), fallback),
        }
    }
}

/// The `since` parameter of a request, where it has one.
pub open spec fn since_of(params: Seq<(Seq<char>, Seq<char>)>) -> Option<Seq<char>> {
    lookup(params, "since"@)
}

/// The request of a stream names its cursor in `since`, and has no `since` where the
/// stream has no cursor.
pub proof fn lemma_since_is_cursor(state: SyncState)
    ensures
        since_of(sync_params(state)) == state.cursor,
{
    reveal_strlit("since");
    reveal_strlit("timeout");
    reveal_strlit("set_presence");
    let params = sync_params(state);
    assert("since"@.len() != "timeout"@.len());
    assert("since"@.len() != "set_presence"@.len());
    match state.cursor {
        Some(since) => {
            assert(params.drop_last().last() == ("since"@, since));
            assert(index_of(params.drop_last(), "since"@) == Some(1int));
            assert(index_of(params, "since"@) == Some(1int));
        },
        None => {
            assert(params.drop_last() =~= Seq::empty());
            assert(index_of(params.drop_last(), "since"@) is None);
        },
    }
}

/// After any rounds of polling, the cursor is the batch token of the last round that went
/// well, and the stream is idle.
pub proof fn lemma_cursor_after_rounds(state: SyncState, outcomes: Seq<Option<Seq<char>>>)
    requires
        state.pending is None,
    ensures
        state.after_rounds(outcomes).cursor == last_batch(outcomes, state.cursor),
        state.after_rounds(outcomes).pending is None,
        state.after_rounds(outcomes).set_presence == state.set_presence,
        state.after_rounds(outcomes).timeout == state.timeout,
    decreases outcomes.len(),
{
    if outcomes.len() > 0 {
        lemma_cursor_after_rounds(state, outcomes.drop_last());
    }
}

/// The request that a new stream makes after any rounds of polling carries in `since` the
/// batch token of the last round that went well, and no `since` where no round went well
/// yet: in particular the first request carries none. A round that failed does not move
/// the cursor.
pub proof fn lemma_since_follows_replies(outcomes: Seq<Option<Seq<char>>>)
    ensures
        since_of(sync_params(SyncState::initial().after_rounds(outcomes))) == last_batch(
            outcomes,
            None,
        ),
        since_of(sync_params(SyncState::initial())) is None,
{
    lemma_cursor_after_rounds(SyncState::initial(), outcomes);
    lemma_since_is_cursor(SyncState::initial().after_rounds(outcomes));
    lemma_since_is_cursor(SyncState::initial());
}

/// What a round of polling hands to the caller.
#[derive(Debug)]
pub enum SyncPoll {
    /// A request to send. What comes back is fed to the stream with `head`, `chunk`,
    /// `end` or `fail`.
    Send(HttpRequest),
    /// The response to the outstanding request is not there yet.
    NotReady,
    /// The reply to the outstanding request.
    Ready(SyncReply),
}

/// A stream of replies to `/sync`.
///
/// This calls the long-polling `/sync` API, which will wait until replies come
/// in and send them to the client. If you want to reduce the wait time, use the
/// `set_timeout()` function.
///
/// The stream is pulled: it hands out its next request only when it is polled while no
/// request is outstanding, so that never more than one is. The first reply holds
/// everything since the account began, and callers that want what is new skip it.
#[derive(Debug)]
pub struct SyncStream {
    last_batch: Option<String>,
    set_presence: bool,
    timeout: u64,
    cur_req: Option<TypedApiResponse>,
}

impl SyncStream {
    /// The state of the stream.
    pub closed spec fn state(&self) -> SyncState {
        SyncState {
            cursor: self.last_batch.deep_view(),
            set_presence: self.set_presence,
            timeout: self.timeout,
            pending: match self.cur_req {
                Some(response) => Some(response.state()),
                None => None,
            },
        }
    }

    /// Make a new `SyncStream`.
    pub fn new() -> (r: SyncStream)
        ensures
            r.state() == SyncState::initial(),
    {
        SyncStream { last_batch: None, set_presence: true, timeout: 30_000, cur_req: None }
    }

    /// Set whether polling the `/sync` API marks us as online.
    pub fn set_sync_sets_presence(&mut self, v: bool)
        ensures
            final(self).state() == (SyncState { set_presence: v, ..old(self).state() }),
    {
        self.set_presence = v;
    }

    /// Ascertain whether polling the `/sync` API marks us as online.
    ///
    /// The default value is `true`; `/sync` sets presence.
    pub fn sync_sets_presence(&self) -> (r: bool)
        ensures
            r == self.state().set_presence,
    {
        self.set_presence
    }

    /// Get the current long-polling timeout.
    pub fn timeout(&self) -> (r: u64)
        ensures
            r == self.state().timeout,
    {
        self.timeout
    }

    /// Set a timeout (in milliseconds) for the server long-polling, after which
    /// the homeserver should return a blank reply instead of continuing to wait
    /// for new events.
    ///
    /// The default value is `30000` (30 seconds).
    ///
    /// This does not guard against other problems, such as connection loss;
    /// this merely *asks* the HS for a given timeout.
    pub fn set_timeout(&mut self, timeout: u64)
        ensures
            final(self).state() == (SyncState { timeout, ..old(self).state() }),
    {
        self.timeout = timeout;
    }

    /// The batch token that the next request will name in `since`.
    pub fn cursor(&self) -> (r: Option<&str>)
        ensures
            r.deep_view() == self.state().cursor,
    {
        match &self.last_batch {
            Some(s) => Some(s.as_str()),
            None => None,
        }
    }

    /// Whether a request is outstanding.
    pub fn is_awaiting(&self) -> (r: bool)
        ensures
            r == (self.state().pending is Some),
    {
        self.cur_req.is_some()
    }

    /// The `/sync` request for the state that the stream is in.
    pub fn req(&self) -> (r: MatrixRequest<ClientApi>)
        ensures
            r.meth == Method::Get,
            r.endpoint@ == "/sync"@,
            r.params.deep_view() == sync_params(self.state()),
            r.body@ == JsonView::Null,
            r.typ == ClientApi,
    {
        proof {
            reveal_strlit("since");
            reveal_strlit("timeout");
            reveal_strlit("set_presence");
            assert("since"@.len() != "timeout"@.len());
            assert("since"@.len() != "set_presence"@.len());
            assert("timeout"@.len() != "set_presence"@.len());
        }
        let mut request = MatrixRequest::new_basic(Method::Get, "/sync");
        let presence = if self.set_presence {
            owned("online")
        } else {
            owned("offline")
        };
        let ghost p0 = request.params.deep_view();
        request.params.insert(owned("set_presence"), presence);
        let ghost p1 = request.params.deep_view();
        assert(p1 =~= seq![("set_presence"@, presence@)]);
        if let Some(batch) = &self.last_batch {
            request.params.insert(owned("since"), batch.clone());
            let ghost p2 = request.params.deep_view();
            assert(p1.drop_last() =~= Seq::empty());
            assert(index_of(p1.drop_last(), "since"@) is None);
            assert(index_of(p1.drop_last(), "timeout"@) is None);
            assert(p1.last().0 == "set_presence"@);
            assert(index_of(p1, "since"@) is None);
            assert(p2 =~= p1.push(("since"@, batch@)));
            request.params.insert(owned("timeout"), u64_to_string(self.timeout));
            assert(p2.drop_last() =~= p1);
            assert(index_of(p1, "timeout"@) is None);
            assert(index_of(p2, "timeout"@) is None);
        }
        request
    }

    /// Polls the stream.
    ///
    /// Where no request is outstanding, the stream builds its next request and hands it
    /// out to be sent; building it does no I/O, and where it fails the stream stays as it
    /// was. Where a request is outstanding, the stream hands out the reply once the whole
    /// response is there, and makes the reply's batch token its cursor in the same step;
    /// a failed request is reported and leaves the cursor where it was. After a reply or a
    /// failure no request is outstanding, and nothing is retried unless the caller polls
    /// again.
    pub fn poll<C: MatrixRequestable>(&mut self, client: &C) -> (r: MatrixResult<SyncPoll>)
        ensures
            match old(self).state().pending {
                None => match sync_request(old(self).state(), client) {
                    Ok(request) => r matches Ok(SyncPoll::Send(sent)) && sent.deep_view()
                        == request && final(self).state() == old(self).state().sent(),
                    Err(error) => r matches Err(e) && e.deep_view() == error && final(self).state() == old(self).state(),
                },
                Some(response) => match response.typed::<SyncReply>() {
                    None => r matches Ok(SyncPoll::NotReady) && final(self).state() == old(self).state(),
                    Some(Ok(reply)) => r matches Ok(SyncPoll::Ready(got)) && got.deep_view()
                        == reply && final(self).state() == old(self).state().answered(
                        reply.next_batch,
                    ),
                    Some(Err(error)) => r matches Err(e) && e.deep_view() == error && final(self).state() == old(self).state().failed(),
                },
            },
    {
        match &self.cur_req {
            Some(response) => match response.poll::<SyncReply>() {
                Ok(Async::Ready(reply)) => {
                    self.last_batch = Some(reply.next_batch.clone());
                    self.cur_req = None;
                    Ok(SyncPoll::Ready(reply))
                },
                Ok(Async::NotReady) => Ok(SyncPoll::NotReady),
                Err(e) => {
                    self.cur_req = None;
                    Err(e)
                },
            },
            None => {
                let request = self.req();
                match request.make_request(client) {
                    Ok(sent) => {
                        self.cur_req = Some(TypedApiResponse::new());
                        Ok(SyncPoll::Send(sent))
                    },
                    Err(e) => Err(e),
                }
            },
        }
    }

    /// The head of the response to the outstanding request arrived.
    pub fn head(&mut self, status: u16)
        ensures
            final(self).state() == (SyncState {
                pending: match old(self).state().pending {
                    Some(response) => Some(response.head(status)),
                    None => None,
                },
                ..old(self).state()
            }),
    {
        match &mut self.cur_req {
            Some(response) => {
                response.head(status);
            },
            None => {},
        }
    }

    /// A part of the body of the response to the outstanding request arrived.
    pub fn chunk(&mut self, bytes: &[u8])
        ensures
            final(self).state() == (SyncState {
                pending: match old(self).state().pending {
                    Some(response) => Some(response.chunk(bytes@)),
                    None => None,
                },
                ..old(self).state()
            }),
    {
        match &mut self.cur_req {
            Some(response) => {
                response.chunk(bytes);
            },
            None => {},
        }
    }

    /// The body of the response to the outstanding request ended.
    pub fn end(&mut self)
        ensures
            final(self).state() == (SyncState {
                pending: match old(self).state().pending {
                    Some(response) => Some(response.end()),
                    None => None,
                },
                ..old(self).state()
            }),
    {
        match &mut self.cur_req {
            Some(response) => {
                response.end();
            },
            None => {},
        }
    }

    /// The outstanding request failed before its response was there.
    pub fn fail(&mut self, error: MatrixError)
        ensures
            final(self).state() == (SyncState {
                pending: match old(self).state().pending {
                    Some(response) => Some(response.fail(error.deep_view())),
                    None => None,
                },
                ..old(self).state()
            }),
    {
        match &mut self.cur_req {
            Some(response) => {
                response.fail(error);
            },
            None => {},
        }
    }
}

} // verus!
