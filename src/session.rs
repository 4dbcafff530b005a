use vstd::prelude::*;
use vstd::string::StringSliceAdditionalSpecFns;
use vstd::utf8::encode_utf8;
use crate::page::{
    bridge_page, mismatch_text, success_page, BRIDGE_PAGE, MISMATCH_TEXT, SUCCESS_PAGE,
};
use crate::router::{
    classify, is_token_target, kind_of, state_param, token_query, RequestKind,
};
use crate::token::{issue_state, is_v4_uuid_text};

verus! {

/// What the caller of a session start gets back: the bound loopback port and
/// the state token, from which it builds the provider's authorization URL.
pub struct AuthServerInfo {
    pub port: u16,
    pub state: String,
}

/// Where a session stands.
#[derive(Clone, Copy, Debug, PartialEq, Eq, Structural)]
pub enum SessionStatus {
    /// The listener runs and no valid token has come yet.
    Pending,
    /// A submission with the right state was received and its payload relayed.
    Fulfilled,
    /// The listener was stopped before any valid submission came.
    Aborted,
}

/// An HTTP answer: status code, whether the body is HTML (`text/html;
/// charset=utf-8`) rather than plain text, and the body.
pub struct Reply {
    pub status: u16,
    pub html: bool,
    pub body: String,
}

impl View for Reply {
    type V = (u16, bool, Seq<char>);

    open spec fn view(&self) -> (u16, bool, Seq<char>) {
        (self.status, self.html, self.body@)
    }
}

/// What the host does for one request: first relay `relay` to the
/// application, if present, then send `reply`, if present. A request that
/// reaches a session that has already ended gets neither.
pub struct Outcome {
    pub relay: Option<String>,
    pub reply: Option<Reply>,
}

/// The text held by an optional string.
pub open spec fn text_of(o: Option<String>) -> Option<Seq<char>> {
    match o {
        Some(s) => Some(s@),
        None => None,
    }
}

/// The view of an optional reply.
pub open spec fn reply_view(o: Option<Reply>) -> Option<(u16, bool, Seq<char>)> {
    match o {
        Some(r) => Some(r@),
        None => None,
    }
}

/// True when a request of this kind, reaching a session in this status,
/// fulfils it.
pub open spec fn fulfils(status: SessionStatus, kind: RequestKind) -> bool {
    status == SessionStatus::Pending && kind == RequestKind::Token
}

/// The status after one request of the given kind.
pub open spec fn next_status(status: SessionStatus, kind: RequestKind) -> SessionStatus {
    if fulfils(status, kind) {
        SessionStatus::Fulfilled
    } else {
        status
    }
}

/// The payload relayed for one request: the submitted body, or the empty
/// text when the body could not be read (`None`); nothing unless the request
/// fulfils the session.
pub open spec fn relay_of(status: SessionStatus, kind: RequestKind, body: Option<Seq<char>>) -> Option<Seq<char>> {
    if fulfils(status, kind) {
        match body {
            Some(b) => Some(b),
            None => Some(Seq::empty()),
        }
    } else {
        None
    }
}

/// The answer to one request: none once the session has ended; otherwise
/// the bridge page, the state-mismatch text with status 403, or the success page.
pub open spec fn reply_of(status: SessionStatus, kind: RequestKind) -> Option<(u16, bool, Seq<char>)> {
    if status != SessionStatus::Pending {
        None
    } else {
        match kind {
            RequestKind::Bridge => Some((200u16, true, BRIDGE_PAGE@)),
            RequestKind::StateMismatch => Some((403u16, false, MISMATCH_TEXT@)),
            RequestKind::Token => Some((200u16, true, SUCCESS_PAGE@)),
        }
    }
}

/// One authorization session: its state token, the port its listener is
/// bound to, and its status.
pub struct AuthSession {
    state: String,
    port: u16,
    status: SessionStatus,
}

impl AuthSession {
    /// The session's state token.
    pub closed spec fn state_view(&self) -> Seq<char> {
        self.state@
    }

    /// The session's state token as UTF-8 bytes, as it is compared with
    /// the request target.
    pub open spec fn state_bytes(&self) -> Seq<u8> {
        encode_utf8(self.state_view())
    }

    /// The port the session's listener is bound to.
    pub closed spec fn port_view(&self) -> u16 {
        self.port
    }

    /// The session's status.
    pub closed spec fn status_view(&self) -> SessionStatus {
        self.status
    }

    /// A session's port is a real port: never zero.
    pub open spec fn well_formed(&self) -> bool {
        self.port_view() >= 1
    }

    /// Opens a session on a listener bound to `port`, with a freshly issued
    /// state token.
    pub fn new(port: u16) -> (r: AuthSession)
        requires
            port >= 1,
        ensures
            r.well_formed(),
            r.port_view() == port,
            r.status_view() == SessionStatus::Pending,
            is_v4_uuid_text(r.state_view()),
    {
        AuthSession { state: issue_state(), port, status: SessionStatus::Pending }
    }

    /// The port and state handed to the caller that started the session.
    pub fn info(&self) -> (r: AuthServerInfo)
        ensures
            r.port == self.port_view(),
            r.state@ == self.state_view(),
    {
        AuthServerInfo { port: self.port, state: self.state.clone() }
    }

    /// The session's state token.
    pub fn state(&self) -> (r: &str)
        ensures
            r@ == self.state_view(),
    {
        self.state.as_str()
    }

    /// The port the session's listener is bound to.
    pub fn port(&self) -> (r: u16)
        ensures
            r == self.port_view(),
    {
        self.port
    }

    /// The session's status.
    pub fn status(&self) -> (r: SessionStatus)
        ensures
            r == self.status_view(),
    {
        self.status
    }

    /// Whether the listener must stop: the session is no longer pending.
    pub fn is_terminated(&self) -> (r: bool)
        ensures
            r == (self.status_view() != SessionStatus::Pending),
    {
        self.status != SessionStatus::Pending
    }

    /// How a request with this method and target is to be answered; the
    /// host reads the request body only for `RequestKind::Token`.
    pub fn classify(&self, is_post: bool, target: &str) -> (r: RequestKind)
        ensures
            r == kind_of(is_post, target.spec_bytes(), self.state_bytes()),
    {
        classify(is_post, target, self.state.as_str())
    }

    /// Processes one request: its method, its target, and its body as read
    /// by the host (`None` where it was not read or could not be read).
    ///
    /// While the session is pending, a token submission with the right state
    /// relays the body and answers with the success page, and the session is
    /// fulfilled; one with a wrong or missing state is answered with 403 and
    /// the session goes on; any other request gets the bridge page. Once the
    /// session has ended, nothing is relayed or answered.
    pub fn handle(&mut self, is_post: bool, target: &str, body: Option<String>) -> (r: Outcome)
        ensures
            final(self).state_view() == old(self).state_view(),
            final(self).port_view() == old(self).port_view(),
            final(self).status_view() == next_status(
                old(self).status_view(),
                kind_of(is_post, target.spec_bytes(), old(self).state_bytes()),
            ),
            text_of(r.relay) == relay_of(
                old(self).status_view(),
                kind_of(is_post, target.spec_bytes(), old(self).state_bytes()),
                text_of(body),
            ),
            reply_view(r.reply) == reply_of(
                old(self).status_view(),
                kind_of(is_post, target.spec_bytes(), old(self).state_bytes()),
            ),
    {
        if self.status != SessionStatus::Pending {
            return Outcome { relay: None, reply: None };
        }
        match self.classify(is_post, target) {
            RequestKind::Bridge => Outcome {
                relay: None,
                reply: Some(Reply { status: 200, html: true, body: bridge_page() }),
            },
            RequestKind::StateMismatch => Outcome {
                relay: None,
                reply: Some(Reply { status: 403, html: false, body: mismatch_text() }),
            },
            RequestKind::Token => {
                let payload = match body {
                    Some(b) => b,
                    None => String::new(),
                };
                self.status = SessionStatus::Fulfilled;
                Outcome {
                    relay: Some(payload),
                    reply: Some(Reply { status: 200, html: true, body: success_page() }),
                }
            },
        }
    }

    /// Stops a pending session without a credential; an ended session keeps
    /// its status.
    pub fn abort(&mut self)
        ensures
            final(self).state_view() == old(self).state_view(),
            final(self).port_view() == old(self).port_view(),
            final(self).status_view() == (if old(self).status_view() == SessionStatus::Pending {
                SessionStatus::Aborted
            } else {
                old(self).status_view()
            }),
    {
        if self.status == SessionStatus::Pending {
            self.status = SessionStatus::Aborted;
        }
    }
}

/// The number of payloads relayed when the requests `reqs` (each a method
/// flag, a target and a body) reach, in order, a session in `status` whose
/// state token has the bytes `state`.
pub open spec fn relays_in_run(
    status: SessionStatus,
    state: Seq<u8>,
    reqs: Seq<(bool, Seq<u8>, Option<Seq<char>>)>,
) -> nat
    decreases reqs.len(),
{
    if reqs.len() == 0 {
        0
    } else {
        let kind = kind_of(reqs[0].0, reqs[0].1, state);
        let here: nat = if relay_of(status, kind, reqs[0].2) is Some {
            1
        } else {
            0
        };
        here + relays_in_run(next_status(status, kind), state, reqs.drop_first())
    }
}

/// At most one fulfilment: whatever requests reach a session, and in
/// whatever order, at most one payload is relayed; a session that is no
/// longer pending relays none.
pub proof fn at_most_one_relay(
    status: SessionStatus,
    state: Seq<u8>,
    reqs: Seq<(bool, Seq<u8>, Option<Seq<char>>)>,
)
    ensures
        relays_in_run(status, state, reqs) <= 1,
        status != SessionStatus::Pending ==> relays_in_run(status, state, reqs) == 0,
    decreases reqs.len(),
{
    if reqs.len() > 0 {
        let kind = kind_of(reqs[0].0, reqs[0].1, state);
        at_most_one_relay(next_status(status, kind), state, reqs.drop_first());
    }
}

/// A token submission whose state is wrong or missing, with any body, is
/// answered with 403 while the session is pending, is never relayed, and
/// leaves the session's status as it was.
pub proof fn wrong_state_is_refused(
    status: SessionStatus,
    target: Seq<u8>,
    state: Seq<u8>,
    body: Option<Seq<char>>,
)
    requires
        is_token_target(target),
        state_param(token_query(target)) != Some(state),
    ensures
        relay_of(status, kind_of(true, target, state), body) is None,
        next_status(status, kind_of(true, target, state)) == status,
        status == SessionStatus::Pending ==> reply_of(status, kind_of(true, target, state))
            == Some((403u16, false, MISMATCH_TEXT@)),
{
}

/// A token submission with the right state reaching a pending session
/// relays exactly its body, is answered with the success page, and ends
/// the session.
pub proof fn right_state_is_relayed(target: Seq<u8>, state: Seq<u8>, body: Seq<char>)
    requires
        is_token_target(target),
        state_param(token_query(target)) == Some(state),
    ensures
        relay_of(SessionStatus::Pending, kind_of(true, target, state), Some(body)) == Some(body),
        reply_of(SessionStatus::Pending, kind_of(true, target, state)) == Some(
            (200u16, true, SUCCESS_PAGE@),
        ),
        next_status(SessionStatus::Pending, kind_of(true, target, state))
            == SessionStatus::Fulfilled,
{
}

/// Any request that is not a `POST` to `/token`, whatever its query, is
/// answered with the bridge page while the session is pending, and changes
/// nothing.
pub proof fn other_requests_get_bridge_page(
    status: SessionStatus,
    is_post: bool,
    target: Seq<u8>,
    state: Seq<u8>,
    body: Option<Seq<char>>,
)
    requires
        !(is_post && is_token_target(target)),
    ensures
        relay_of(status, kind_of(is_post, target, state), body) is None,
        next_status(status, kind_of(is_post, target, state)) == status,
        status == SessionStatus::Pending ==> reply_of(status, kind_of(is_post, target, state))
            == Some((200u16, true, BRIDGE_PAGE@)),
{
}

/// The bridge page carries nothing of the request: two requests that both
/// get it get byte-identical answers.
pub proof fn bridge_page_is_identical(
    status: SessionStatus,
    state: Seq<u8>,
    is_post1: bool,
    target1: Seq<u8>,
    is_post2: bool,
    target2: Seq<u8>,
)
    requires
        kind_of(is_post1, target1, state) == RequestKind::Bridge,
        kind_of(is_post2, target2, state) == RequestKind::Bridge,
    ensures
        reply_of(status, kind_of(is_post1, target1, state)) == reply_of(
            status,
            kind_of(is_post2, target2, state),
        ),
{
}

} // verus!
