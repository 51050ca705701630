//! The authentication state machine: a signer becomes a session by signup or
//! signin; a session can be revalidated, and is ended by signout.
//!
//! Nothing here talks to a homeserver. Each operation is split in what is
//! decided before the exchange, which names the exchange to make, and what is
//! decided after it, which takes the homeserver's reply as a plain value.

use vstd::prelude::*;
use crate::capabilities::{within, Capabilities, CapabilityView};
use crate::error::{Error, ErrorKind};
use crate::keys::{public_of_secret, Keypair, PublicKey};
use crate::text::concat;

verus! {

/// What a homeserver answered to a signup or a signin.
#[derive(Debug, PartialEq, Eq)]
pub enum ServerReply {
    /// The homeserver opened a session and granted these capabilities, in
    /// their text form.
    Granted { capabilities: String },
    /// The homeserver refused the credential or the signup token.
    Rejected { message: String },
    /// The exchange itself failed.
    Failed { message: String },
    /// The exchange was cancelled before it completed.
    Cancelled,
}

/// An unauthenticated identity that can sign up or sign in.
#[derive(Clone, Copy, Debug, PartialEq, Eq)]
pub struct PubkySigner {
    keypair: Keypair,
}

/// An authenticated session: bound to one identity, one homeserver and one
/// set of capabilities.
#[derive(Debug, PartialEq, Eq)]
pub struct PubkySession {
    public_key: PublicKey,
    homeserver: PublicKey,
    capabilities: Capabilities,
    consumed: bool,
}

/// What a session is bound to, and whether it has been signed out.
pub struct SessionView {
    /// The identity.
    pub public_key: Seq<u8>,
    /// The homeserver that serves the identity.
    pub homeserver: Seq<u8>,
    /// The capabilities that the homeserver granted.
    pub capabilities: Seq<CapabilityView>,
    /// Whether signout has consumed the handle.
    pub consumed: bool,
}

impl View for PubkySession {
    type V = SessionView;

    closed spec fn view(&self) -> SessionView {
        SessionView {
            public_key: self.public_key@,
            homeserver: self.homeserver@,
            capabilities: self.capabilities@,
            consumed: self.consumed,
        }
    }
}

/// Whether a session is still accepted by its homeserver.
#[derive(Clone, Copy, Debug, PartialEq, Eq, Structural)]
pub enum Validity {
    /// The homeserver still accepts the session.
    Valid,
    /// The session has expired on the homeserver.
    Invalid,
}

/// What a homeserver answered to a revalidation or a signout.
#[derive(Debug, PartialEq, Eq)]
pub enum SessionReply {
    /// The homeserver knows the session.
    Accepted,
    /// The homeserver no longer knows the session.
    Unknown,
    /// The exchange itself failed.
    Failed { message: String },
}

/// The message of every refusal to work on a signed-out session.
pub open spec fn consumed_message() -> Seq<char> {
    "session handle was consumed by signout"@
}

/// The refusal to work on a signed-out session.
pub fn handle_consumed() -> (e: Error)
    ensures
        e.kind == ErrorKind::Validation,
        e.message@ == consumed_message(),
{
    Error::validation("session handle was consumed by signout")
}

/// The message of the refusal of a grant that goes beyond the request.
pub open spec fn beyond_request_message() -> Seq<char> {
    "homeserver granted capabilities beyond the request"@
}

/// The message of every cancelled exchange.
pub open spec fn cancelled_message() -> Seq<char> {
    "cancelled"@
}

/// What the completion of a signup or signin answers: the capabilities of
/// the session, or the category and the message of the failure. What the
/// homeserver said in a rejection, and what went wrong in a failed exchange,
/// reaches the caller word for word.
pub open spec fn completed(requested: Seq<CapabilityView>, reply: ServerReply) -> Result<
    Seq<CapabilityView>,
    (ErrorKind, Seq<char>),
> {
    match reply {
        ServerReply::Granted { capabilities } => match crate::capabilities::parse_text(
            capabilities@,
        ) {
            Err(entry) => Err(
                (ErrorKind::Parse, crate::capabilities::bad_entry_prefix() + entry),
            ),
            Ok(granted) => if within(granted, requested) {
                Ok(granted)
            } else {
                Err((ErrorKind::Authentication, beyond_request_message()))
            },
        },
        ServerReply::Rejected { message } => Err((ErrorKind::Authentication, message@)),
        ServerReply::Failed { message } => Err((ErrorKind::Request, message@)),
        ServerReply::Cancelled => Err((ErrorKind::Request, cancelled_message())),
    }
}

impl PubkySigner {
    /// The signer for a keypair.
    pub fn new(keypair: Keypair) -> (signer: PubkySigner)
        ensures
            signer.keypair() == keypair,
    {
        PubkySigner { keypair }
    }

    /// The keypair of this signer.
    pub closed spec fn keypair(self) -> Keypair {
        self.keypair
    }

    /// The keypair that this signer signs with.
    pub fn signing_keypair(&self) -> (keypair: Keypair)
        ensures
            keypair == self.keypair(),
    {
        self.keypair
    }

    /// The identity that this signer signs for.
    pub fn public_key(&self) -> (key: PublicKey)
        ensures
            key@ == self.keypair().public(),
            key@ == public_of_secret(self.keypair().secret()),
    {
        self.keypair.public_key()
    }

    /// Turns a homeserver's reply to a signup or a signin into a session.
    ///
    /// A session is opened only on a grant whose capabilities can be read and
    /// stay within what was requested; it is bound to this signer's identity,
    /// the homeserver and exactly the granted capabilities. A grant that
    /// cannot be read is a parse error, a grant beyond the request and a
    /// rejection are authentication errors, a failed or cancelled exchange is
    /// a request error. No other outcome exists: an exchange that did not
    /// complete never yields a session.
    pub fn complete(
        &self,
        homeserver: &PublicKey,
        requested: &Capabilities,
        reply: ServerReply,
    ) -> (r: Result<PubkySession, Error>)
        ensures
            r matches Ok(s) ==> (completed(requested@, reply) matches Ok(granted) && granted
                == s@.capabilities) && s@.public_key == self.keypair().public() && s@.homeserver
                == homeserver@ && !s@.consumed && within(s@.capabilities, requested@),
            r matches Err(e) ==> (completed(requested@, reply) matches Err(fault) && fault.0
                == e.kind && fault.1 == e.message@),
    {
        match reply {
            ServerReply::Granted { capabilities } => match Capabilities::parse(
                capabilities.as_str(),
            ) {
                Err(e) => Err(e),
                Ok(granted) => {
                    if granted.is_within(requested) {
                        Ok(
                            PubkySession {
                                public_key: self.keypair.public_key(),
                                homeserver: *homeserver,
                                capabilities: granted,
                                consumed: false,
                            },
                        )
                    } else {
                        Err(
                            Error::new(
                                ErrorKind::Authentication,
                                "homeserver granted capabilities beyond the request",
                            ),
                        )
                    }
                },
            },
            ServerReply::Rejected { message } => Err(
                Error { kind: ErrorKind::Authentication, message },
            ),
            ServerReply::Failed { message } => Err(Error { kind: ErrorKind::Request, message }),
            ServerReply::Cancelled => Err(Error::new(ErrorKind::Request, "cancelled")),
        }
    }
}

/// Where a signin stands.
#[derive(Debug, PartialEq, Eq)]
pub enum SigninState {
    /// Nothing has happened yet.
    Start,
    /// The resolver has been asked for the identity's homeserver.
    Resolving,
    /// The homeserver has been asked to open a session.
    Asking { homeserver: PublicKey },
    /// A session is open; the resolver has been asked to confirm that the
    /// homeserver record can be found.
    Confirming { session: PubkySession },
    /// The signin ended with a session.
    Done { session: PubkySession },
    /// The signin ended without a session.
    Failed { error: Error },
}

/// What has happened since the last step of a signin.
#[derive(Debug, PartialEq, Eq)]
pub enum SigninEvent {
    /// The caller asked to sign in.
    Begin,
    /// The resolver answered: the homeserver of the identity, if one is
    /// published.
    Resolved { homeserver: Option<PublicKey> },
    /// The homeserver answered.
    Replied { reply: ServerReply },
    /// The operation was cancelled.
    Cancelled,
}

/// What the caller of a signin step has to do next.
#[derive(Clone, Copy, Debug, PartialEq, Eq)]
pub enum SigninAction {
    /// Ask the resolver for the homeserver of `user`.
    Resolve { user: PublicKey },
    /// Ask `homeserver` to open a session for the identity.
    Ask { homeserver: PublicKey },
    /// Nothing: the signin has ended.
    Stop,
}

/// Whether a signin has ended.
pub open spec fn is_final(state: SigninState) -> bool {
    state is Done || state is Failed
}

impl PubkySession {
    /// The identity of this session.
    pub fn public_key(&self) -> (key: PublicKey)
        ensures
            key@ == self@.public_key,
    {
        self.public_key
    }

    /// The homeserver of this session.
    pub fn homeserver(&self) -> (key: PublicKey)
        ensures
            key@ == self@.homeserver,
    {
        self.homeserver
    }

    /// The capabilities that the homeserver granted.
    pub fn capabilities(&self) -> (caps: &Capabilities)
        ensures
            caps@ == self@.capabilities,
    {
        &self.capabilities
    }

    /// Whether signout has consumed this handle.
    pub fn is_consumed(&self) -> (consumed: bool)
        ensures
            consumed == self@.consumed,
    {
        self.consumed
    }

    /// Decides, before any exchange, whether this session may be revalidated:
    /// a signed-out handle is refused.
    pub fn begin_revalidate(&self) -> (r: Result<(), Error>)
        ensures
            r is Err <==> self@.consumed,
            r matches Err(e) ==> e.kind == ErrorKind::Validation && e.message@
                == consumed_message(),
    {
        if self.consumed {
            Err(handle_consumed())
        } else {
            Ok(())
        }
    }

    /// Turns the homeserver's reply to a revalidation into a verdict. A
    /// session that the homeserver no longer knows is invalid, which is an
    /// ordinary outcome; only a failed exchange is an error. The session
    /// itself, its capabilities included, is never changed.
    pub fn revalidated(&self, reply: SessionReply) -> (r: Result<Validity, Error>)
        ensures
            self@.consumed ==> (r matches Err(e) && e.kind == ErrorKind::Validation && e.message@
                == consumed_message()),
            !self@.consumed ==> match reply {
                SessionReply::Accepted => r == Ok::<Validity, Error>(Validity::Valid),
                SessionReply::Unknown => r == Ok::<Validity, Error>(Validity::Invalid),
                SessionReply::Failed { message } => r matches Err(e) && e.kind
                    == ErrorKind::Request && e.message@ == message@,
            },
    {
        if self.consumed {
            return Err(handle_consumed());
        }
        match reply {
            SessionReply::Accepted => Ok(Validity::Valid),
            SessionReply::Unknown => Ok(Validity::Invalid),
            SessionReply::Failed { message } => Err(Error { kind: ErrorKind::Request, message }),
        }
    }

    /// Signs out: consumes the handle. The first signout succeeds and leaves
    /// the handle consumed, with everything else as it was; the caller then
    /// tells the homeserver. Every later signout is refused.
    pub fn signout(&mut self) -> (r: Result<(), Error>)
        ensures
            final(self)@.consumed,
            final(self)@.public_key == old(self)@.public_key,
            final(self)@.homeserver == old(self)@.homeserver,
            final(self)@.capabilities == old(self)@.capabilities,
            r is Err <==> old(self)@.consumed,
            r matches Err(e) ==> e.kind == ErrorKind::Validation && e.message@
                == consumed_message(),
    {
        if self.consumed {
            Err(handle_consumed())
        } else {
            self.consumed = true;
            Ok(())
        }
    }

    /// Turns the homeserver's reply to a signout into its outcome. The
    /// homeserver's answer, even that it no longer knows the session, ends
    /// the signout; a failed exchange is a request error. The handle stays
    /// consumed either way.
    pub fn signed_out(&self, reply: SessionReply) -> (r: Result<(), Error>)
        ensures
            match reply {
                SessionReply::Failed { message } => r matches Err(e) && e.kind
                    == ErrorKind::Request && e.message@ == message@,
                _ => r is Ok,
            },
    {
        match reply {
            SessionReply::Failed { message } => Err(Error { kind: ErrorKind::Request, message }),
            _ => Ok(()),
        }
    }
}

/// The session that a signin state holds, if it holds one.
pub open spec fn held(state: SigninState) -> Option<SessionView> {
    match state {
        SigninState::Confirming { session } => Some(session@),
        SigninState::Done { session } => Some(session@),
        _ => None,
    }
}

/// What a step of a running signin must answer: for each state and the
/// event that answers its last action, the next state and action.
pub open spec fn steps_to(
    user: Seq<u8>,
    blocking: bool,
    requested: Seq<CapabilityView>,
    state: SigninState,
    event: SigninEvent,
    next: (SigninState, SigninAction),
) -> bool {
    match (state, event) {
        (SigninState::Start, SigninEvent::Begin) => {
            &&& next.0 is Resolving
            &&& next.1 matches SigninAction::Resolve { user: asked }
            &&& asked@ == user
        },
        (SigninState::Resolving, SigninEvent::Resolved { homeserver: None }) => {
            &&& next.0 matches SigninState::Failed { error }
            &&& error.kind == ErrorKind::Authentication
            &&& error.message@ == "not registered"@
            &&& next.1 == SigninAction::Stop
        },
        (SigninState::Resolving, SigninEvent::Resolved { homeserver: Some(h) }) => {
            &&& next.0 == (SigninState::Asking { homeserver: h })
            &&& next.1 == (SigninAction::Ask { homeserver: h })
        },
        (SigninState::Asking { homeserver }, SigninEvent::Replied { reply }) => match completed(
            requested,
            reply,
        ) {
            Ok(granted) => {
                &&& held(next.0) matches Some(s)
                &&& s.capabilities == granted
                &&& s.homeserver == homeserver@
                &&& s.public_key == user
                &&& !s.consumed
                &&& within(s.capabilities, requested)
                &&& if blocking {
                    &&& next.0 is Confirming
                    &&& next.1 matches SigninAction::Resolve { user: asked }
                    &&& asked@ == user
                } else {
                    next.0 is Done && next.1 == SigninAction::Stop
                }
            },
            Err(fault) => {
                &&& next.0 matches SigninState::Failed { error }
                &&& error.kind == fault.0
                &&& error.message@ == fault.1
                &&& next.1 == SigninAction::Stop
            },
        },
        (SigninState::Confirming { session }, SigninEvent::Resolved { homeserver }) => {
            if homeserver matches Some(h) && h@ == session@.homeserver {
                next.0 == (SigninState::Done { session }) && next.1 == SigninAction::Stop
            } else {
                &&& next.0 == (SigninState::Confirming { session })
                &&& next.1 matches SigninAction::Resolve { user: asked }
                &&& asked@ == user
            }
        },
        (SigninState::Done { session }, _) => next.0 == state && next.1 == SigninAction::Stop,
        (SigninState::Failed { error }, _) => next.0 == state && next.1 == SigninAction::Stop,
        (_, SigninEvent::Cancelled) => {
            &&& next.0 matches SigninState::Failed { error }
            &&& error.kind == ErrorKind::Request
            &&& error.message@ == cancelled_message()
            &&& next.1 == SigninAction::Stop
        },
        _ => {
            &&& next.0 matches SigninState::Failed { error }
            &&& error.kind == ErrorKind::Validation
            &&& error.message@ == "event does not answer the last action"@
            &&& next.1 == SigninAction::Stop
        },
    }
}

impl PubkySigner {
    /// One step of a signin: from where it stands and what has happened to
    /// where it stands next and what to do next.
    ///
    /// The signin asks the resolver for the homeserver, asks the homeserver
    /// for a session, and, where `blocking` is set, asks the resolver again
    /// until it names that homeserver. An identity without a published
    /// homeserver is not registered: an authentication error. A signin that
    /// has ended stays as it is. A cancellation ends a running signin with a
    /// request error and without a session. An event that does not answer the
    /// last action is a validation error.
    pub fn signin_step(
        &self,
        blocking: bool,
        requested: &Capabilities,
        state: SigninState,
        event: SigninEvent,
    ) -> (next: (SigninState, SigninAction))
        ensures
            steps_to(self.keypair().public(), blocking, requested@, state, event, next),
            (next.1 == SigninAction::Stop) <==> is_final(next.0),
    {
        let user = self.keypair.public_key();
        match (state, event) {
            (SigninState::Done { session }, _) => (
                SigninState::Done { session },
                SigninAction::Stop,
            ),
            (SigninState::Failed { error }, _) => (
                SigninState::Failed { error },
                SigninAction::Stop,
            ),
            (_, SigninEvent::Cancelled) => (
                SigninState::Failed { error: Error::new(ErrorKind::Request, "cancelled") },
                SigninAction::Stop,
            ),
            (SigninState::Start, SigninEvent::Begin) => (
                SigninState::Resolving,
                SigninAction::Resolve { user },
            ),
            (SigninState::Resolving, SigninEvent::Resolved { homeserver: None }) => (
                SigninState::Failed {
                    error: Error::new(ErrorKind::Authentication, "not registered"),
                },
                SigninAction::Stop,
            ),
            (SigninState::Resolving, SigninEvent::Resolved { homeserver: Some(homeserver) }) => (
                SigninState::Asking { homeserver },
                SigninAction::Ask { homeserver },
            ),
            (SigninState::Asking { homeserver }, SigninEvent::Replied { reply }) => {
                match self.complete(&homeserver, requested, reply) {
                    Ok(session) => {
                        if blocking {
                            (SigninState::Confirming { session }, SigninAction::Resolve { user })
                        } else {
                            (SigninState::Done { session }, SigninAction::Stop)
                        }
                    },
                    Err(error) => (SigninState::Failed { error }, SigninAction::Stop),
                }
            },
            (SigninState::Confirming { session }, SigninEvent::Resolved { homeserver }) => {
                let confirmed = match homeserver {
                    Some(h) => h.same(&session.homeserver),
                    None => false,
                };
                if confirmed {
                    (SigninState::Done { session }, SigninAction::Stop)
                } else {
                    (SigninState::Confirming { session }, SigninAction::Resolve { user })
                }
            },
            _ => (
                SigninState::Failed {
                    error: Error::validation("event does not answer the last action"),
                },
                SigninAction::Stop,
            ),
        }
    }
}

/// The texts of `targets`.
pub open spec fn target_texts(targets: Seq<String>) -> Seq<Seq<char>> {
    targets.map_values(|t: String| t@)
}

/// The key that a resolved record names: the first of the targets of its
/// homeserver entries that reads as a key, if one does.
pub open spec fn first_key(targets: Seq<Seq<char>>) -> Option<Seq<u8>>
    decreases targets.len(),
{
    if targets.len() == 0 {
        None
    } else {
        match crate::keys::z32_read(targets[0]) {
            Ok(key) => Some(key),
            Err(_) => first_key(targets.subrange(1, targets.len() as int)),
        }
    }
}

/// Picks the homeserver from what the resolver found for an identity: the
/// targets of the identity's homeserver entries, in the order of the record.
/// The first target that reads as a key is the homeserver; a record without
/// such a target publishes none.
pub fn homeserver_from_targets(targets: &Vec<String>) -> (homeserver: Option<PublicKey>)
    ensures
        match first_key(target_texts(targets@)) {
            Some(key) => homeserver matches Some(h) && h@ == key,
            None => homeserver is None,
        },
{
    let ghost all = target_texts(targets@);
    let n: usize = targets.len();
    let mut i: usize = 0;
    proof {
        assert(all.subrange(0, n as int) =~= all);
    }
    while i < n
        invariant
            n == targets@.len(),
            all == target_texts(targets@),
            i <= n,
            first_key(all) == first_key(all.subrange(i as int, n as int)),
        decreases n - i,
    {
        let ghost rest = all.subrange(i as int, n as int);
        proof {
            assert(rest[0] == targets@[i as int]@);
            assert(rest.subrange(1, rest.len() as int) =~= all.subrange(i + 1, n as int));
        }
        match PublicKey::try_from_z32(targets[i].as_str()) {
            Ok(key) => {
                return Some(key);
            },
            Err(_) => {},
        }
        i = i + 1;
    }
    proof {
        assert(all.subrange(n as int, n as int).len() == 0);
    }
    None
}

/// What a status means for a signup or a signin. A success that carries
/// capabilities is a grant; 401 and 403 are the homeserver's refusal of the
/// credential or the token; anything else, a success without capabilities
/// included, is a failed exchange.
pub open spec fn reply_of(status: u16, capabilities: Option<String>, message: String) -> ServerReply {
    if 200 <= status < 300 {
        match capabilities {
            Some(granted) => ServerReply::Granted { capabilities: granted },
            None => ServerReply::Failed { message },
        }
    } else if status == 401 || status == 403 {
        ServerReply::Rejected { message }
    } else {
        ServerReply::Failed { message }
    }
}

/// Turns what a homeserver sent back on a signup or a signin into its reply:
/// the status, the capabilities that the answer carried, if it was read, and
/// the words of the answer.
pub fn reply_from_status(status: u16, capabilities: Option<String>, message: String) -> (reply:
    ServerReply)
    ensures
        reply == reply_of(status, capabilities, message),
{
    if 200 <= status && status < 300 {
        match capabilities {
            Some(granted) => ServerReply::Granted { capabilities: granted },
            None => ServerReply::Failed { message },
        }
    } else if status == 401 || status == 403 {
        ServerReply::Rejected { message }
    } else {
        ServerReply::Failed { message }
    }
}

/// What a status means for a revalidation or a signout: any success says
/// that the homeserver knows the session, 401 and 404 that it does not, and
/// anything else is a failed exchange.
pub open spec fn session_reply_of(status: u16, message: String) -> SessionReply {
    if 200 <= status < 300 {
        SessionReply::Accepted
    } else if status == 401 || status == 404 {
        SessionReply::Unknown
    } else {
        SessionReply::Failed { message }
    }
}

/// Turns what a homeserver sent back on a revalidation or a signout into
/// its reply.
pub fn session_reply_from_status(status: u16, message: String) -> (reply: SessionReply)
    ensures
        reply == session_reply_of(status, message),
{
    if 200 <= status && status < 300 {
        SessionReply::Accepted
    } else if status == 401 || status == 404 {
        SessionReply::Unknown
    } else {
        SessionReply::Failed { message }
    }
}

} // verus!
