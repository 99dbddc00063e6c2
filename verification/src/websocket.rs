//! The session of one connection: it checks what the client sends, hands
//! valid commands to the dispatcher, and renders what is routed to it for the
//! client. Every function takes an event and returns the actions that the
//! program around it is to perform, in order.

use crate::author::{sha384_hex, sha384_hex_of, Author};
use crate::error::{
    already_logged_in_text, invalid_account_text, invalid_signature_text, invalid_token_text,
    missing_user_text, not_logged_in_text, signing_error_text, unexpected_message_text, Error,
};
use crate::message::{
    InnerMessage, InnerMessageView, Login, LoginResponse, LoginResponseView, NotifyLevel,
    OuterMessage, OuterMessageView,
};
use crate::models::{Account, User};
use vstd::prelude::*;

verus! {

/// Where a session stands in its life.
#[derive(Debug, Clone, Copy, PartialEq, Eq, Structural)]
pub enum SessionState {
    Unauthenticated,
    Authenticated,
    Closed,
}

/// What the transport hands to a session.
#[derive(Debug, Clone, PartialEq, Eq)]
pub enum Frame {
    /// A text frame that holds an envelope.
    Text(OuterMessage),
    /// A text frame that holds no envelope, with the reason.
    Malformed(String),
    /// A ping, with its payload.
    Ping(Vec<u8>),
    /// The connection is closed.
    Close,
    /// Any other frame.
    Other,
}

/// What a `Frame` holds.
pub enum FrameView {
    Text(OuterMessageView),
    Malformed(Seq<char>),
    Ping(Seq<u8>),
    Close,
    Other,
}

impl View for Frame {
    type V = FrameView;

    open spec fn view(&self) -> FrameView {
        match *self {
            Frame::Text(msg) => FrameView::Text(msg@),
            Frame::Malformed(reason) => FrameView::Malformed(reason@),
            Frame::Ping(payload) => FrameView::Ping(payload@),
            Frame::Close => FrameView::Close,
            Frame::Other => FrameView::Other,
        }
    }
}

/// What a session asks the program around it to do.
#[derive(Debug, Clone, PartialEq, Eq)]
pub enum Action {
    /// Send the envelope to the client.
    Reply(OuterMessage),
    /// Answer a ping with its payload.
    Pong(Vec<u8>),
    /// Hand the message to the dispatcher.
    Dispatch(InnerMessage),
    /// Run the login flow for this attempt, and hand its outcome back.
    Login(Login),
}

/// What an `Action` holds.
pub enum ActionView {
    Reply(OuterMessageView),
    Pong(Seq<u8>),
    Dispatch(InnerMessageView),
    Login { username: Seq<char>, password: Seq<char>, signature: Seq<char> },
}

impl View for Action {
    type V = ActionView;

    open spec fn view(&self) -> ActionView {
        match *self {
            Action::Reply(msg) => ActionView::Reply(msg@),
            Action::Pong(payload) => ActionView::Pong(payload@),
            Action::Dispatch(msg) => ActionView::Dispatch(msg@),
            Action::Login(login) => ActionView::Login {
                username: login.username@,
                password: login.password@,
                signature: login.signature@,
            },
        }
    }
}

/// The views of the actions in `v`, in order.
pub open spec fn actions(v: Seq<Action>) -> Seq<ActionView> {
    v.map_values(|a: Action| a@)
}

/// What the data-access gateway has answered so far in a login flow.
#[derive(Debug)]
pub enum LoginStage {
    /// Nothing has been asked yet.
    Start,
    /// The answer to the question for the account.
    Account(Result<Option<Account>, Error>),
    /// The answer to the question for the account's user.
    User(Result<Option<User>, Error>),
}

/// What a login flow does next.
#[derive(Debug, Clone, PartialEq, Eq)]
pub enum LoginStep {
    /// Ask the gateway for the account with this credential key.
    GetAccount(String),
    /// Ask the gateway for the user of the account with this id.
    GetUser(i32),
    /// The flow has ended with this outcome.
    Done(LoginResponse),
}

/// What a `LoginStep` holds.
pub enum LoginStepView {
    GetAccount(Seq<char>),
    GetUser(i32),
    Done(LoginResponseView),
}

impl View for LoginStep {
    type V = LoginStepView;

    open spec fn view(&self) -> LoginStepView {
        match *self {
            LoginStep::GetAccount(key) => LoginStepView::GetAccount(key@),
            LoginStep::GetUser(account) => LoginStepView::GetUser(account),
            LoginStep::Done(response) => LoginStepView::Done(response@),
        }
    }
}

/// The signature that a login of `username` with `password` must carry while
/// the session's anti-replay token is `nonce`.
pub open spec fn expected_signature(username: Seq<char>, password: Seq<char>, nonce: Seq<char>) -> Seq<
    char,
> {
    sha384_hex(username + password + nonce)
}

/// Computes the signature of a login payload: the SHA-384 digest, in
/// hexadecimal, of name, password and anti-replay token, one after the other.
pub fn login_signature(username: &str, password: &str, nonce: &str) -> (signature: String)
    ensures
        signature@ == expected_signature(username@, password@, nonce@),
{
    let text = username.to_owned().concat(password).concat(nonce);
    sha384_hex_of(text.as_str())
}

/// A login flow that has failed for the given reason.
pub open spec fn failed(username: Seq<char>, reason: Seq<char>) -> LoginStepView {
    LoginStepView::Done(LoginResponseView { username, token: Seq::empty(), err: reason })
}

/// A notice to the client.
pub open spec fn notice(level: NotifyLevel, content: Seq<char>) -> ActionView {
    ActionView::Reply(OuterMessageView::Notify { level, content })
}

/// The one action that reports an error to the client.
pub open spec fn error_notice(content: Seq<char>) -> Seq<ActionView> {
    seq![notice(NotifyLevel::Error, content)]
}

/// The content of the notice that a session gets when its identity is
/// registered to another session.
pub open spec fn repeat_login_text() -> Seq<char> {
    "repeat login"@
}

/// What a session is: its identity, its own handle, its anti-replay token and
/// its state.
pub struct WSView {
    pub name: Seq<char>,
    pub handle: u64,
    pub nonce: Seq<char>,
    pub state: SessionState,
}

/// What a session answers to an envelope from its client.
pub open spec fn text_actions<A: Author>(s: WSView, author: &A, msg: OuterMessageView) -> Seq<
    ActionView,
> {
    match msg {
        OuterMessageView::Login { username, password, signature } => {
            if s.state != SessionState::Unauthenticated {
                error_notice(already_logged_in_text())
            } else if signature == expected_signature(username, password, s.nonce) {
                seq![ActionView::Login { username, password, signature }]
            } else {
                error_notice(invalid_signature_text())
            }
        },
        OuterMessageView::In { token, to, content } => {
            if s.state != SessionState::Authenticated {
                error_notice(not_logged_in_text())
            } else if author.claim(token) is Some {
                seq![
                    ActionView::Dispatch(InnerMessageView::Send { from: s.name, to, content }),
                ]
            } else {
                error_notice(invalid_token_text())
            }
        },
        OuterMessageView::Broadcast { token, content } => {
            if s.state != SessionState::Authenticated {
                error_notice(not_logged_in_text())
            } else if author.claim(token) is Some {
                seq![ActionView::Dispatch(InnerMessageView::Broadcast { from: s.name, content })]
            } else {
                error_notice(invalid_token_text())
            }
        },
        OuterMessageView::AntiReplayToken => seq![
            ActionView::Reply(OuterMessageView::AntiReplayTokenResponse { token: s.nonce }),
        ],
        _ => error_notice(unexpected_message_text()),
    }
}

/// What a session does with a frame. A closed session does nothing.
pub open spec fn frame_actions<A: Author>(s: WSView, author: &A, frame: FrameView) -> Seq<
    ActionView,
> {
    if s.state == SessionState::Closed {
        Seq::empty()
    } else {
        match frame {
            FrameView::Text(msg) => text_actions(s, author, msg),
            FrameView::Malformed(reason) => error_notice(reason),
            FrameView::Ping(payload) => seq![ActionView::Pong(payload)],
            FrameView::Close => if s.state == SessionState::Authenticated {
                seq![ActionView::Dispatch(InnerMessageView::Deregister { name: s.name })]
            } else {
                Seq::empty()
            },
            FrameView::Other => Seq::empty(),
        }
    }
}

/// The session after a frame: only a close changes it.
pub open spec fn frame_state(s: WSView, frame: FrameView) -> WSView {
    if frame is Close {
        WSView { state: SessionState::Closed, ..s }
    } else {
        s
    }
}

/// A login outcome makes the session log in: it reports success, and the
/// session is still waiting for one.
pub open spec fn logs_in(s: WSView, response: LoginResponseView) -> bool {
    s.state == SessionState::Unauthenticated && response.token.len() > 0
}

/// The session after a login outcome: on success it takes the identity and a
/// fresh anti-replay token.
pub open spec fn login_state(s: WSView, response: LoginResponseView, fresh: Seq<char>) -> WSView {
    if logs_in(s, response) {
        WSView {
            name: response.username,
            handle: s.handle,
            nonce: fresh,
            state: SessionState::Authenticated,
        }
    } else {
        s
    }
}

/// What a session does with a login outcome: on success it registers with
/// the dispatcher and sends the token with the fresh anti-replay token; on
/// failure it reports the reason.
pub open spec fn login_actions(s: WSView, response: LoginResponseView, fresh: Seq<char>) -> Seq<
    ActionView,
> {
    if s.state == SessionState::Closed {
        Seq::empty()
    } else if response.token.len() == 0 {
        error_notice(response.err)
    } else if s.state == SessionState::Authenticated {
        error_notice(already_logged_in_text())
    } else {
        seq![
            ActionView::Dispatch(
                InnerMessageView::Register { name: response.username, addr: s.handle },
            ),
            ActionView::Reply(
                OuterMessageView::LoginResponse { token: response.token, anti_replay_token: fresh },
            ),
        ]
    }
}

/// What a session does with a message that reaches it from inside.
pub open spec fn inner_actions(s: WSView, msg: InnerMessageView, fresh: Seq<char>) -> Seq<
    ActionView,
> {
    if s.state == SessionState::Closed {
        Seq::empty()
    } else {
        match msg {
            InnerMessageView::Out { from, content } => seq![
                ActionView::Reply(OuterMessageView::Out { from, content }),
            ],
            InnerMessageView::Users(names) => seq![ActionView::Reply(OuterMessageView::Users(names))],
            InnerMessageView::Notify { level, content } => seq![notice(level, content)],
            InnerMessageView::RepeatLogin => seq![
                notice(NotifyLevel::Warning, repeat_login_text()),
            ],
            InnerMessageView::LoginResponse(response) => login_actions(s, response, fresh),
            _ => Seq::empty(),
        }
    }
}

/// A message from inside makes the session take a new anti-replay token: it
/// is a login outcome that makes the session log in.
pub open spec fn rotates(s: WSView, msg: InnerMessageView) -> bool {
    msg matches InnerMessageView::LoginResponse(response) && logs_in(s, response)
}

/// The session after a message that reaches it from inside.
pub open spec fn inner_state(s: WSView, msg: InnerMessageView, fresh: Seq<char>) -> WSView {
    match msg {
        InnerMessageView::LoginResponse(response) => login_state(s, response, fresh),
        _ => s,
    }
}

fn no_action() -> (out: Vec<Action>)
    ensures
        actions(out@) == Seq::<ActionView>::empty(),
{
    let out: Vec<Action> = Vec::new();
    assert(actions(out@) =~= Seq::<ActionView>::empty());
    out
}

fn one_action(action: Action) -> (out: Vec<Action>)
    ensures
        actions(out@) == seq![action@],
{
    let mut out: Vec<Action> = Vec::new();
    out.push(action);
    assert(actions(out@) =~= seq![action@]);
    out
}

fn report(level: NotifyLevel, content: String) -> (out: Vec<Action>)
    ensures
        actions(out@) == seq![notice(level, content@)],
{
    one_action(Action::Reply(OuterMessage::Notify { level, content }))
}

fn report_error(e: Error) -> (out: Vec<Action>)
    ensures
        actions(out@) == error_notice(e@),
{
    report(NotifyLevel::Error, e.0)
}

/// The session of one connection.
#[derive(Debug, Clone)]
pub struct WS {
    name: String,
    handle: u64,
    nonce: String,
    state: SessionState,
}

impl View for WS {
    type V = WSView;

    closed spec fn view(&self) -> WSView {
        WSView { name: self.name@, handle: self.handle, nonce: self.nonce@, state: self.state }
    }
}

impl WS {
    /// A session that has not logged in, behind the handle `handle`, with its
    /// first anti-replay token.
    pub fn new(name: String, handle: u64, nonce: String) -> (ws: Self)
        ensures
            ws@ == (WSView {
                name: name@,
                handle,
                nonce: nonce@,
                state: SessionState::Unauthenticated,
            }),
    {
        Self { name, handle, nonce, state: SessionState::Unauthenticated }
    }

    /// One step of the login flow for `username` and `password`, given what
    /// the gateway has answered. The account must exist and hold the digest of
    /// the password with the account's salt; the account's user must exist;
    /// then a token is issued for the user, and the flow succeeds wherever the
    /// credential service owes that token. Every failure ends the flow with
    /// an empty token and a reason.
    pub fn handle_login<A: Author>(
        &self,
        author: &A,
        username: String,
        password: String,
        stage: LoginStage,
    ) -> (step: LoginStep)
        ensures
            match stage {
                LoginStage::Start => step@ == LoginStepView::GetAccount(username@),
                LoginStage::Account(Err(e)) => step@ == failed(username@, e@),
                LoginStage::Account(Ok(None)) => step@ == failed(username@, invalid_account_text()),
                LoginStage::Account(Ok(Some(account))) => step@ == if author.digest(
                    password@,
                    account.salt@,
                ) == account.password@ {
                    LoginStepView::GetUser(account.id)
                } else {
                    failed(username@, invalid_account_text())
                },
                LoginStage::User(Err(e)) => step@ == failed(username@, e@),
                LoginStage::User(Ok(None)) => step@ == failed(username@, missing_user_text()),
                LoginStage::User(Ok(Some(user))) => {
                    &&& step@ matches LoginStepView::Done(response)
                    &&& response.username == username@
                    &&& {
                        ||| response.err.len() == 0 && response.token.len() > 0 && author.claim(
                            response.token,
                        ) == Some(user.id)
                        ||| response.token.len() == 0 && response.err == signing_error_text()
                    }
                    &&& author.owes_token(user.id) ==> response.token.len() > 0
                },
            },
    {
        match stage {
            LoginStage::Start => LoginStep::GetAccount(username),
            LoginStage::Account(Err(e)) => Self::login_failed(username, e),
            LoginStage::Account(Ok(None)) => Self::login_failed(username, Error::invalid_account()),
            LoginStage::Account(Ok(Some(account))) => {
                let hashed = author.hash_password(password, account.salt);
                if hashed == account.password {
                    LoginStep::GetUser(account.id)
                } else {
                    Self::login_failed(username, Error::invalid_account())
                }
            },
            LoginStage::User(Err(e)) => Self::login_failed(username, e),
            LoginStage::User(Ok(None)) => Self::login_failed(username, Error::missing_user()),
            LoginStage::User(Ok(Some(user))) => Self::login_issued(
                username,
                author.gen_token(user.id),
            ),
        }
    }

    /// The end of a login flow that has failed for the reason that `e` gives.
    pub fn login_failed(username: String, e: Error) -> (step: LoginStep)
        ensures
            step@ == failed(username@, e@),
    {
        let token = String::new();
        LoginStep::Done(LoginResponse { username, token, err: e.0 })
    }

    /// The end of a login flow that has reached the issuing of the token: the
    /// token without a reason, or the reason without a token. An empty token
    /// is no token: it ends the flow with a signing error.
    pub fn login_issued(username: String, issued: Result<String, Error>) -> (step: LoginStep)
        ensures
            step@ == match issued {
                Ok(token) => if token@.len() > 0 {
                    LoginStepView::Done(
                        LoginResponseView { username: username@, token: token@, err: Seq::empty() },
                    )
                } else {
                    failed(username@, signing_error_text())
                },
                Err(e) => failed(username@, e@),
            },
    {
        match issued {
            Ok(token) => {
                if token.as_str().is_empty() {
                    Self::login_failed(username, Error::signing())
                } else {
                    let err = String::new();
                    LoginStep::Done(LoginResponse { username, token, err })
                }
            },
            Err(e) => Self::login_failed(username, e),
        }
    }

    /// Handles one frame from the transport. A login must be signed against
    /// the current anti-replay token; a direct message or a broadcast needs a
    /// session that has logged in and a valid token; a ping is answered; a
    /// close deregisters the identity and ends the session.
    pub fn handle<A: Author>(&mut self, author: &A, frame: Frame) -> (out: Vec<Action>)
        ensures
            final(self)@ == frame_state(old(self)@, frame@),
            actions(out@) == frame_actions(old(self)@, author, frame@),
    {
        if self.state == SessionState::Closed {
            return no_action();
        }
        match frame {
            Frame::Text(msg) => self.handle_text(author, msg),
            Frame::Malformed(reason) => report(NotifyLevel::Error, reason),
            Frame::Ping(payload) => one_action(Action::Pong(payload)),
            Frame::Close => {
                let out = if self.state == SessionState::Authenticated {
                    one_action(Action::Dispatch(InnerMessage::Deregister { name: self.name.clone() }))
                } else {
                    no_action()
                };
                self.state = SessionState::Closed;
                out
            },
            Frame::Other => no_action(),
        }
    }

    /// Handles one envelope from the client.
    pub fn handle_text<A: Author>(&self, author: &A, msg: OuterMessage) -> (out: Vec<Action>)
        ensures
            actions(out@) == text_actions(self@, author, msg@),
    {
        match msg {
            OuterMessage::Login { username, password, signature } => {
                if self.state != SessionState::Unauthenticated {
                    return report_error(Error::already_logged_in());
                }
                let expected = login_signature(
                    username.as_str(),
                    password.as_str(),
                    self.nonce.as_str(),
                );
                if signature == expected {
                    one_action(Action::Login(Login { username, password, signature }))
                } else {
                    report_error(Error::invalid_signature())
                }
            },
            OuterMessage::In { token, to, content } => {
                if self.state != SessionState::Authenticated {
                    return report_error(Error::not_logged_in());
                }
                match author.verify(token) {
                    Ok(_) => one_action(
                        Action::Dispatch(
                            InnerMessage::Send { from: self.name.clone(), to, content },
                        ),
                    ),
                    Err(e) => report_error(e),
                }
            },
            OuterMessage::Broadcast { token, content } => {
                if self.state != SessionState::Authenticated {
                    return report_error(Error::not_logged_in());
                }
                match author.verify(token) {
                    Ok(_) => one_action(
                        Action::Dispatch(
                            InnerMessage::Broadcast { from: self.name.clone(), content },
                        ),
                    ),
                    Err(e) => report_error(e),
                }
            },
            OuterMessage::AntiReplayToken => one_action(
                Action::Reply(OuterMessage::AntiReplayTokenResponse { token: self.nonce.clone() }),
            ),
            _ => report_error(Error::unexpected_message()),
        }
    }

    /// Handles the outcome of a login flow. On success the session takes the
    /// identity and `fresh` as its new anti-replay token, which must differ
    /// from the current one, registers with the dispatcher and answers with
    /// the token; a session that was closed meanwhile does nothing.
    pub fn handle_login_response(&mut self, msg: LoginResponse, fresh: String) -> (out: Vec<
        Action,
    >)
        requires
            logs_in(old(self)@, msg@) ==> fresh@ != old(self)@.nonce,
        ensures
            final(self)@ == login_state(old(self)@, msg@, fresh@),
            actions(out@) == login_actions(old(self)@, msg@, fresh@),
            logs_in(old(self)@, msg@) ==> final(self)@.nonce != old(self)@.nonce,
    {
        if self.state == SessionState::Closed {
            return no_action();
        }
        if msg.token.as_str().is_empty() {
            return report(NotifyLevel::Error, msg.err);
        }
        if self.state == SessionState::Authenticated {
            return report_error(Error::already_logged_in());
        }
        let mut out: Vec<Action> = Vec::new();
        out.push(
            Action::Dispatch(InnerMessage::Register { name: msg.username.clone(), addr: self.handle }),
        );
        out.push(
            Action::Reply(
                OuterMessage::LoginResponse { token: msg.token, anti_replay_token: fresh.clone() },
            ),
        );
        self.name = msg.username;
        self.nonce = fresh;
        self.state = SessionState::Authenticated;
        assert(actions(out@) =~= login_actions(old(self)@, msg@, fresh@));
        out
    }

    /// Handles the notice that the identity has been registered to another
    /// session: the client is warned.
    pub fn handle_repeat_login_warning(&self) -> (out: Vec<Action>)
        ensures
            actions(out@) == inner_actions(self@, InnerMessageView::RepeatLogin, Seq::empty()),
    {
        if self.state == SessionState::Closed {
            return no_action();
        }
        report(NotifyLevel::Warning, "repeat login".to_owned())
    }

    /// Handles a message that reaches the session from inside: what the
    /// dispatcher routes is rendered for the client, and the outcome of a
    /// login flow is handled with `fresh` as the next anti-replay token, which
    /// must differ from the current one where the login succeeds.
    pub fn handle_inner(&mut self, msg: InnerMessage, fresh: String) -> (out: Vec<Action>)
        requires
            rotates(old(self)@, msg@) ==> fresh@ != old(self)@.nonce,
        ensures
            final(self)@ == inner_state(old(self)@, msg@, fresh@),
            actions(out@) == inner_actions(old(self)@, msg@, fresh@),
            rotates(old(self)@, msg@) ==> final(self)@.nonce != old(self)@.nonce,
    {
        if self.state == SessionState::Closed {
            return no_action();
        }
        match msg {
            InnerMessage::Out { from, content } => one_action(
                Action::Reply(OuterMessage::Out { from, content }),
            ),
            InnerMessage::Users(names) => one_action(Action::Reply(OuterMessage::Users(names))),
            InnerMessage::Notify { level, content } => report(level, content),
            InnerMessage::RepeatLogin(_) => self.handle_repeat_login_warning(),
            InnerMessage::LoginResponse(response) => self.handle_login_response(response, fresh),
            _ => no_action(),
        }
    }

    /// Replaces the anti-replay token on request, with one that differs
    /// from it.
    pub fn refresh_nonce(&mut self, fresh: String)
        requires
            fresh@ != old(self)@.nonce,
        ensures
            final(self)@ == (WSView { nonce: fresh@, ..old(self)@ }),
            final(self)@.nonce != old(self)@.nonce,
    {
        self.nonce = fresh;
    }

    /// The identity: the name that the session has logged in as.
    pub fn name(&self) -> (name: String)
        ensures
            name@ == self@.name,
    {
        self.name.clone()
    }

    /// The handle that the dispatcher reaches this session by.
    pub fn addr(&self) -> (handle: u64)
        ensures
            handle == self@.handle,
    {
        self.handle
    }

    /// The current anti-replay token.
    pub fn anti_replay_token(&self) -> (nonce: String)
        ensures
            nonce@ == self@.nonce,
    {
        self.nonce.clone()
    }

    /// Where the session stands in its life.
    pub fn state(&self) -> (state: SessionState)
        ensures
            state == self@.state,
    {
        self.state
    }
}

/// A login payload that was signed against one anti-replay token is rejected
/// once the session's token is another, wherever the two digests differ.
pub proof fn stale_signature_is_rejected<A: Author>(
    s: WSView,
    author: &A,
    username: Seq<char>,
    password: Seq<char>,
    signed_against: Seq<char>,
)
    requires
        s.state == SessionState::Unauthenticated,
        s.nonce != signed_against,
        expected_signature(username, password, s.nonce) != expected_signature(
            username,
            password,
            signed_against,
        ),
    ensures
        text_actions(
            s,
            author,
            OuterMessageView::Login {
                username,
                password,
                signature: expected_signature(username, password, signed_against),
            },
        ) == error_notice(invalid_signature_text()),
{
}

/// A login payload is accepted exactly when it is signed against the
/// session's current anti-replay token.
pub proof fn login_is_bound_to_the_nonce<A: Author>(
    s: WSView,
    author: &A,
    username: Seq<char>,
    password: Seq<char>,
    signature: Seq<char>,
)
    requires
        s.state == SessionState::Unauthenticated,
    ensures
        text_actions(s, author, OuterMessageView::Login { username, password, signature }) == if signature
            == expected_signature(username, password, s.nonce) {
            seq![ActionView::Login { username, password, signature }]
        } else {
            error_notice(invalid_signature_text())
        },
{
}

/// A closed session stays closed, stays as it is, and does nothing, whatever
/// reaches it.
pub proof fn closed_is_terminal<A: Author>(
    s: WSView,
    author: &A,
    frame: FrameView,
    msg: InnerMessageView,
    fresh: Seq<char>,
)
    requires
        s.state == SessionState::Closed,
    ensures
        frame_state(s, frame) == s,
        frame_actions(s, author, frame) == Seq::<ActionView>::empty(),
        inner_state(s, msg, fresh) == s,
        inner_actions(s, msg, fresh) == Seq::<ActionView>::empty(),
{
}

/// A session that has logged in keeps its identity and its anti-replay
/// token, and never goes back to waiting for a login: only a close changes it.
pub proof fn authenticated_stays_until_closed(
    s: WSView,
    frame: FrameView,
    msg: InnerMessageView,
    fresh: Seq<char>,
)
    requires
        s.state == SessionState::Authenticated,
    ensures
        inner_state(s, msg, fresh) == s,
        frame_state(s, frame) == if frame is Close {
            WSView { state: SessionState::Closed, ..s }
        } else {
            s
        },
{
}

/// A session registers with the dispatcher only when a login succeeds while
/// it waits for one, and then under the identity that logged in, with its own
/// handle, and with the fresh anti-replay token in place.
pub proof fn registers_only_on_login_success(
    s: WSView,
    msg: InnerMessageView,
    fresh: Seq<char>,
    i: int,
)
    requires
        0 <= i < inner_actions(s, msg, fresh).len(),
        inner_actions(s, msg, fresh)[i] is Dispatch,
    ensures
        msg matches InnerMessageView::LoginResponse(response) && logs_in(s, response)
            && inner_actions(s, msg, fresh)[i] == ActionView::Dispatch(
            InnerMessageView::Register { name: response.username, addr: s.handle },
        ) && inner_state(s, msg, fresh).name == response.username && inner_state(
            s,
            msg,
            fresh,
        ).nonce == fresh && inner_state(s, msg, fresh).state == SessionState::Authenticated,
{
}

/// A frame makes a session route something only when the session has logged
/// in and the frame carries a token that the credential service accepts; a
/// close of such a session deregisters its identity.
pub proof fn routes_only_with_a_valid_token<A: Author>(
    s: WSView,
    author: &A,
    frame: FrameView,
    i: int,
)
    requires
        0 <= i < frame_actions(s, author, frame).len(),
        frame_actions(s, author, frame)[i] is Dispatch,
    ensures
        s.state == SessionState::Authenticated,
        match frame {
            FrameView::Text(OuterMessageView::In { token, to, content }) => author.claim(token)
                is Some && frame_actions(s, author, frame) == seq![
                ActionView::Dispatch(InnerMessageView::Send { from: s.name, to, content }),
            ],
            FrameView::Text(OuterMessageView::Broadcast { token, content }) => author.claim(token)
                is Some && frame_actions(s, author, frame) == seq![
                ActionView::Dispatch(InnerMessageView::Broadcast { from: s.name, content }),
            ],
            FrameView::Close => frame_actions(s, author, frame) == seq![
                ActionView::Dispatch(InnerMessageView::Deregister { name: s.name }),
            ],
            _ => false,
        },
{
}

/// A login that succeeds leaves the session logged in under the identity,
/// with an anti-replay token that differs from the one before, and makes one
/// registration, of that identity with the session's own handle, before it
/// answers the client with the token and the new anti-replay token.
pub proof fn login_success_rotates_the_nonce(s: WSView, response: LoginResponseView, fresh: Seq<char>)
    requires
        logs_in(s, response),
        fresh != s.nonce,
    ensures
        login_state(s, response, fresh).state == SessionState::Authenticated,
        login_state(s, response, fresh).name == response.username,
        login_state(s, response, fresh).nonce == fresh,
        login_state(s, response, fresh).nonce != s.nonce,
        login_actions(s, response, fresh) == seq![
            ActionView::Dispatch(
                InnerMessageView::Register { name: response.username, addr: s.handle },
            ),
            ActionView::Reply(
                OuterMessageView::LoginResponse { token: response.token, anti_replay_token: fresh },
            ),
        ],
{
}

/// The session admits a login payload: it waits for a login, and the payload
/// is signed against its current anti-replay token.
pub open spec fn admits(s: WSView, login: Login) -> bool {
    s.state == SessionState::Unauthenticated && login.signature@ == expected_signature(
        login.username@,
        login.password@,
        s.nonce,
    )
}

/// The session once it has logged in as `username` with the anti-replay
/// token `fresh`.
pub open spec fn logged_in(s: WSView, username: Seq<char>, fresh: Seq<char>) -> WSView {
    WSView { name: username, handle: s.handle, nonce: fresh, state: SessionState::Authenticated }
}

/// The actions are those of a login that has succeeded: one registration of
/// `username` with the session's handle, then the answer to the client, with
/// a token that is not empty and proves `uid`, and with `fresh` as the new
/// anti-replay token.
pub open spec fn answers_login<A: Author>(
    out: Seq<ActionView>,
    s: WSView,
    author: &A,
    username: Seq<char>,
    uid: i32,
    fresh: Seq<char>,
) -> bool {
    &&& out.len() == 2
    &&& out[0] == ActionView::Dispatch(InnerMessageView::Register { name: username, addr: s.handle })
    &&& out[1] matches ActionView::Reply(
        OuterMessageView::LoginResponse { token, anti_replay_token },
    )
    &&& token.len() > 0
    &&& author.claim(token) == Some(uid)
    &&& anti_replay_token == fresh
}

/// Runs a whole login on answers of the gateway that are at hand: the frame
/// with the payload, the question for the account, the question for its
/// user, the issuing of the token, and the outcome. A payload that the
/// session does not admit is answered as any frame is, and a password that
/// does not match the account is reported. Otherwise the login succeeds,
/// unless the credential service fails to issue a token that it does not owe:
/// the session is logged in under the name, its anti-replay token is `fresh`
/// and differs from the one before, and the client gets a token that proves
/// the user.
pub fn login_with_answers<A: Author>(
    ws: &mut WS,
    author: &A,
    login: Login,
    account: Account,
    user: User,
    fresh: String,
) -> (out: Vec<Action>)
    requires
        fresh@ != old(ws)@.nonce,
    ensures
        !admits(old(ws)@, login) ==> final(ws)@ == old(ws)@ && actions(out@) == frame_actions(
            old(ws)@,
            author,
            FrameView::Text(
                OuterMessageView::Login {
                    username: login.username@,
                    password: login.password@,
                    signature: login.signature@,
                },
            ),
        ),
        admits(old(ws)@, login) && author.digest(login.password@, account.salt@)
            != account.password@ ==> final(ws)@ == old(ws)@ && actions(out@) == error_notice(
            invalid_account_text(),
        ),
        admits(old(ws)@, login) && author.digest(login.password@, account.salt@)
            == account.password@ ==> {
            ||| final(ws)@ == logged_in(old(ws)@, login.username@, fresh@) && answers_login(
                actions(out@),
                old(ws)@,
                author,
                login.username@,
                user.id,
                fresh@,
            )
            ||| !author.owes_token(user.id) && final(ws)@ == old(ws)@ && actions(out@)
                == error_notice(signing_error_text())
        },
{
    let username = login.username.clone();
    let password = login.password.clone();
    let frame = Frame::Text(
        OuterMessage::Login {
            username: login.username,
            password: login.password,
            signature: login.signature,
        },
    );
    let out = ws.handle(author, frame);
    assert(actions(out@).len() == out@.len());
    if out.len() != 1 {
        return out;
    }
    assert(actions(out@)[0] == out@[0]@);
    match &out[0] {
        Action::Login(_) => {},
        _ => {
            return out;
        },
    }
    let step = ws.handle_login(
        author,
        username.clone(),
        password.clone(),
        LoginStage::Account(Ok(Some(account))),
    );
    let step = match step {
        LoginStep::GetUser(_) => ws.handle_login(
            author,
            username,
            password,
            LoginStage::User(Ok(Some(user))),
        ),
        other => other,
    };
    match step {
        LoginStep::Done(response) => ws.handle_login_response(response, fresh),
        _ => out,
    }
}

} // verus!
