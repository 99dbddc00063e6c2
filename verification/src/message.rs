//! The envelopes of the relay: the outer ones travel between a client and its
//! session, the inner ones between sessions and the dispatcher.

use crate::models::{Channel, FriendApplication, JoinApplication, User};
use vstd::prelude::*;

verus! {

/// The views of the strings in `v`, in order.
pub open spec fn texts(v: Seq<String>) -> Seq<Seq<char>> {
    v.map_values(|s: String| s@)
}

/// A login attempt: the signature binds name and password to the session's
/// anti-replay token.
#[derive(Debug, Clone, PartialEq, Eq)]
pub struct Login {
    pub username: String,
    pub password: String,
    pub signature: String,
}

/// The outcome of a login flow, handed back to the session that began it.
/// An empty token means failure, and `err` then holds the reason.
#[derive(Debug, Clone, PartialEq, Eq)]
pub struct LoginResponse {
    pub username: String,
    pub token: String,
    pub err: String,
}

/// What a `LoginResponse` holds.
pub struct LoginResponseView {
    pub username: Seq<char>,
    pub token: Seq<char>,
    pub err: Seq<char>,
}

impl View for LoginResponse {
    type V = LoginResponseView;

    open spec fn view(&self) -> LoginResponseView {
        LoginResponseView { username: self.username@, token: self.token@, err: self.err@ }
    }
}

/// The notice that a session's identity has been registered to another session.
#[derive(Debug, Clone, Copy, PartialEq, Eq)]
pub struct RepeatLoginWarning;

/// How serious a notice is.
#[derive(Debug, Clone, Copy, PartialEq, Eq, Structural)]
pub enum NotifyLevel {
    Notify,
    Warning,
    Error,
}

/// A command of a logged-in user about friends and channels.
#[derive(Debug, Clone, PartialEq, Eq)]
pub enum Input {
    FindUser { phone: String },
    AddFriend { phone: String },
    FindChannel { q: String },
    JoinChannel { cid: i32 },
    FriendApplications { applications: Vec<FriendApplication> },
    JoinApplications { applications: Vec<JoinApplication> },
    ApproveFriend { phone: i32 },
    RejectFriend { phone: i32 },
    ApproveJoin { cid: i32 },
    RejectJoin { cid: i32 },
}

/// A command together with the token that authorises it.
#[derive(Debug, Clone, PartialEq, Eq)]
pub struct InputMessage {
    pub token: String,
    pub input: Input,
}

/// The answer to an application.
#[derive(Debug, Clone, Copy, PartialEq, Eq)]
pub enum Result {
    Approved,
    Rejected,
}

/// What the server answers to a command.
#[derive(Debug, Clone, PartialEq, Eq)]
pub enum Output {
    LoginResponse { token: String },
    FindUserResponse { uid: i32, username: String },
    AddFriendResponse { user: Option<User> },
    FindChannelResponse { channels: Vec<Channel> },
    JoinChannelResponse { cid: i32, name: String },
    AddFriendResult { uid: i32, result: Result },
    JoinChannelResult { uid: i32, result: Result },
    Notify { level: NotifyLevel, content: String },
}

/// An answer on its way to the client.
#[derive(Debug, Clone, PartialEq, Eq)]
pub struct OutputMessage {
    pub output: Output,
}

/// A command whose token has been checked, with the identity that sent it.
#[derive(Debug, Clone, PartialEq, Eq)]
pub struct Command {
    pub from: String,
    pub input: Input,
}

/// An envelope between a client and its session. The first four variants come
/// from the client, the others go to it.
#[derive(Debug, Clone, PartialEq, Eq)]
pub enum OuterMessage {
    Login { username: String, password: String, signature: String },
    In { token: String, to: String, content: String },
    Broadcast { token: String, content: String },
    AntiReplayToken,
    Out { from: String, content: String },
    Users(Vec<String>),
    Notify { level: NotifyLevel, content: String },
    LoginResponse { token: String, anti_replay_token: String },
    AntiReplayTokenResponse { token: String },
}

/// What an `OuterMessage` holds.
pub enum OuterMessageView {
    Login { username: Seq<char>, password: Seq<char>, signature: Seq<char> },
    In { token: Seq<char>, to: Seq<char>, content: Seq<char> },
    Broadcast { token: Seq<char>, content: Seq<char> },
    AntiReplayToken,
    Out { from: Seq<char>, content: Seq<char> },
    Users(Seq<Seq<char>>),
    Notify { level: NotifyLevel, content: Seq<char> },
    LoginResponse { token: Seq<char>, anti_replay_token: Seq<char> },
    AntiReplayTokenResponse { token: Seq<char> },
}

impl View for OuterMessage {
    type V = OuterMessageView;

    open spec fn view(&self) -> OuterMessageView {
        match *self {
            OuterMessage::Login { username, password, signature } => OuterMessageView::Login {
                username: username@,
                password: password@,
                signature: signature@,
            },
            OuterMessage::In { token, to, content } => OuterMessageView::In {
                token: token@,
                to: to@,
                content: content@,
            },
            OuterMessage::Broadcast { token, content } => OuterMessageView::Broadcast {
                token: token@,
                content: content@,
            },
            OuterMessage::AntiReplayToken => OuterMessageView::AntiReplayToken,
            OuterMessage::Out { from, content } => OuterMessageView::Out {
                from: from@,
                content: content@,
            },
            OuterMessage::Users(names) => OuterMessageView::Users(texts(names@)),
            OuterMessage::Notify { level, content } => OuterMessageView::Notify {
                level,
                content: content@,
            },
            OuterMessage::LoginResponse { token, anti_replay_token } => {
                OuterMessageView::LoginResponse {
                    token: token@,
                    anti_replay_token: anti_replay_token@,
                }
            },
            OuterMessage::AntiReplayTokenResponse { token } => {
                OuterMessageView::AntiReplayTokenResponse { token: token@ }
            },
        }
    }
}

/// An envelope between a session and the dispatcher. `addr` is the handle of
/// the session that registers.
#[derive(Debug, Clone, PartialEq, Eq)]
pub enum InnerMessage {
    Register { name: String, addr: u64 },
    Deregister { name: String },
    Send { from: String, to: String, content: String },
    Broadcast { from: String, content: String },
    Out { from: String, content: String },
    Users(Vec<String>),
    Notify { level: NotifyLevel, content: String },
    Login(Login),
    LoginResponse(LoginResponse),
    RepeatLogin(RepeatLoginWarning),
}

/// What an `InnerMessage` holds.
pub enum InnerMessageView {
    Register { name: Seq<char>, addr: u64 },
    Deregister { name: Seq<char> },
    Send { from: Seq<char>, to: Seq<char>, content: Seq<char> },
    Broadcast { from: Seq<char>, content: Seq<char> },
    Out { from: Seq<char>, content: Seq<char> },
    Users(Seq<Seq<char>>),
    Notify { level: NotifyLevel, content: Seq<char> },
    Login { username: Seq<char>, password: Seq<char>, signature: Seq<char> },
    LoginResponse(LoginResponseView),
    RepeatLogin,
}

impl View for InnerMessage {
    type V = InnerMessageView;

    open spec fn view(&self) -> InnerMessageView {
        match *self {
            InnerMessage::Register { name, addr } => InnerMessageView::Register {
                name: name@,
                addr,
            },
            InnerMessage::Deregister { name } => InnerMessageView::Deregister { name: name@ },
            InnerMessage::Send { from, to, content } => InnerMessageView::Send {
                from: from@,
                to: to@,
                content: content@,
            },
            InnerMessage::Broadcast { from, content } => InnerMessageView::Broadcast {
                from: from@,
                content: content@,
            },
            InnerMessage::Out { from, content } => InnerMessageView::Out {
                from: from@,
                content: content@,
            },
            InnerMessage::Users(names) => InnerMessageView::Users(texts(names@)),
            InnerMessage::Notify { level, content } => InnerMessageView::Notify {
                level,
                content: content@,
            },
            InnerMessage::Login(login) => InnerMessageView::Login {
                username: login.username@,
                password: login.password@,
                signature: login.signature@,
            },
            InnerMessage::LoginResponse(response) => InnerMessageView::LoginResponse(response@),
            InnerMessage::RepeatLogin(_) => InnerMessageView::RepeatLogin,
        }
    }
}

} // verus!
