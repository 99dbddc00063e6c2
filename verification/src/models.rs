//! The records that the data-access gateway stores and returns.

use vstd::prelude::*;

verus! {

/// A user of the relay.
#[derive(Debug, Clone, PartialEq, Eq)]
pub struct User {
    pub id: i32,
    pub name: String,
    pub account: i32,
}

/// A user that is not stored yet.
#[derive(Debug, Clone, PartialEq, Eq)]
pub struct UserInsert {
    pub name: String,
    pub account: i32,
}

/// The credentials behind a user: the digest of the password and its salt.
#[derive(Debug, Clone, PartialEq, Eq)]
pub struct Account {
    pub id: i32,
    pub phone: String,
    pub password: String,
    pub salt: String,
}

/// An account that is not stored yet.
#[derive(Debug, Clone, PartialEq, Eq)]
pub struct AccountInsert {
    pub phone: String,
    pub password: String,
    pub salt: String,
}

/// A channel that users can join.
#[derive(Debug, Clone, PartialEq, Eq)]
pub struct Channel {
    pub id: i32,
    pub name: String,
    pub description: String,
    pub administrator: i32,
}

/// A channel that is not stored yet.
#[derive(Debug, Clone, PartialEq, Eq)]
pub struct ChannelInsert {
    pub name: String,
    pub description: String,
    pub administrator: i32,
}

/// A request of one user to become the friend of another.
#[derive(Debug, Clone, Copy, PartialEq, Eq)]
pub struct FriendApplication {
    pub id: i32,
    pub from: i32,
    pub to: i32,
}

/// A friend request that is not stored yet.
#[derive(Debug, Clone, Copy, PartialEq, Eq)]
pub struct FriendApplicationInsert {
    pub from: i32,
    pub to: i32,
}

/// A request of a user to join a channel.
#[derive(Debug, Clone, Copy, PartialEq, Eq)]
pub struct JoinApplication {
    pub id: i32,
    pub from: i32,
    pub to: i32,
}

/// A join request that is not stored yet.
#[derive(Debug, Clone, Copy, PartialEq, Eq)]
pub struct JoinApplicationInsert {
    pub from: i32,
    pub to: i32,
}

/// Two users who are friends.
#[derive(Debug, Clone, Copy, PartialEq, Eq)]
pub struct Friend {
    pub id: i32,
    pub user_a: i32,
    pub user_b: i32,
}

/// A friendship that is not stored yet.
#[derive(Debug, Clone, Copy, PartialEq, Eq)]
pub struct FriendInsert {
    pub user_a: i32,
    pub user_b: i32,
}

/// A user's membership of a channel.
#[derive(Debug, Clone, Copy, PartialEq, Eq)]
pub struct Member {
    pub id: i32,
    pub channel: i32,
    pub user: i32,
}

/// A membership that is not stored yet.
#[derive(Debug, Clone, Copy, PartialEq, Eq)]
pub struct MemberInsert {
    pub channel: i32,
    pub user: i32,
}

} // verus!
