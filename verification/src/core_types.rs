//! Rooms and accounts of the room-based chat model.

use vstd::prelude::*;
use crate::text::str_equals;

verus! {

/// Who may enter a room.
#[derive(Debug, Clone, Copy, PartialEq, Eq, Structural)]
pub enum RoomState {
    Open,
    Private,
    Closed,
}

/// A chat room.
#[derive(Debug)]
pub struct Room {
    pub id: u16,
    pub name: String,
    pub description: String,
    pub state: RoomState,
    pub password_hash: Option<String>,
}

impl Clone for Room {
    fn clone(&self) -> (r: Self)
        ensures
            r == *self,
    {
        let password_hash = match &self.password_hash {
            Some(h) => Some(h.clone()),
            None => None,
        };
        Room { id: self.id, name: self.name.clone(), description: self.description.clone(), state: self.state, password_hash }
    }
}

impl Room {
    pub fn new(id: u16, name: String, description: String, state: RoomState) -> (r: Self)
        ensures
            r == (Room { id, name, description, state, password_hash: None }),
    {
        Room { id, name, description, state, password_hash: None }
    }

    /// A private room that asks for a password.
    pub fn new_with_password(id: u16, name: String, description: String, password_hash: String) -> (r: Self)
        ensures
            r == (Room { id, name, description, state: RoomState::Private, password_hash: Some(password_hash) }),
    {
        Room { id, name, description, state: RoomState::Private, password_hash: Some(password_hash) }
    }

    pub fn is_password_protected(&self) -> (r: bool)
        ensures
            r == self.password_hash is Some,
    {
        self.password_hash.is_some()
    }

    /// Whether `password_hash` opens the room: any hash opens a room without
    /// a password, only the stored one opens a protected room.
    pub fn verify_password(&self, password_hash: &str) -> (r: bool)
        ensures
            r == match self.password_hash {
                Some(h) => h@ == password_hash@,
                None => true,
            },
    {
        match &self.password_hash {
            Some(h) => str_equals(h.as_str(), password_hash),
            None => true,
        }
    }
}

/// Persistent user account.
#[derive(Debug)]
pub struct Account {
    pub username: String,
    pub hash: String,
    pub user_id: u16,
}

impl Clone for Account {
    fn clone(&self) -> (r: Self)
        ensures
            r == *self,
    {
        Account { username: self.username.clone(), hash: self.hash.clone(), user_id: self.user_id }
    }
}

impl Account {
    pub fn new(username: String, hash: String, user_id: u16) -> (r: Self)
        ensures
            r == (Account { username, hash, user_id }),
    {
        Account { username, hash, user_id }
    }
}

} // verus!
