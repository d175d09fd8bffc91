//! Account records for the browser-facing authentication service, which
//! verifies credentials through an attestation library and a document store.
//! The protocol itself only needs the record shape: credential verification
//! is an external collaborator.

use vstd::prelude::*;

verus! {

/// Mathematical view of a `User`.
pub ghost struct UserView {
    pub username: Seq<char>,
    pub user_id: Seq<char>,
    pub keys: Seq<Seq<char>>,
}

/// One registered account: its name, its stable id, and its serialized
/// credential keys.
#[derive(Debug)]
pub struct User {
    pub username: String,
    pub user_id: String,
    pub keys: Vec<String>,
}

impl View for User {
    type V = UserView;

    open spec fn view(&self) -> UserView {
        UserView {
            username: self.username@,
            user_id: self.user_id@,
            keys: self.keys@.map_values(|k: String| k@),
        }
    }
}

impl User {
    /// Whether this account still has any credential key: an account
    /// without one cannot finish authentication.
    pub fn has_credentials(&self) -> (r: bool)
        ensures
            r == (self@.keys.len() > 0),
    {
        self.keys.len() > 0
    }
}

} // verus!
