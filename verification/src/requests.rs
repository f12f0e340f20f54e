//! What the actions that come in carry: the bodies and queries of requests,
//! and the claim that names the acting user.

use vstd::prelude::*;
use crate::apps::{AppStatus, NewApp};

verus! {

/// The claim of a signed token: the acting user.
#[derive(Clone, Copy, Debug, PartialEq, Eq, Structural)]
pub struct UserClaim {
    pub user_id: i32,
}

/// A request to register.
pub struct RegisterRequest {
    pub name: String,
    pub username: String,
    pub password: String,
}

/// A request to log in.
pub struct LoginRequest {
    pub username: String,
    pub password: String,
}

/// A search for users by handle.
pub struct SearchQuery {
    pub q: String,
}

/// A search for apps by title.
pub struct AppSearchQuery {
    pub q: String,
}

/// The user to subscribe to an app.
#[derive(Clone, Copy, Debug, PartialEq, Eq, Structural)]
pub struct AppUserBody {
    pub user_id: i32,
}

/// The user to make an operator of an app.
#[derive(Clone, Copy, Debug, PartialEq, Eq, Structural)]
pub struct OperatorId {
    pub operator_id: i32,
}

/// A request to create an app. The owner is not part of it: it is the user
/// whom the token names.
pub struct NewAppRequest {
    pub title: String,
    pub description: String,
    pub weblink: String,
    pub version: String,
    pub public: bool,
    pub status: AppStatus,
}

impl NewAppRequest {
    /// The app to create for the request, with `author_id` as its owner.
    pub fn with_author(self, author_id: i32) -> (app: NewApp)
        ensures
            app.author_id == author_id,
            app.title == self.title,
            app.description == self.description,
            app.weblink == self.weblink,
            app.version == self.version,
            app.public == self.public,
            app.status == self.status,
    {
        let Self { title, description, weblink, version, public, status } = self;
        NewApp { author_id, title, description, weblink, version, public, status }
    }
}

} // verus!
