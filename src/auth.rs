//! The bearer-token guard and the status codes of the HTTP surface.
use vstd::prelude::*;

verus! {

/// The one token that the guard accepts.
pub const VALID_TOKEN: &'static str = "im_a_valid_user";

/// The groups of endpoints.
#[derive(Clone, Copy, Debug, PartialEq, Eq, Structural)]
pub enum Scope {
    Clusters,
    Nodes,
    Operations,
    Features,
    Health,
}

impl Scope {
    /// The scope needs a valid bearer token.
    pub open spec fn guarded(self) -> bool {
        match self {
            Scope::Clusters | Scope::Nodes | Scope::Operations => true,
            Scope::Features | Scope::Health => false,
        }
    }

    pub fn is_guarded(&self) -> (r: bool)
        ensures
            r == self.guarded(),
    {
        match self {
            Scope::Clusters | Scope::Nodes | Scope::Operations => true,
            Scope::Features | Scope::Health => false,
        }
    }
}

/// `token` is the one accepted token.
pub open spec fn token_accepted(token: Seq<char>) -> bool {
    token == VALID_TOKEN@
}

/// Whether `token` is the accepted bearer token.
pub fn token_is_valid(token: &str) -> (r: bool)
    ensures
        r == token_accepted(token@),
{
    token.to_owned() == VALID_TOKEN.to_owned()
}

/// Whether a request to `scope` that carries the bearer token `bearer`
/// (none when the header is missing) is let through: always for an
/// unguarded scope, and for a guarded one only with the accepted token.
pub fn admits(scope: Scope, bearer: Option<&str>) -> (r: bool)
    ensures
        r == (!scope.guarded() || (bearer matches Some(t) && token_accepted(t@))),
{
    if !scope.is_guarded() {
        return true;
    }
    match bearer {
        Some(t) => token_is_valid(t),
        None => false,
    }
}

/// What a handler did.
#[derive(Clone, Copy, Debug, PartialEq, Eq, Structural)]
pub enum Action {
    /// A listing of a table.
    List,
    /// A read of one record by id.
    Fetch,
    /// A creation.
    Create,
    /// A replacement or a status change.
    Update,
    /// A deletion.
    Delete,
    /// An operation submission.
    Submit,
    /// A health probe or the feature list.
    Probe,
}

pub const OK: u16 = 200;

pub const CREATED: u16 = 201;

pub const BAD_REQUEST: u16 = 400;

pub const UNAUTHORIZED: u16 = 401;

pub const NOT_FOUND: u16 = 404;

pub const INTERNAL_SERVER_ERROR: u16 = 500;

/// The status code of a response to `action`, by whether it succeeded: a
/// failed read of one record or a failed update is 404, any other storage
/// failure 500.
pub open spec fn status_for(action: Action, succeeded: bool) -> u16 {
    match action {
        Action::Fetch | Action::Update => if succeeded {
            OK
        } else {
            NOT_FOUND
        },
        Action::Create | Action::Submit => if succeeded {
            CREATED
        } else {
            INTERNAL_SERVER_ERROR
        },
        Action::List | Action::Delete => if succeeded {
            OK
        } else {
            INTERNAL_SERVER_ERROR
        },
        Action::Probe => OK,
    }
}

/// The status code of a response to `action`, by whether it succeeded.
pub fn response_status(action: Action, succeeded: bool) -> (r: u16)
    ensures
        r == status_for(action, succeeded),
{
    match action {
        Action::Fetch | Action::Update => if succeeded {
            OK
        } else {
            NOT_FOUND
        },
        Action::Create | Action::Submit => if succeeded {
            CREATED
        } else {
            INTERNAL_SERVER_ERROR
        },
        Action::List | Action::Delete => if succeeded {
            OK
        } else {
            INTERNAL_SERVER_ERROR
        },
        Action::Probe => OK,
    }
}

/// The status code of a request to `scope` with bearer token `bearer` that,
/// once let through, has `action` succeed or fail: 401 when the guard refuses
/// it, whatever the handler would have done.
pub fn request_status(scope: Scope, bearer: Option<&str>, action: Action, succeeded: bool) -> (r: u16)
    ensures
        r == if !scope.guarded() || (bearer matches Some(t) && token_accepted(t@)) {
            status_for(action, succeeded)
        } else {
            UNAUTHORIZED
        },
{
    if admits(scope, bearer) {
        response_status(action, succeeded)
    } else {
        UNAUTHORIZED
    }
}

} // verus!
