//! The door of the service: which requests come in without a login token,
//! and which with one.

use vstd::prelude::*;
use crate::common::AuthClaims;
use crate::text::{same_text, starts_with};

verus! {

/// Whether a request with this method and path needs no token: a
/// preflight request, a login and a sign-up.
pub open spec fn is_open(method: Seq<char>, path: Seq<char>) -> bool {
    ||| method == "OPTIONS"@
    ||| "/api/user/login"@.is_prefix_of(path)
    ||| "/api/user/create"@.is_prefix_of(path)
}

/// What the caller reports to the door.
#[derive(Clone, Debug, PartialEq, Eq)]
pub enum GateEvent {
    /// A request arrived, with the bearer token that it carries, if any.
    Arrived { bearer: Option<String> },
    /// The token was verified and said this, or did not verify.
    Verified(Option<AuthClaims>),
}

/// What the door asks of the caller next.
#[derive(Clone, Debug, PartialEq, Eq)]
pub enum GateAction {
    /// Let the request in as it is.
    Admit,
    /// Verify this token against the secret of the service and report
    /// `Verified`.
    Verify { token: String },
    /// Let the request in on behalf of the user that the claims name.
    AdmitAs(AuthClaims),
    /// Turn the request away as unauthorized.
    Refuse,
}

/// Whether a request with this method and path needs no token.
pub fn open_to_all(method: &str, path: &str) -> (open: bool)
    ensures
        open == is_open(method@, path@),
{
    same_text(method, "OPTIONS") || starts_with(path, "/api/user/login") || starts_with(
        path,
        "/api/user/create",
    )
}

/// One step of letting a request with this method and path in.
///
/// A request that needs no token comes in as it is. Any other must carry
/// a token that verifies, and comes in on behalf of the user whom the
/// token names. A verdict on a token is taken as it comes, whatever the
/// method and path.
pub fn authenticate(method: &str, path: &str, event: GateEvent) -> (action: GateAction)
    ensures
        match event {
            GateEvent::Arrived { bearer } => if is_open(method@, path@) {
                action is Admit
            } else {
                match bearer {
                    Some(t) => action matches GateAction::Verify { token } && token@ == t@,
                    None => action is Refuse,
                }
            },
            GateEvent::Verified(Some(claims)) => action == GateAction::AdmitAs(claims),
            GateEvent::Verified(None) => action is Refuse,
        },
{
    match event {
        GateEvent::Arrived { bearer } => {
            if open_to_all(method, path) {
                GateAction::Admit
            } else {
                match bearer {
                    Some(token) => GateAction::Verify { token },
                    None => GateAction::Refuse,
                }
            }
        },
        GateEvent::Verified(Some(claims)) => GateAction::AdmitAs(claims),
        GateEvent::Verified(None) => GateAction::Refuse,
    }
}

} // verus!
