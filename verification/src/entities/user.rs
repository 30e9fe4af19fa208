//! Users.

use vstd::prelude::*;

verus! {

/// One user row: the handle and the hash of the password.
#[derive(Clone, Debug, PartialEq, Eq)]
pub struct Model {
    pub id: String,
    pub password: String,
}

} // verus!
