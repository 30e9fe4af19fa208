//! Users: looking one up.

use vstd::prelude::*;
use crate::common::{Phase, ServiceError};
use crate::entities::user::Model;

verus! {

/// The rules for user rows.
pub struct UserService;

impl UserService {
    /// What a lookup of user `id` comes to: the user where the store holds
    /// one, `NotFound` with the handle where it holds none, and the store's
    /// failure as it came.
    pub fn get_user<E>(id: String, found: Result<Option<Model>, E>) -> (r: Result<
        Model,
        ServiceError<E>,
    >)
        ensures
            match found {
                Ok(Some(user)) => r == Ok::<Model, ServiceError<E>>(user),
                Ok(None) => r == Err::<Model, ServiceError<E>>(ServiceError::NotFound(id)),
                Err(e) => r == Err::<Model, ServiceError<E>>(
                    ServiceError::StoreUnavailable { phase: Phase::Lookup, cause: e },
                ),
            },
    {
        match found {
            Ok(Some(user)) => Ok(user),
            Ok(None) => Err(ServiceError::NotFound(id)),
            Err(e) => Err(ServiceError::StoreUnavailable { phase: Phase::Lookup, cause: e }),
        }
    }
}

} // verus!
