//! The repository capability of the user entity.

use crate::application::context_request::ContextRequest;
use crate::domain::error_common::ErrorCommon;
use crate::domain::user_model::User;
use vstd::prelude::*;

verus! {

/// A source of user records. The use case depends on this capability alone,
/// never on the store behind it.
pub trait UserRepositoryTrait {
    /// What this repository may answer to `find_all`. A repository that says
    /// nothing of itself may answer anything.
    open spec fn finds(&self, ctx: ContextRequest, found: Result<Vec<User>, ErrorCommon>) -> bool {
        true
    }

    fn find_all(&self, ctx: &ContextRequest) -> (r: Result<Vec<User>, ErrorCommon>)
        ensures
            self.finds(*ctx, r),
    ;
}

} // verus!
