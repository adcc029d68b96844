//! The handler of `GET /api/v1/users`.

use crate::application::context_request::ContextRequest;
use crate::application::user_find_all::ExecOutcome;
use crate::application::user_find_all::UserFindAllUsecaseTrait;
use crate::domain::error_common::STATUS_OK;
use crate::infrastructure::user_repository::UserRepository;
use crate::registry::AppState;
use vstd::prelude::*;

verus! {

/// Runs the "find all users" use case of the application for one request.
///
/// With the repository and logger that the application is wired with, every
/// request is answered with status 200, its own request identifier and the
/// two fixed records, and nothing is logged.
pub fn find_all(state: &AppState, ctx: ContextRequest) -> (out: ExecOutcome)
    requires
        ctx.request_id().is_some(),
    ensures
        out.response.status == STATUS_OK,
        ctx.request_id() == Some(out.response.request_id@),
        out.response.body is Users,
        out.response.body->Users_0@.len() == 2,
        out.response.body->Users_0@[0]@ == UserRepository::first_user(UserRepository::first_at()),
        out.response.body->Users_0@[1]@ == UserRepository::second_user(
            UserRepository::second_at(),
        ),
        out.log.is_none(),
{
    state.user_usecase.user_find_all.exec(ctx)
}

} // verus!
