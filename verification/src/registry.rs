//! The composition root: the one place where the concrete logger and
//! repository are made and wired into the use cases.

use crate::application::user_find_all::UserFindAllRepository;
use crate::application::user_find_all::UserFindAllUsecase;
use crate::infrastructure::logger_log::Logger;
use crate::infrastructure::user_repository::UserRepository;
use vstd::prelude::*;

verus! {

/// The use cases of the user entity.
pub struct UserUsecase {
    pub user_find_all: UserFindAllUsecase<UserRepository, Logger>,
}

/// The state that every request handler shares, built once and never
/// changed.
pub struct AppState {
    pub user_usecase: UserUsecase,
}

impl AppState {
    /// Wires the use cases to a repository over the given connection.
    pub fn new(db: String) -> (r: AppState)
        ensures
            r.user_usecase.user_find_all.repo.user_repository._db == db,
    {
        let logger = Logger::new();
        let user_repo = UserRepository::new(db, Logger::new());
        let user_find_all_repo = UserFindAllRepository { user_repository: user_repo };
        let user_find_all_usecase = UserFindAllUsecase::new(user_find_all_repo, logger);
        AppState { user_usecase: UserUsecase { user_find_all: user_find_all_usecase } }
    }
}

} // verus!
