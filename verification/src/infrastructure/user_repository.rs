//! The user repository. It has no store behind it yet and answers with two
//! fixed records.

use crate::application::context_request::ContextRequest;
use crate::domain::error_common::ErrorCommon;
use crate::domain::timestamp::local_epoch_seconds;
use crate::domain::timestamp::Timestamp;
use crate::domain::timestamp::JST_OFFSET_SECS;
use crate::domain::user_model::User;
use crate::domain::user_model::UserView;
use crate::domain::user_repository::UserRepositoryTrait;
use crate::infrastructure::logger_log::Logger;
use vstd::prelude::*;
use vstd::string::StringExecFns;

verus! {

/// The user repository.
pub struct UserRepository {
    pub _db: String,
    pub _logger: Logger,
}

impl UserRepository {
    /// A repository over the given connection, with the given logger.
    pub fn new(db: String, logger: Logger) -> (r: UserRepository)
        ensures
            r._db == db,
            r._logger == logger,
    {
        UserRepository { _db: db, _logger: logger }
    }

    /// The first fixed record, created and last updated at `at`.
    pub open spec fn first_user(at: Timestamp) -> UserView {
        UserView {
            id: 1,
            uid: "xxxx-xxxx-xxxx-0001"@,
            last_name: "田中"@,
            first_name: "太郎"@,
            email: "t.tanaka@example.com"@,
            created_at: at,
            updated_at: at,
            deleted_at: None,
        }
    }

    /// The second fixed record, created and last updated at `at`.
    pub open spec fn second_user(at: Timestamp) -> UserView {
        UserView {
            id: 2,
            uid: "xxxx-xxxx-xxxx-0002"@,
            last_name: "佐藤"@,
            first_name: "二郎"@,
            email: "z.satou@example.com"@,
            created_at: at,
            updated_at: at,
            deleted_at: None,
        }
    }

    /// 2025-07-26 07:10:10 in Japan Standard Time.
    pub open spec fn first_at() -> Timestamp {
        Timestamp {
            secs: local_epoch_seconds(JST_OFFSET_SECS, 2025, 7, 26, 7, 10, 10).unwrap(),
            nanos: 0,
            offset_secs: JST_OFFSET_SECS,
        }
    }

    /// 2025-07-27 08:30:00 in Japan Standard Time.
    pub open spec fn second_at() -> Timestamp {
        Timestamp {
            secs: local_epoch_seconds(JST_OFFSET_SECS, 2025, 7, 27, 8, 30, 0).unwrap(),
            nanos: 0,
            offset_secs: JST_OFFSET_SECS,
        }
    }

    /// The two fixed records with the given times.
    pub fn fixed_users(first_at: Timestamp, second_at: Timestamp) -> (r: Vec<User>)
        ensures
            r@.len() == 2,
            r@[0]@ == UserRepository::first_user(first_at),
            r@[1]@ == UserRepository::second_user(second_at),
    {
        let mut users: Vec<User> = Vec::new();
        users.push(
            User {
                id: 1,
                uid: String::from_str("xxxx-xxxx-xxxx-0001"),
                last_name: String::from_str("田中"),
                first_name: String::from_str("太郎"),
                email: String::from_str("t.tanaka@example.com"),
                created_at: first_at,
                updated_at: first_at,
                deleted_at: None,
            },
        );
        users.push(
            User {
                id: 2,
                uid: String::from_str("xxxx-xxxx-xxxx-0002"),
                last_name: String::from_str("佐藤"),
                first_name: String::from_str("二郎"),
                email: String::from_str("z.satou@example.com"),
                created_at: second_at,
                updated_at: second_at,
                deleted_at: None,
            },
        );
        users
    }
}

impl UserRepositoryTrait for UserRepository {
    /// This repository answers with the two fixed records, whatever the
    /// context, and never with a failure.
    open spec fn finds(&self, ctx: ContextRequest, found: Result<Vec<User>, ErrorCommon>) -> bool {
        match found {
            Ok(users) => {
                &&& users@.len() == 2
                &&& users@[0]@ == UserRepository::first_user(UserRepository::first_at())
                &&& users@[1]@ == UserRepository::second_user(UserRepository::second_at())
            },
            Err(_) => false,
        }
    }

    /// All users.
    fn find_all(&self, _ctx: &ContextRequest) -> (r: Result<Vec<User>, ErrorCommon>) {
        let first = Timestamp::from_local(JST_OFFSET_SECS, 2025, 7, 26, 7, 10, 10);
        let second = Timestamp::from_local(JST_OFFSET_SECS, 2025, 7, 27, 8, 30, 0);
        match (first, second) {
            (Some(first_at), Some(second_at)) => Ok(
                UserRepository::fixed_users(first_at, second_at),
            ),
            _ => Err(ErrorCommon::InternalServerError),
        }
    }
}

} // verus!
