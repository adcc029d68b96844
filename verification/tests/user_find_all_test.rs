use axum::http::HeaderMap;
use chrono::{FixedOffset, Utc};
use rust_axum_domain::application::context_request::ContextRequest;
use rust_axum_domain::application::logger_trait::{LogLevel, LogRecord, LoggerTrait};
use rust_axum_domain::application::user_find_all::{
    respond, ResponseBody, UserFindAllRepository, UserFindAllUsecase, UserFindAllUsecaseTrait,
};
use rust_axum_domain::domain::error_common::ErrorCommon;
use rust_axum_domain::domain::timestamp::Timestamp;
use rust_axum_domain::domain::user_model::User;
use rust_axum_domain::domain::user_repository::UserRepositoryTrait;
use rust_axum_domain::infrastructure::logger_log::Logger;
use rust_axum_domain::infrastructure::user_repository::UserRepository;
use rust_axum_domain::registry::AppState;

struct FixedRepository {
    answer: Result<Vec<User>, ErrorCommon>,
}

impl UserRepositoryTrait for FixedRepository {
    fn find_all(&self, _ctx: &ContextRequest) -> Result<Vec<User>, ErrorCommon> {
        self.answer.clone()
    }
}

struct PlainLogger {}

impl LoggerTrait for PlainLogger {
    fn info(&self, _ctx: &ContextRequest, msg: &str) -> LogRecord {
        LogRecord { level: LogLevel::Info, line: msg.to_string() }
    }

    fn warn(&self, _ctx: &ContextRequest, msg: &str) -> LogRecord {
        LogRecord { level: LogLevel::Warn, line: msg.to_string() }
    }

    fn error(&self, _ctx: &ContextRequest, msg: &str) -> LogRecord {
        LogRecord { level: LogLevel::Error, line: msg.to_string() }
    }
}

fn jst_now() -> Timestamp {
    let now = Utc::now().with_timezone(&FixedOffset::east_opt(9 * 3600).unwrap());
    Timestamp {
        secs: now.timestamp(),
        nanos: now.timestamp_subsec_nanos(),
        offset_secs: now.offset().local_minus_utc(),
    }
}

fn sample_ctx() -> ContextRequest {
    let mut h = HeaderMap::new();
    h.insert("X-Request-Id", "xxx-yyy-zzz-001".parse().unwrap());
    ContextRequest {
        header: h,
        method: "GET".to_string(),
        uri: "/api/v1/users".to_string(),
    }
}

fn two_users(now: Timestamp) -> Vec<User> {
    vec![
        User {
            id: 1,
            uid: "xxxx-xxxx-xxxx-0001".to_string(),
            last_name: "田中".to_string(),
            first_name: "太郎".to_string(),
            email: "t.tanaka@example.com".to_string(),
            created_at: now,
            updated_at: now,
            deleted_at: None,
        },
        User {
            id: 2,
            uid: "xxxx-xxxx-xxxx-0002".to_string(),
            last_name: "佐藤".to_string(),
            first_name: "二郎".to_string(),
            email: "z.satou@example.com".to_string(),
            created_at: now,
            updated_at: now,
            deleted_at: None,
        },
    ]
}

fn users_of(body: ResponseBody) -> Vec<User> {
    match body {
        ResponseBody::Users(users) => users,
        ResponseBody::Message(message) => panic!("a message: {}", message),
    }
}

fn message_of(body: ResponseBody) -> String {
    match body {
        ResponseBody::Message(message) => message,
        ResponseBody::Users(_) => panic!("a list of users"),
    }
}

#[test]
fn test_exec_success() {
    let now = jst_now();
    let user_find_all_usecase = UserFindAllUsecase {
        repo: UserFindAllRepository {
            user_repository: FixedRepository { answer: Ok(two_users(now)) },
        },
        logger: PlainLogger {},
    };

    let out = user_find_all_usecase.exec(sample_ctx());
    let res = out.response;

    assert_eq!(res.status, 200);
    assert_eq!(res.request_id, "xxx-yyy-zzz-001");
    assert!(out.log.is_none());

    let res_data = users_of(res.body);
    assert_eq!(res_data.len(), 2);

    assert_eq!(res_data[0].id, 1);
    assert_eq!(res_data[0].uid, "xxxx-xxxx-xxxx-0001".to_string());
    assert_eq!(res_data[0].last_name, "田中".to_string());
    assert_eq!(res_data[0].first_name, "太郎".to_string());
    assert_eq!(res_data[0].email, "t.tanaka@example.com".to_string());
    assert!(res_data[0].created_at <= jst_now());
    assert_eq!(res_data[0].updated_at, res_data[0].created_at);
    assert!(res_data[0].deleted_at.is_none());

    assert_eq!(res_data[1].id, 2);
    assert_eq!(res_data[1].uid, "xxxx-xxxx-xxxx-0002".to_string());
    assert_eq!(res_data[1].last_name, "佐藤".to_string());
    assert_eq!(res_data[1].first_name, "二郎".to_string());
    assert_eq!(res_data[1].email, "z.satou@example.com".to_string());
    assert!(res_data[1].created_at <= jst_now());
    assert_eq!(res_data[1].updated_at, res_data[1].created_at);
    assert!(res_data[1].deleted_at.is_none());
}

#[test]
fn test_exec_error() {
    let user_find_all_usecase = UserFindAllUsecase {
        repo: UserFindAllRepository {
            user_repository: FixedRepository { answer: Err(ErrorCommon::InternalServerError) },
        },
        logger: PlainLogger {},
    };

    let out = user_find_all_usecase.exec(sample_ctx());
    let res = out.response;

    assert_eq!(res.status, 500);
    let body_str = message_of(res.body);
    assert!(body_str.contains("Internal Server Error"));
}

#[test]
fn test_response_ok() {
    let state = AppState::new("dummy".to_string());
    let mut header = HeaderMap::new();
    let start = rust_axum_domain::presentation::common_middleware::request_middleware(
        &mut header,
        "GET",
        "/api/v1/users",
    )
    .unwrap();
    let request_id = start.ctx.get_request_id().unwrap();
    let out = rust_axum_domain::presentation::user_handler::find_all(&state, start.ctx);
    assert!(out.log.is_none());
    let res = out.response;

    assert_eq!(res.status, 200);
    assert_eq!(res.request_id, request_id);

    let req_body = users_of(res.body);
    assert_eq!(req_body.len(), 2);

    assert_eq!(req_body[0].id, 1);
    assert_eq!(req_body[0].uid, "xxxx-xxxx-xxxx-0001");
    assert_eq!(req_body[0].last_name, "田中");
    assert_eq!(req_body[0].first_name, "太郎");
    assert_eq!(req_body[0].email, "t.tanaka@example.com");
    assert_eq!(req_body[0].created_at, req_body[0].updated_at);
    assert!(req_body[0].deleted_at.is_none());

    assert_eq!(req_body[1].id, 2);
    assert_eq!(req_body[1].uid, "xxxx-xxxx-xxxx-0002");
    assert_eq!(req_body[1].last_name, "佐藤");
    assert_eq!(req_body[1].first_name, "二郎");
    assert_eq!(req_body[1].email, "z.satou@example.com");
    assert_eq!(req_body[1].created_at, req_body[1].updated_at);
    assert!(req_body[1].deleted_at.is_none());
}

fn usecase_over(
    answer: Result<Vec<User>, ErrorCommon>,
) -> UserFindAllUsecase<FixedRepository, Logger> {
    UserFindAllUsecase::new(
        UserFindAllRepository { user_repository: FixedRepository { answer } },
        Logger::new(),
    )
}

#[test]
fn success_keeps_the_list_and_its_order() {
    let now = Timestamp::jst(7, 0);
    let mut users = two_users(now);
    users.reverse();
    let answer = respond(&sample_ctx(), Ok(users));
    assert_eq!(answer.response.status, 200);
    assert_eq!(answer.response.request_id, "xxx-yyy-zzz-001");
    assert!(answer.error_message.is_none());
    let body = users_of(answer.response.body);
    assert_eq!(body.len(), 2);
    assert_eq!(body[0].id, 2);
    assert_eq!(body[1].id, 1);
    assert_eq!(body[0].created_at.secs, 7);
}

#[test]
fn success_with_no_users_is_an_empty_list() {
    let answer = respond(&sample_ctx(), Ok(vec![]));
    assert_eq!(answer.response.status, 200);
    assert!(answer.error_message.is_none());
    assert_eq!(users_of(answer.response.body).len(), 0);
}

#[test]
fn internal_error_is_500_with_the_fixed_message() {
    let answer = respond(&sample_ctx(), Err(ErrorCommon::InternalServerError));
    assert_eq!(answer.response.status, 500);
    assert_eq!(answer.response.request_id, "xxx-yyy-zzz-001");
    assert_eq!(message_of(answer.response.body), "Internal Server Error");
    assert_eq!(
        answer.error_message,
        Some("UserFindAllUsecaseでエラー: Internal Server Error".to_string())
    );
}

#[test]
fn custom_error_carries_its_status_and_message() {
    let err = ErrorCommon::CustomError { status_code: 404, message: "no such user".to_string() };
    let answer = respond(&sample_ctx(), Err(err));
    assert_eq!(answer.response.status, 404);
    assert_eq!(answer.response.request_id, "xxx-yyy-zzz-001");
    assert_eq!(message_of(answer.response.body), "no such user");
    assert_eq!(
        answer.error_message,
        Some("UserFindAllUsecaseでエラー: no such user".to_string())
    );
}

#[test]
fn custom_error_with_status_200_still_logs() {
    let err = ErrorCommon::CustomError { status_code: 200, message: "".to_string() };
    let out = usecase_over(Err(err)).exec(sample_ctx());
    assert_eq!(out.response.status, 200);
    assert_eq!(message_of(out.response.body), "");
    let record = out.log.unwrap();
    assert_eq!(record.level, LogLevel::Error);
    assert_eq!(
        record.line,
        "[request_id=xxx-yyy-zzz-001 method=GET uri=/api/v1/users] UserFindAllUsecaseでエラー: "
    );
}

#[test]
fn failed_exec_logs_once_at_error_level() {
    let out = usecase_over(Err(ErrorCommon::InternalServerError)).exec(sample_ctx());
    assert_eq!(out.response.status, 500);
    assert_eq!(out.response.request_id, "xxx-yyy-zzz-001");
    let record = out.log.unwrap();
    assert_eq!(record.level, LogLevel::Error);
    assert_eq!(
        record.line,
        "[request_id=xxx-yyy-zzz-001 method=GET uri=/api/v1/users] UserFindAllUsecaseでエラー: Internal Server Error"
    );
}

#[test]
fn successful_exec_logs_nothing() {
    let out = usecase_over(Ok(two_users(Timestamp::jst(1, 0)))).exec(sample_ctx());
    assert_eq!(out.response.status, 200);
    assert!(out.log.is_none());
    assert_eq!(users_of(out.response.body).len(), 2);
}

#[test]
fn exec_hands_the_message_to_the_given_logger() {
    let usecase = UserFindAllUsecase {
        repo: UserFindAllRepository {
            user_repository: FixedRepository {
                answer: Err(ErrorCommon::CustomError {
                    status_code: 503,
                    message: "busy".to_string(),
                }),
            },
        },
        logger: PlainLogger {},
    };
    let out = usecase.exec(sample_ctx());
    assert_eq!(out.response.status, 503);
    assert_eq!(out.log.unwrap().line, "UserFindAllUsecaseでエラー: busy");
}

#[test]
fn error_texts_and_statuses() {
    assert_eq!(ErrorCommon::InternalServerError.to_string(), "Internal Server Error");
    assert_eq!(ErrorCommon::InternalServerError.status_code(), 500);
    let err = ErrorCommon::CustomError { status_code: 422, message: "bad".to_string() };
    assert_eq!(err.to_string(), "bad");
    assert_eq!(err.status_code(), 422);
}

#[test]
fn repository_answers_with_the_two_fixed_records() {
    let repo = UserRepository::new("db".to_string(), Logger::new());
    assert_eq!(repo._db, "db");
    let users = repo.find_all(&sample_ctx()).unwrap();
    assert_eq!(users.len(), 2);
    assert_eq!(users[0].id, 1);
    assert_eq!(users[0].uid, "xxxx-xxxx-xxxx-0001");
    assert_eq!(users[0].last_name, "田中");
    assert_eq!(users[0].first_name, "太郎");
    assert_eq!(users[0].email, "t.tanaka@example.com");
    assert_eq!(users[0].created_at.secs, 1_753_481_410);
    assert_eq!(users[0].created_at.nanos, 0);
    assert_eq!(users[0].created_at.offset_secs, 32_400);
    assert_eq!(users[0].updated_at, users[0].created_at);
    assert_eq!(users[0].deleted_at, None);
    assert_eq!(users[1].id, 2);
    assert_eq!(users[1].uid, "xxxx-xxxx-xxxx-0002");
    assert_eq!(users[1].last_name, "佐藤");
    assert_eq!(users[1].first_name, "二郎");
    assert_eq!(users[1].email, "z.satou@example.com");
    assert_eq!(users[1].created_at.secs, 1_753_572_600);
    assert_eq!(users[1].updated_at, users[1].created_at);
    assert_eq!(users[1].deleted_at, None);
}

#[test]
fn fixed_users_take_the_given_times() {
    let users = UserRepository::fixed_users(Timestamp::jst(1, 2), Timestamp::jst(3, 4));
    assert_eq!(users.len(), 2);
    assert_eq!(users[0].created_at.secs, 1);
    assert_eq!(users[0].updated_at.nanos, 2);
    assert_eq!(users[1].created_at.secs, 3);
    assert_eq!(users[1].updated_at.nanos, 4);
}

#[test]
fn usecase_new_holds_what_it_was_given() {
    let usecase = UserFindAllUsecase::new(
        UserFindAllRepository { user_repository: UserRepository::new("x".to_string(), Logger::new()) },
        Logger::new(),
    );
    assert_eq!(usecase.repo.user_repository._db, "x");
    let out = usecase.exec(sample_ctx());
    assert_eq!(out.response.status, 200);
    assert!(out.log.is_none());
}
