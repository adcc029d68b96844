//! The "find all users" use case: it asks the repository, and turns what
//! comes back into a response and, on failure, one error record for the log.

use crate::application::context_request::ContextRequest;
use crate::application::logger_trait::LogLevel;
use crate::application::logger_trait::LogRecord;
use crate::application::logger_trait::LoggerTrait;
use crate::domain::error_common::is_status;
use crate::domain::error_common::ErrorCommon;
use crate::domain::error_common::STATUS_OK;
use crate::domain::user_model::User;
use crate::domain::user_repository::UserRepositoryTrait;
use vstd::prelude::*;
use vstd::string::StringExecFns;

verus! {

/// The body of a response, before it is written as JSON: the list of users
/// (an array of records) or a message (an object with the one field
/// `message`).
#[derive(Debug)]
pub enum ResponseBody {
    Users(Vec<User>),
    Message(String),
}

/// A response: its status, the request identifier that it echoes in the
/// header `X-Request-Id`, and its body.
#[derive(Debug)]
pub struct HttpResponse {
    pub status: u16,
    pub request_id: String,
    pub body: ResponseBody,
}

/// What the use case decides once the repository has answered: the response
/// to send and, after a failure, the message to hand to the logger at error
/// level.
#[derive(Debug)]
pub struct Answer {
    pub response: HttpResponse,
    pub error_message: Option<String>,
}

/// What one run of the use case asks of its caller: the response to send
/// and, after a failure, the record to write to the log.
#[derive(Debug)]
pub struct ExecOutcome {
    pub response: HttpResponse,
    pub log: Option<LogRecord>,
}

/// The message that the use case logs for a failure.
pub open spec fn error_log_text(err: ErrorCommon) -> Seq<char> {
    "UserFindAllUsecaseでエラー: "@ + err.text()
}

impl HttpResponse {
    /// This response is the one owed for what the repository found: after a
    /// success status 200 and the very list; after a failure the failure's
    /// status and text. Either way it echoes the context's request
    /// identifier.
    pub open spec fn answers(self, ctx: ContextRequest, found: Result<Vec<User>, ErrorCommon>) -> bool {
        &&& ctx.request_id() == Some(self.request_id@)
        &&& match found {
            Ok(users) => {
                &&& self.status == STATUS_OK
                &&& self.body == ResponseBody::Users(users)
            },
            Err(err) => {
                &&& self.status == err.status()
                &&& match self.body {
                    ResponseBody::Message(message) => message@ == err.text(),
                    ResponseBody::Users(_) => false,
                }
            },
        }
    }
}

impl Answer {
    /// This answer is the one owed for what the repository found: the
    /// response, and a message for the logger exactly after a failure.
    pub open spec fn answers(self, ctx: ContextRequest, found: Result<Vec<User>, ErrorCommon>) -> bool {
        &&& self.response.answers(ctx, found)
        &&& match found {
            Ok(_) => self.error_message.is_none(),
            Err(err) => match self.error_message {
                Some(message) => message@ == error_log_text(err),
                None => false,
            },
        }
    }
}

impl ExecOutcome {
    /// This outcome is the one owed for what the repository found: the
    /// response, and one record at error level exactly after a failure.
    pub open spec fn answers(self, ctx: ContextRequest, found: Result<Vec<User>, ErrorCommon>) -> bool {
        &&& self.response.answers(ctx, found)
        &&& match found {
            Ok(_) => self.log.is_none(),
            Err(_) => match self.log {
                Some(record) => record.level == LogLevel::Error,
                None => false,
            },
        }
    }
}

/// Turns what the repository found into the answer of the use case.
pub fn respond(ctx: &ContextRequest, found: Result<Vec<User>, ErrorCommon>) -> (r: Answer)
    requires
        ctx.request_id().is_some(),
    ensures
        r.answers(*ctx, found),
{
    let request_id = ctx.get_request_id().unwrap();
    match found {
        Ok(users) => Answer {
            response: HttpResponse {
                status: STATUS_OK,
                request_id,
                body: ResponseBody::Users(users),
            },
            error_message: None,
        },
        Err(err) => {
            let text = err.to_string();
            let mut err_msg = String::from_str("UserFindAllUsecaseでエラー: ");
            err_msg.append(text.as_str());
            Answer {
                response: HttpResponse {
                    status: err.status_code(),
                    request_id,
                    body: ResponseBody::Message(text),
                },
                error_message: Some(err_msg),
            }
        },
    }
}

/// A success of the repository is answered with status 200, the list that
/// the repository returned, in its order, and the context's request
/// identifier.
pub proof fn law_success_response(response: HttpResponse, ctx: ContextRequest, users: Vec<User>)
    requires
        response.answers(ctx, Ok(users)),
    ensures
        response.status == 200,
        response.body == ResponseBody::Users(users),
        ctx.request_id() == Some(response.request_id@),
{
}

/// An internal failure is answered with status 500 and the fixed message,
/// and nothing else of the failure reaches the caller.
pub proof fn law_internal_error_response(response: HttpResponse, ctx: ContextRequest)
    requires
        response.answers(ctx, Err(ErrorCommon::InternalServerError)),
    ensures
        response.status == 500,
        response.body is Message,
        response.body->Message_0@ == "Internal Server Error"@,
        ctx.request_id() == Some(response.request_id@),
{
}

/// A failure that names its status and message is answered with exactly
/// that status and that message.
pub proof fn law_custom_error_response(
    response: HttpResponse,
    ctx: ContextRequest,
    status_code: u16,
    message: String,
)
    requires
        response.answers(ctx, Err(ErrorCommon::CustomError { status_code, message })),
    ensures
        response.status == status_code,
        response.body is Message,
        response.body->Message_0@ == message@,
        ctx.request_id() == Some(response.request_id@),
{
}

/// The status of a response is an HTTP status, whatever the repository
/// found, as long as a failure that carries a status carries an HTTP status.
pub proof fn law_response_status_is_status(
    response: HttpResponse,
    ctx: ContextRequest,
    found: Result<Vec<User>, ErrorCommon>,
)
    requires
        response.answers(ctx, found),
        found.is_err() ==> found->Err_0.wf(),
    ensures
        is_status(response.status),
{
}

/// A run of the use case asks for a log record exactly when the repository
/// failed, and that one record is at error level.
pub proof fn law_one_error_record(
    out: ExecOutcome,
    ctx: ContextRequest,
    found: Result<Vec<User>, ErrorCommon>,
)
    requires
        out.answers(ctx, found),
    ensures
        found.is_err() <==> out.log.is_some(),
        out.log.is_some() ==> out.log.unwrap().level == LogLevel::Error,
{
}

/// The use case as the handler sees it.
pub trait UserFindAllUsecaseTrait {
    /// Runs the use case for a request whose context carries a request
    /// identifier: for some result of the repository, the outcome is the one
    /// owed for it.
    fn exec(&self, ctx: ContextRequest) -> (out: ExecOutcome)
        requires
            ctx.request_id().is_some(),
        ensures
            exists|found: Result<Vec<User>, ErrorCommon>| #[trigger] out.answers(ctx, found),
    ;
}

/// The repositories that the use case works with.
#[derive(Clone)]
pub struct UserFindAllRepository<R> {
    pub user_repository: R,
}

/// The use case with its repository and its logger.
#[derive(Clone)]
pub struct UserFindAllUsecase<R, L> {
    pub repo: UserFindAllRepository<R>,
    pub logger: L,
}

impl<R: UserRepositoryTrait, L: LoggerTrait> UserFindAllUsecase<R, L> {
    /// `out` is an outcome of a run in which the repository answered
    /// `found`: the repository may answer so, the outcome is the one owed
    /// for it, and after a failure the record holds a line that the logger
    /// may make of the failure's message.
    pub open spec fn runs(
        self,
        ctx: ContextRequest,
        found: Result<Vec<User>, ErrorCommon>,
        out: ExecOutcome,
    ) -> bool {
        &&& self.repo.user_repository.finds(ctx, found)
        &&& out.answers(ctx, found)
        &&& match (found, out.log) {
            (Err(err), Some(record)) => self.logger.renders(
                ctx,
                error_log_text(err),
                record.line@,
            ),
            _ => true,
        }
    }

    /// The use case over the given repositories and logger.
    pub fn new(repo: UserFindAllRepository<R>, logger: L) -> (r: Self)
        ensures
            r.repo == repo,
            r.logger == logger,
    {
        UserFindAllUsecase { repo, logger }
    }
}

impl<R: UserRepositoryTrait, L: LoggerTrait> UserFindAllUsecaseTrait for UserFindAllUsecase<R, L> {
    /// Asks the repository for all users, answers with `respond`, and after
    /// a failure hands the message to the logger's `error`.
    fn exec(&self, ctx: ContextRequest) -> (out: ExecOutcome)
        ensures
            exists|found: Result<Vec<User>, ErrorCommon>| #[trigger] self.runs(ctx, found, out),
    {
        let found = self.repo.user_repository.find_all(&ctx);
        let answer = respond(&ctx, found);
        let log = match &answer.error_message {
            Some(message) => Some(self.logger.error(&ctx, message.as_str())),
            None => None,
        };
        let out = ExecOutcome { response: answer.response, log };
        assert(self.runs(ctx, found, out));
        out
    }
}

} // verus!
