//! The error codes and statuses that the service answers with.
//!
//! A structured error code reads `SERVICE-AGGREGATE-CATEGORY-NNN`, the number
//! padded with zeros to three digits, such as `USR-USER-BIZ-001`.

use vstd::prelude::*;
use crate::errors::{CreateRandomNicknameUserError, FindUserByAuthError};
use crate::kernel::{AuthId, AuthProvider, auth_provider_name};
use crate::text::{push_zero_padded, text, zero_padded};
use crate::user::Authentication;

verus! {

/// The service an error comes from.
#[derive(Debug, Clone, Copy, PartialEq, Eq, Structural)]
pub enum Service {
    User,
}

/// The aggregate an error is about.
#[derive(Debug, Clone, Copy, PartialEq, Eq, Structural)]
pub enum Aggregate {
    User,
    Auth,
}

/// Whose fault an error is.
#[derive(Debug, Clone, Copy, PartialEq, Eq, Structural)]
pub enum Category {
    Client,
    Business,
    Server,
}

pub open spec fn service_text(s: Service) -> Seq<char> {
    match s {
        Service::User => "USR"@,
    }
}

pub open spec fn aggregate_text(a: Aggregate) -> Seq<char> {
    match a {
        Aggregate::User => "USER"@,
        Aggregate::Auth => "AUTH"@,
    }
}

pub open spec fn category_text(c: Category) -> Seq<char> {
    match c {
        Category::Client => "CLIENT"@,
        Category::Business => "BIZ"@,
        Category::Server => "SERVER"@,
    }
}

impl Service {
    pub fn to_string(&self) -> (s: String)
        ensures
            s@ == service_text(*self),
    {
        match self {
            Service::User => text("USR"),
        }
    }
}

impl Aggregate {
    pub fn to_string(&self) -> (s: String)
        ensures
            s@ == aggregate_text(*self),
    {
        match self {
            Aggregate::User => text("USER"),
            Aggregate::Auth => text("AUTH"),
        }
    }
}

impl Category {
    pub fn to_string(&self) -> (s: String)
        ensures
            s@ == category_text(*self),
    {
        match self {
            Category::Client => text("CLIENT"),
            Category::Business => text("BIZ"),
            Category::Server => text("SERVER"),
        }
    }
}

/// An error code made of its service, aggregate, category and number.
#[derive(Debug, Clone, Copy, PartialEq, Eq, Structural)]
pub struct StructuredErrorCode {
    pub service: Service,
    pub aggregate: Aggregate,
    pub category: Category,
    pub number: u16,
}

/// The text of an error code.
pub open spec fn error_code_text(c: StructuredErrorCode) -> Seq<char> {
    service_text(c.service) + "-"@ + aggregate_text(c.aggregate) + "-"@ + category_text(c.category)
        + "-"@ + zero_padded(c.number as nat, 3)
}

impl StructuredErrorCode {
    /// The code's text: its parts joined by hyphens, the number with at least
    /// three digits.
    pub fn to_string(&self) -> (s: String)
        ensures
            s@ == error_code_text(*self),
    {
        let mut s = self.service.to_string();
        s.append("-");
        let a = self.aggregate.to_string();
        s.append(a.as_str());
        s.append("-");
        let c = self.category.to_string();
        s.append(c.as_str());
        s.append("-");
        push_zero_padded(&mut s, self.number as u64, 3);
        s
    }
}

/// The gRPC status codes that the service answers with.
#[derive(Debug, Clone, Copy, PartialEq, Eq, Structural)]
pub enum StatusCode {
    Unauthenticated,
    AlreadyExists,
    Internal,
}

/// The detail that a status carries: the error code and named values.
#[derive(Debug, Clone, PartialEq, Eq)]
pub struct ErrorDetail {
    pub error_code: String,
    pub metadata: Vec<(String, String)>,
}

/// A status to answer with: its code, its message and, for the structured
/// errors, its detail.
#[derive(Debug, Clone, PartialEq, Eq)]
pub struct StatusReport {
    pub code: StatusCode,
    pub message: String,
    pub detail: Option<ErrorDetail>,
}

/// The errors of authentication.
#[derive(Debug, Clone, Copy, PartialEq, Eq, Structural)]
pub enum AuthError {
    AuthenticationMissing,
}

/// The code of an authentication error.
pub open spec fn auth_error_code(e: AuthError) -> StructuredErrorCode {
    match e {
        AuthError::AuthenticationMissing => StructuredErrorCode {
            service: Service::User,
            aggregate: Aggregate::Auth,
            category: Category::Client,
            number: 1,
        },
    }
}

pub open spec fn auth_error_message() -> Seq<char> {
    "요청에 유효한 사용자 인증 정보가 없습니다."@
}

impl AuthError {
    /// The error's code.
    pub fn structured_code(&self) -> (c: StructuredErrorCode)
        ensures
            c == auth_error_code(*self),
    {
        match self {
            AuthError::AuthenticationMissing => StructuredErrorCode {
                service: Service::User,
                aggregate: Aggregate::Auth,
                category: Category::Client,
                number: 1,
            },
        }
    }

    /// The status of the error: unauthenticated, with its code as detail.
    pub fn to_status(self) -> (r: StatusReport)
        ensures
            r.code == StatusCode::Unauthenticated,
            r.message@ == auth_error_message(),
            r.detail matches Some(d) && d.error_code@ == error_code_text(auth_error_code(self))
                && d.metadata@.len() == 0,
    {
        let error_code = self.structured_code().to_string();
        StatusReport {
            code: StatusCode::Unauthenticated,
            message: text("요청에 유효한 사용자 인증 정보가 없습니다."),
            detail: Some(ErrorDetail { error_code, metadata: Vec::new() }),
        }
    }
}

/// The errors of the user service, as its callers see them.
#[derive(Debug, Clone, PartialEq, Eq)]
pub enum UserError {
    AlreadyRegistered { auth_provider: String, auth_id: String },
    NicknameGenerationFailed,
    CreateUserUnknown,
    FindUserUnknown,
}

/// The code of a user error.
pub open spec fn user_error_code(e: UserError) -> StructuredErrorCode {
    match e {
        UserError::AlreadyRegistered { .. } => StructuredErrorCode {
            service: Service::User,
            aggregate: Aggregate::User,
            category: Category::Business,
            number: 1,
        },
        UserError::NicknameGenerationFailed | UserError::CreateUserUnknown => StructuredErrorCode {
            service: Service::User,
            aggregate: Aggregate::User,
            category: Category::Server,
            number: 1,
        },
        UserError::FindUserUnknown => StructuredErrorCode {
            service: Service::User,
            aggregate: Aggregate::User,
            category: Category::Server,
            number: 2,
        },
    }
}

pub open spec fn already_registered_message() -> Seq<char> {
    "이미 등록된 사용자입니다."@
}

pub open spec fn internal_failure_message() -> Seq<char> {
    "서버 내부 오류로 인해 요청을 처리하지 못했습니다."@
}

impl UserError {
    /// The error's code.
    pub fn structured_code(&self) -> (c: StructuredErrorCode)
        ensures
            c == user_error_code(*self),
    {
        match self {
            UserError::AlreadyRegistered { .. } => StructuredErrorCode {
                service: Service::User,
                aggregate: Aggregate::User,
                category: Category::Business,
                number: 1,
            },
            UserError::NicknameGenerationFailed | UserError::CreateUserUnknown => StructuredErrorCode {
                service: Service::User,
                aggregate: Aggregate::User,
                category: Category::Server,
                number: 1,
            },
            UserError::FindUserUnknown => StructuredErrorCode {
                service: Service::User,
                aggregate: Aggregate::User,
                category: Category::Server,
                number: 2,
            },
        }
    }

    /// The status of the error: an already registered user is answered with
    /// "already exists" and names its provider and identifier; every other
    /// error is an internal failure. The detail carries the error's code.
    pub fn to_status(self) -> (r: StatusReport)
        ensures
            r.detail matches Some(d) && d.error_code@ == error_code_text(user_error_code(self)),
            self matches UserError::AlreadyRegistered { auth_provider, auth_id } ==> {
                &&& r.code == StatusCode::AlreadyExists
                &&& r.message@ == already_registered_message()
                &&& r.detail matches Some(d) && d.metadata@.len() == 2 && d.metadata@[0].0@ == "auth_provider"@
                    && d.metadata@[0].1@ == auth_provider@ && d.metadata@[1].0@ == "auth_id"@
                    && d.metadata@[1].1@ == auth_id@
            },
            !(self is AlreadyRegistered) ==> {
                &&& r.code == StatusCode::Internal
                &&& r.message@ == internal_failure_message()
                &&& r.detail matches Some(d) && d.metadata@.len() == 0
            },
    {
        let error_code = self.structured_code().to_string();
        match self {
            UserError::AlreadyRegistered { auth_provider, auth_id } => {
                let mut metadata: Vec<(String, String)> = Vec::new();
                metadata.push((text("auth_provider"), auth_provider));
                metadata.push((text("auth_id"), auth_id));
                StatusReport {
                    code: StatusCode::AlreadyExists,
                    message: text("이미 등록된 사용자입니다."),
                    detail: Some(ErrorDetail { error_code, metadata }),
                }
            },
            UserError::NicknameGenerationFailed | UserError::CreateUserUnknown | UserError::FindUserUnknown => {
                StatusReport {
                    code: StatusCode::Internal,
                    message: text("서버 내부 오류로 인해 요청을 처리하지 못했습니다."),
                    detail: Some(ErrorDetail { error_code, metadata: Vec::new() }),
                }
            },
        }
    }
}

impl From<CreateRandomNicknameUserError> for UserError {
    /// An already registered authentication keeps its provider's name and its
    /// identifier; the other errors lose their message.
    fn from(err: CreateRandomNicknameUserError) -> (r: Self)
        ensures
            err matches CreateRandomNicknameUserError::AlreadyRegistered(p, i) ==> r matches UserError::AlreadyRegistered {
                auth_provider,
                auth_id,
            } && auth_provider@ == auth_provider_name(p) && auth_id@ == i@,
            err is NicknameGenerationFailed ==> r is NicknameGenerationFailed,
            err is Unknown ==> r is CreateUserUnknown,
    {
        match err {
            CreateRandomNicknameUserError::AlreadyRegistered(auth_provider, auth_id) => UserError::AlreadyRegistered {
                auth_provider: auth_provider.to_string(),
                auth_id: auth_id.get_value().clone(),
            },
            CreateRandomNicknameUserError::NicknameGenerationFailed(_) => UserError::NicknameGenerationFailed,
            CreateRandomNicknameUserError::Unknown(_) => UserError::CreateUserUnknown,
        }
    }
}

impl vstd::std_specs::convert::FromSpecImpl<CreateRandomNicknameUserError> for UserError {
    /// The conversion's result is stated by `from`'s own `ensures`.
    open spec fn obeys_from_spec() -> bool {
        false
    }

    open spec fn from_spec(v: CreateRandomNicknameUserError) -> Self {
        arbitrary()
    }
}

impl From<FindUserByAuthError> for UserError {
    /// Every failure to find a user is an unknown failure.
    fn from(err: FindUserByAuthError) -> (r: Self)
        ensures
            r is FindUserUnknown,
    {
        match err {
            FindUserByAuthError::Unknown(_) => UserError::FindUserUnknown,
        }
    }
}

impl vstd::std_specs::convert::FromSpecImpl<FindUserByAuthError> for UserError {
    open spec fn obeys_from_spec() -> bool {
        true
    }

    open spec fn from_spec(v: FindUserByAuthError) -> Self {
        UserError::FindUserUnknown
    }
}

/// A status with no detail.
fn plain_status(code: StatusCode, message: &str) -> (r: StatusReport)
    ensures
        r.code == code,
        r.message@ == message@,
        r.detail is None,
{
    StatusReport { code, message: text(message), detail: None }
}

/// The status that a failure to create a user is answered with: "already
/// exists" for a registered authentication, else an internal failure.
pub fn map_create_user_error_to_status(error: CreateRandomNicknameUserError) -> (r: StatusReport)
    ensures
        r.detail is None,
        error is AlreadyRegistered ==> r.code == StatusCode::AlreadyExists && r.message@
            == already_registered_message(),
        !(error is AlreadyRegistered) ==> r.code == StatusCode::Internal && r.message@
            == internal_failure_message(),
{
    match error {
        CreateRandomNicknameUserError::AlreadyRegistered(_, _) => plain_status(
            StatusCode::AlreadyExists,
            "이미 등록된 사용자입니다.",
        ),
        CreateRandomNicknameUserError::NicknameGenerationFailed(_) | CreateRandomNicknameUserError::Unknown(_) => {
            plain_status(StatusCode::Internal, "서버 내부 오류로 인해 요청을 처리하지 못했습니다.")
        },
    }
}

/// The status that a failure to find a user is answered with: an internal
/// failure.
pub fn map_find_user_error_to_status(error: FindUserByAuthError) -> (r: StatusReport)
    ensures
        r.detail is None,
        r.code == StatusCode::Internal,
        r.message@ == internal_failure_message(),
{
    match error {
        FindUserByAuthError::Unknown(_) => plain_status(
            StatusCode::Internal,
            "서버 내부 오류로 인해 요청을 처리하지 못했습니다.",
        ),
    }
}

pub open spec fn missing_authentication_message() -> Seq<char> {
    "서버 내부 오류: 사용자 인증 정보를 처리하지 못했습니다."@
}

/// The authentication that the interceptor attached to a request; an internal
/// failure when there is none, since every request passes the interceptor.
pub fn extract_authentication(found: Option<&Authentication>) -> (r: Result<Authentication, StatusReport>)
    ensures
        found matches Some(a) ==> r matches Ok(b) && b.auth_provider() == a.auth_provider() && b.auth_id()
            == a.auth_id(),
        found is None ==> (r matches Err(s) && s.code == StatusCode::Internal && s.message@
            == missing_authentication_message() && s.detail is None),
{
    match found {
        Some(auth) => Ok(auth.clone()),
        None => Err(plain_status(StatusCode::Internal, "서버 내부 오류: 사용자 인증 정보를 처리하지 못했습니다.")),
    }
}

/// The header that names the authentication provider.
pub const AUTH_PROVIDER_HEADER_NAME: &'static str = "x-auth-provider";

/// The header that holds the identifier the provider gave.
pub const AUTH_ID_HEADER_NAME: &'static str = "x-auth-id";

/// Reads the authentication of each request from its headers.
#[derive(Debug, Clone, Copy)]
pub struct AuthInterceptor;

/// The outcome of reading the authentication headers, checked in this order:
/// the provider header is present, is text, names a provider; the identifier
/// header is present and is text.
pub open spec fn authentication_outcome(
    provider_header: Option<Result<Seq<char>, ()>>,
    id_header: Option<Result<Seq<char>, ()>>,
) -> Result<(AuthProvider, Seq<char>), Seq<char>> {
    match provider_header {
        None => Err("Missing x-auth-provider header"@),
        Some(Err(_)) => Err("Invalid x-auth-provider format"@),
        Some(Ok(p)) => if exists|q: AuthProvider| auth_provider_name(q) == p {
            match id_header {
                None => Err("Missing x-auth-id header"@),
                Some(Err(_)) => Err("Invalid x-auth-id format"@),
                Some(Ok(i)) => Ok((choose|q: AuthProvider| auth_provider_name(q) == p, i)),
            }
        } else {
            Err("Invalid auth provider"@)
        },
    }
}

/// An accepted request is authenticated exactly as its headers say: the
/// provider named by the provider header and the identifier header's text,
/// unchanged; and when both headers are present and text and the provider
/// header names a provider, the request is accepted.
pub proof fn lemma_authentication_keeps_headers(
    provider_header: Option<Result<Seq<char>, ()>>,
    id_header: Option<Result<Seq<char>, ()>>,
    q: AuthProvider,
    i: Seq<char>,
)
    ensures
        authentication_outcome(provider_header, id_header) == Ok::<(AuthProvider, Seq<char>), Seq<char>>((q, i))
            ==> provider_header == Some(Ok::<Seq<char>, ()>(auth_provider_name(q))) && id_header == Some(
            Ok::<Seq<char>, ()>(i),
        ),
        provider_header == Some(Ok::<Seq<char>, ()>(auth_provider_name(q))) && id_header == Some(
            Ok::<Seq<char>, ()>(i),
        ) ==> authentication_outcome(provider_header, id_header) == Ok::<(AuthProvider, Seq<char>), Seq<char>>((q, i)),
{
    match provider_header {
        Some(Ok(p)) => {
            if exists|r: AuthProvider| auth_provider_name(r) == p {
                let r = choose|r: AuthProvider| auth_provider_name(r) == p;
                crate::kernel::lemma_auth_provider_name_round_trip(r, q);
            }
        },
        _ => {},
    }
}

/// The view of a header as the interceptor reads it: absent, not text, or
/// its text.
pub open spec fn header_view(h: Option<Result<String, ()>>) -> Option<Result<Seq<char>, ()>> {
    match h {
        None => None,
        Some(Err(e)) => Some(Err(e)),
        Some(Ok(s)) => Some(Ok(s@)),
    }
}

impl AuthInterceptor {
    /// The authentication of a request, from its provider header and its
    /// identifier header (each absent, not text, or its text); a refused
    /// request is answered "unauthenticated" with the reason.
    pub fn authenticate(
        &self,
        provider_header: Option<Result<String, ()>>,
        id_header: Option<Result<String, ()>>,
    ) -> (r: Result<Authentication, StatusReport>)
        ensures
            match authentication_outcome(header_view(provider_header), header_view(id_header)) {
                Ok((p, i)) => r matches Ok(a) && a.auth_provider() == p && a.auth_id() == i,
                Err(m) => r matches Err(s) && s.code == StatusCode::Unauthenticated && s.message@ == m
                    && s.detail is None,
            },
    {
        let provider_text = match provider_header {
            None => {
                return Err(plain_status(StatusCode::Unauthenticated, "Missing x-auth-provider header"));
            },
            Some(Err(_)) => {
                return Err(plain_status(StatusCode::Unauthenticated, "Invalid x-auth-provider format"));
            },
            Some(Ok(t)) => t,
        };
        let auth_provider = match AuthProvider::from_str(provider_text.as_str()) {
            Ok(p) => p,
            Err(_) => {
                return Err(plain_status(StatusCode::Unauthenticated, "Invalid auth provider"));
            },
        };
        let id_text = match id_header {
            None => {
                return Err(plain_status(StatusCode::Unauthenticated, "Missing x-auth-id header"));
            },
            Some(Err(_)) => {
                return Err(plain_status(StatusCode::Unauthenticated, "Invalid x-auth-id format"));
            },
            Some(Ok(t)) => t,
        };
        proof {
            assert(auth_provider_name(auth_provider) == provider_text@);
            let q = choose|q: AuthProvider| auth_provider_name(q) == provider_text@;
            assert(q == auth_provider) by {
                match q {
                    AuthProvider::KEYCLOAK => {},
                }
                match auth_provider {
                    AuthProvider::KEYCLOAK => {},
                }
            }
        }
        Ok(Authentication::new(auth_provider, AuthId::new(id_text)))
    }
}

/// The kinds of errors the service reports.
#[derive(Debug, Clone, Copy, PartialEq, Eq, Structural)]
pub enum ErrorCategory {
    InvalidRequest,
    InvalidRequestPayload,
    InternalResponseFailure,
}

pub open spec fn error_category_text(c: ErrorCategory) -> Seq<char> {
    match c {
        ErrorCategory::InvalidRequest => "INVALID_REQUEST"@,
        ErrorCategory::InvalidRequestPayload => "INVALID_REQUEST_PAYLOAD"@,
        ErrorCategory::InternalResponseFailure => "INTERNAL_RESPONSE_FAILURE"@,
    }
}

impl ErrorCategory {
    /// The category's name in shouty snake case.
    pub fn to_string(&self) -> (s: String)
        ensures
            s@ == error_category_text(*self),
    {
        match self {
            ErrorCategory::InvalidRequest => text("INVALID_REQUEST"),
            ErrorCategory::InvalidRequestPayload => text("INVALID_REQUEST_PAYLOAD"),
            ErrorCategory::InternalResponseFailure => text("INTERNAL_RESPONSE_FAILURE"),
        }
    }

    /// Every category, in declaration order.
    pub fn iter() -> (r: Vec<ErrorCategory>)
        ensures
            r@ == seq![
                ErrorCategory::InvalidRequest,
                ErrorCategory::InvalidRequestPayload,
                ErrorCategory::InternalResponseFailure,
            ],
    {
        let mut r: Vec<ErrorCategory> = Vec::new();
        r.push(ErrorCategory::InvalidRequest);
        r.push(ErrorCategory::InvalidRequestPayload);
        r.push(ErrorCategory::InternalResponseFailure);
        assert(r@ =~= seq![
            ErrorCategory::InvalidRequest,
            ErrorCategory::InvalidRequestPayload,
            ErrorCategory::InternalResponseFailure,
        ]);
        r
    }
}

/// Which side of an exchange an error is on.
#[derive(Debug, Clone, Copy, PartialEq, Eq, Structural)]
pub enum ErrorDomain {
    Request,
    Response,
}

pub open spec fn error_domain_text(d: ErrorDomain) -> Seq<char> {
    match d {
        ErrorDomain::Request => "REQUEST"@,
        ErrorDomain::Response => "RESPONSE"@,
    }
}

impl ErrorDomain {
    /// The domain's name in shouty snake case.
    pub fn to_string(&self) -> (s: String)
        ensures
            s@ == error_domain_text(*self),
    {
        match self {
            ErrorDomain::Request => text("REQUEST"),
            ErrorDomain::Response => text("RESPONSE"),
        }
    }

    /// Every domain, in declaration order.
    pub fn iter() -> (r: Vec<ErrorDomain>)
        ensures
            r@ == seq![ErrorDomain::Request, ErrorDomain::Response],
    {
        let mut r: Vec<ErrorDomain> = Vec::new();
        r.push(ErrorDomain::Request);
        r.push(ErrorDomain::Response);
        assert(r@ =~= seq![ErrorDomain::Request, ErrorDomain::Response]);
        r
    }
}

} // verus!
