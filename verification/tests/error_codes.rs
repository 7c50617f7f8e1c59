use user_service::error_code::{
    extract_authentication, map_create_user_error_to_status, map_find_user_error_to_status, Aggregate,
    AuthError, AuthInterceptor, Category, ErrorCategory, ErrorDomain, Service, StatusCode,
    StructuredErrorCode, UserError,
};
use user_service::errors::{CreateRandomNicknameUserError, FindUserByAuthError};
use user_service::kernel::{AuthId, AuthProvider};
use user_service::user::Authentication;

#[test]
fn error_category_test_all_error_domains_to_shouty_snake_case() {
    for domain in ErrorCategory::iter() {
        let actual_str = domain.to_string();

        let expected_str = match domain {
            ErrorCategory::InvalidRequest => "INVALID_REQUEST",
            ErrorCategory::InvalidRequestPayload => "INVALID_REQUEST_PAYLOAD",
            ErrorCategory::InternalResponseFailure => "INTERNAL_RESPONSE_FAILURE",
        };

        assert_eq!(actual_str, expected_str, "String conversion failed for variant: {:?}", domain);
    }
    assert_eq!(ErrorCategory::iter().len(), 3);
}

#[test]
fn error_domain_test_all_error_domains_to_shouty_snake_case() {
    for domain in ErrorDomain::iter() {
        let actual_str = domain.to_string();

        let expected_str = match domain {
            ErrorDomain::Request => "REQUEST",
            ErrorDomain::Response => "RESPONSE",
        };

        assert_eq!(actual_str, expected_str, "String conversion failed for variant: {:?}", domain);
    }
    assert_eq!(ErrorDomain::iter().len(), 2);
}

#[test]
fn structured_codes_pad_their_number() {
    let code = StructuredErrorCode {
        service: Service::User,
        aggregate: Aggregate::User,
        category: Category::Business,
        number: 1,
    };
    assert_eq!(code.to_string(), "USR-USER-BIZ-001");
    let code = StructuredErrorCode { number: 42, category: Category::Server, ..code };
    assert_eq!(code.to_string(), "USR-USER-SERVER-042");
    let code = StructuredErrorCode { number: 1234, aggregate: Aggregate::Auth, category: Category::Client, ..code };
    assert_eq!(code.to_string(), "USR-AUTH-CLIENT-1234");
    let code = StructuredErrorCode { number: 0, ..code };
    assert_eq!(code.to_string(), "USR-AUTH-CLIENT-000");
    let code = StructuredErrorCode { number: 65535, ..code };
    assert_eq!(code.to_string(), "USR-AUTH-CLIENT-65535");
}

#[test]
fn auth_error_status_carries_its_code() {
    assert_eq!(AuthError::AuthenticationMissing.structured_code().to_string(), "USR-AUTH-CLIENT-001");
    let status = AuthError::AuthenticationMissing.to_status();
    assert_eq!(status.code, StatusCode::Unauthenticated);
    assert_eq!(status.message, "요청에 유효한 사용자 인증 정보가 없습니다.");
    let detail = status.detail.unwrap();
    assert_eq!(detail.error_code, "USR-AUTH-CLIENT-001");
    assert!(detail.metadata.is_empty());
}

#[test]
fn user_error_codes() {
    let registered = UserError::AlreadyRegistered { auth_provider: "KEYCLOAK".to_string(), auth_id: "x".to_string() };
    assert_eq!(registered.structured_code().to_string(), "USR-USER-BIZ-001");
    assert_eq!(UserError::NicknameGenerationFailed.structured_code().to_string(), "USR-USER-SERVER-001");
    assert_eq!(UserError::CreateUserUnknown.structured_code().to_string(), "USR-USER-SERVER-001");
    assert_eq!(UserError::FindUserUnknown.structured_code().to_string(), "USR-USER-SERVER-002");
}

#[test]
fn already_registered_status_names_the_authentication() {
    let status = UserError::AlreadyRegistered { auth_provider: "KEYCLOAK".to_string(), auth_id: "abc".to_string() }.to_status();
    assert_eq!(status.code, StatusCode::AlreadyExists);
    assert_eq!(status.message, "이미 등록된 사용자입니다.");
    let detail = status.detail.unwrap();
    assert_eq!(detail.error_code, "USR-USER-BIZ-001");
    assert_eq!(
        detail.metadata,
        vec![("auth_provider".to_string(), "KEYCLOAK".to_string()), ("auth_id".to_string(), "abc".to_string())]
    );
}

#[test]
fn other_user_errors_are_internal() {
    for (error, code) in [
        (UserError::NicknameGenerationFailed, "USR-USER-SERVER-001"),
        (UserError::CreateUserUnknown, "USR-USER-SERVER-001"),
        (UserError::FindUserUnknown, "USR-USER-SERVER-002"),
    ] {
        let status = error.to_status();
        assert_eq!(status.code, StatusCode::Internal);
        assert_eq!(status.message, "서버 내부 오류로 인해 요청을 처리하지 못했습니다.");
        let detail = status.detail.unwrap();
        assert_eq!(detail.error_code, code);
        assert!(detail.metadata.is_empty());
    }
}

#[test]
fn use_case_errors_become_user_errors() {
    let e = UserError::from(CreateRandomNicknameUserError::AlreadyRegistered(
        AuthProvider::KEYCLOAK,
        AuthId::new("id-1".to_string()),
    ));
    assert_eq!(e, UserError::AlreadyRegistered { auth_provider: "KEYCLOAK".to_string(), auth_id: "id-1".to_string() });
    assert_eq!(
        UserError::from(CreateRandomNicknameUserError::NicknameGenerationFailed("m".to_string())),
        UserError::NicknameGenerationFailed
    );
    assert_eq!(UserError::from(CreateRandomNicknameUserError::Unknown("m".to_string())), UserError::CreateUserUnknown);
    assert_eq!(UserError::from(FindUserByAuthError::Unknown("m".to_string())), UserError::FindUserUnknown);
}

#[test]
fn use_case_errors_map_to_plain_statuses() {
    let s = map_create_user_error_to_status(CreateRandomNicknameUserError::AlreadyRegistered(
        AuthProvider::KEYCLOAK,
        AuthId::new("a".to_string()),
    ));
    assert_eq!(s.code, StatusCode::AlreadyExists);
    assert_eq!(s.message, "이미 등록된 사용자입니다.");
    assert!(s.detail.is_none());
    let s = map_create_user_error_to_status(CreateRandomNicknameUserError::Unknown("x".to_string()));
    assert_eq!(s.code, StatusCode::Internal);
    assert_eq!(s.message, "서버 내부 오류로 인해 요청을 처리하지 못했습니다.");
    let s = map_create_user_error_to_status(CreateRandomNicknameUserError::NicknameGenerationFailed("x".to_string()));
    assert_eq!(s.code, StatusCode::Internal);
    let s = map_find_user_error_to_status(FindUserByAuthError::Unknown("x".to_string()));
    assert_eq!(s.code, StatusCode::Internal);
    assert_eq!(s.message, "서버 내부 오류로 인해 요청을 처리하지 못했습니다.");
}

#[test]
fn missing_authentication_is_an_internal_failure() {
    let s = extract_authentication(None).unwrap_err();
    assert_eq!(s.code, StatusCode::Internal);
    assert_eq!(s.message, "서버 내부 오류: 사용자 인증 정보를 처리하지 못했습니다.");
    let auth = Authentication::new(AuthProvider::KEYCLOAK, AuthId::new("z".to_string()));
    let found = extract_authentication(Some(&auth)).unwrap();
    assert_eq!(found.get_auth_id().get_value(), "z");
}

#[test]
fn interceptor_reads_the_authentication_headers() {
    let interceptor = AuthInterceptor;
    let ok = |s: &str| -> Option<Result<String, ()>> { Some(Ok(s.to_string())) };
    let auth = interceptor.authenticate(ok("KEYCLOAK"), ok("user-1")).unwrap();
    assert_eq!(auth.get_auth_provider(), AuthProvider::KEYCLOAK);
    assert_eq!(auth.get_auth_id().get_value(), "user-1");

    let cases: Vec<(Option<Result<String, ()>>, Option<Result<String, ()>>, &str)> = vec![
        (None, ok("user-1"), "Missing x-auth-provider header"),
        (Some(Err(())), ok("user-1"), "Invalid x-auth-provider format"),
        (ok("GITHUB"), ok("user-1"), "Invalid auth provider"),
        (ok("KEYCLOAK"), None, "Missing x-auth-id header"),
        (ok("KEYCLOAK"), Some(Err(())), "Invalid x-auth-id format"),
        (None, None, "Missing x-auth-provider header"),
        (ok("nope"), None, "Invalid auth provider"),
    ];
    for (provider, id, message) in cases {
        let status = interceptor.authenticate(provider, id).unwrap_err();
        assert_eq!(status.code, StatusCode::Unauthenticated);
        assert_eq!(status.message, message);
        assert!(status.detail.is_none());
    }
}
