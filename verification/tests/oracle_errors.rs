use chrono::NaiveDateTime;
use std::sync::Arc;
use user_service::errors::{
    CreateRandomNicknameUserError, CreateUserRepositoryError, FindUserByAuthRepositoryError, UnitOfWorkError,
    UnitOfWorkId,
};
use user_service::kernel::{AuthId, AuthProvider, UserId};
use user_service::nickname::UserNickname;
use user_service::persistence::{
    assign_user_id, created_user, found_user, new_user_auth_entities, new_user_entity, ConstraintMapper,
    CreateUserConstraintMapper, CreateUserOracleAdapter, FindUserByAuthOracleAdapter, OracleErrorParser,
    ParsedOracleError, UserAuthEntity, UserEntity, UK_USERS_AUTH_PROVIDER_AUTH_ID, UK_USERS_USER_NICKNAME,
};
use user_service::user::User;

#[test]
fn parser_finds_the_violated_constraint() {
    let parser = OracleErrorParser::new();
    assert_eq!(
        parser.parse("ORA-00001: unique constraint (APP.UK_USERS_USER_NICKNAME) violated"),
        Some(ParsedOracleError::UniqueConstraintViolated("UK_USERS_USER_NICKNAME"))
    );
    assert_eq!(
        parser.parse("error: ORA-00001: unique constraint (S1.C2)"),
        Some(ParsedOracleError::UniqueConstraintViolated("C2"))
    );
    assert_eq!(
        parser.parse("ORA-00001: unique constraint (A.B ORA-00001: unique constraint (X.Y)"),
        Some(ParsedOracleError::UniqueConstraintViolated("Y"))
    );
}

#[test]
fn parser_ignores_other_messages() {
    let parser = OracleErrorParser::new();
    assert_eq!(parser.parse(""), None);
    assert_eq!(parser.parse("ORA-01400: cannot insert NULL"), None);
    assert_eq!(parser.parse("ORA-00001: unique constraint (NOSCHEMA)"), None);
    assert_eq!(parser.parse("ORA-00001: unique constraint (.NAME)"), None);
    assert_eq!(parser.parse("ORA-00001: unique constraint (S.)"), None);
    assert_eq!(parser.parse("ORA-00001: unique constraint (S.N"), None);
    assert_eq!(parser.parse("ORA-00001: unique constraint (S.N-X)"), None);
}

#[test]
fn parser_reads_unicode_word_characters() {
    let parser = OracleErrorParser::new();
    assert_eq!(
        parser.parse("ORA-00001: unique constraint (스키마.제약_1)"),
        Some(ParsedOracleError::UniqueConstraintViolated("제약_1"))
    );
}

#[test]
fn constraint_mapper_knows_the_users_constraints() {
    let mapper = CreateUserConstraintMapper;
    assert_eq!(
        mapper.map_error(&ParsedOracleError::UniqueConstraintViolated(UK_USERS_USER_NICKNAME)),
        Some(CreateUserRepositoryError::AlreadyExistNickname)
    );
    assert_eq!(
        mapper.map_error(&ParsedOracleError::UniqueConstraintViolated(UK_USERS_AUTH_PROVIDER_AUTH_ID)),
        Some(CreateUserRepositoryError::AlreadyRegistered)
    );
    assert_eq!(mapper.map_error(&ParsedOracleError::UniqueConstraintViolated("OTHER")), None);
}

#[test]
fn database_failures_become_repository_errors() {
    let adapter = CreateUserOracleAdapter::new(Arc::new(()), Arc::new(CreateUserConstraintMapper), Arc::new(OracleErrorParser));
    let nickname_taken = "ORA-00001: unique constraint (APP.UK_USERS_USER_NICKNAME) violated".to_string();
    assert_eq!(
        adapter.handle_db_error(Some(nickname_taken), "db".to_string()),
        CreateUserRepositoryError::AlreadyExistNickname
    );
    let registered = "ORA-00001: unique constraint (APP.UK_USERS_AUTH_PROVIDER_AUTH_ID) violated".to_string();
    assert_eq!(adapter.handle_db_error(Some(registered), "db".to_string()), CreateUserRepositoryError::AlreadyRegistered);
    let other = "ORA-00001: unique constraint (APP.PK_USERS) violated".to_string();
    assert_eq!(
        adapter.handle_db_error(Some(other), "the text".to_string()),
        CreateUserRepositoryError::Unknown("the text".to_string())
    );
    assert_eq!(
        adapter.handle_db_error(None, "no message".to_string()),
        CreateUserRepositoryError::Unknown("no message".to_string())
    );
    let _finder = FindUserByAuthOracleAdapter::new(Arc::new(1u8));
    assert_eq!(**adapter.uow_sync_manager(), ());
}

fn time() -> NaiveDateTime {
    NaiveDateTime::parse_from_str("2024-01-02 03:04:05", "%Y-%m-%d %H:%M:%S").unwrap()
}

fn auth_row(user_id: i64, provider: &str, auth_id: &str) -> UserAuthEntity {
    UserAuthEntity {
        user_auth_id: 10,
        user_id,
        auth_provider: provider.to_string(),
        auth_id: auth_id.to_string(),
        created_at: time(),
        updated_at: time(),
    }
}

fn user_row(user_id: i64, nickname: &str) -> UserEntity {
    UserEntity { user_id, user_nickname: nickname.to_string(), active: true, created_at: time(), updated_at: time() }
}

#[test]
fn new_user_rows_carry_the_user() {
    let user = User::create(UserNickname::new("nick".to_string()), AuthProvider::KEYCLOAK, AuthId::new("sub-1".to_string()));
    let row = new_user_entity(&user);
    assert_eq!(row.user_nickname, "nick");
    assert!(row.active);
    let mut auths = new_user_auth_entities(&user);
    assert_eq!(auths.len(), 1);
    assert_eq!(auths[0].user_id, 0);
    assert_eq!(auths[0].auth_provider, "KEYCLOAK");
    assert_eq!(auths[0].auth_id, "sub-1");
    assign_user_id(&mut auths, 99);
    assert_eq!(auths[0].user_id, 99);
    assert_eq!(auths[0].auth_id, "sub-1");
}

#[test]
fn stored_rows_become_a_user() {
    let user = created_user(&user_row(5, "nick"), &vec![auth_row(5, "KEYCLOAK", "sub-1")]).unwrap();
    assert_eq!(user.get_user_id(), Some(UserId::new(5)));
    assert_eq!(user.get_user_nickname().get_value(), "nick");
    assert_eq!(user.get_user_auths().len(), 1);
    assert_eq!(user.get_user_auths()[0].get_user_id(), Some(UserId::new(5)));
    assert_eq!(user.get_user_auths()[0].get_auth_provider(), AuthProvider::KEYCLOAK);
    let error = created_user(&user_row(5, "nick"), &vec![auth_row(5, "GOOGLE", "sub-1")]).unwrap_err();
    assert_eq!(error, CreateUserRepositoryError::Unknown("Matching variant not found".to_string()));
}

#[test]
fn found_rows_become_an_optional_user() {
    let found = found_user(Some(&user_row(3, "n")), &vec![]).unwrap().unwrap();
    assert_eq!(found.get_user_id(), Some(UserId::new(3)));
    assert!(found_user(None, &vec![]).unwrap().is_none());
    let error = found_user(None, &vec![auth_row(3, "bad", "x")]).unwrap_err();
    assert_eq!(error, FindUserByAuthRepositoryError::Unknown("Matching variant not found".to_string()));
}

#[test]
fn unit_of_work_failures_convert_with_their_message() {
    let id = UnitOfWorkId::from_value(1);
    let e = CreateUserRepositoryError::from(UnitOfWorkError::NotFound(id));
    assert_eq!(
        e,
        CreateUserRepositoryError::Unknown(
            "요청하신 ID(00000000-0000-0000-0000-000000000001)에 대한 작업 단위를 찾지 못했습니다.".to_string()
        )
    );
    let e = FindUserByAuthRepositoryError::from(UnitOfWorkError::InternalServerError("x".to_string()));
    assert_eq!(e, FindUserByAuthRepositoryError::Unknown("예상치 못한 내부 서버 오류가 발생했습니다: x".to_string()));
    let e = CreateRandomNicknameUserError::from(UnitOfWorkError::InternalServerError("y".to_string()));
    assert_eq!(e, CreateRandomNicknameUserError::Unknown("예상치 못한 내부 서버 오류가 발생했습니다: y".to_string()));
}

#[test]
fn written_user_reads_back_the_same() {
    let user = User::create(UserNickname::new("round".to_string()), AuthProvider::KEYCLOAK, AuthId::new("sub-9".to_string()));
    let written = new_user_entity(&user);
    let mut written_auths = new_user_auth_entities(&user);
    assign_user_id(&mut written_auths, 77);
    let stored_user = UserEntity {
        user_id: 77,
        user_nickname: written.user_nickname.clone(),
        active: written.active,
        created_at: time(),
        updated_at: time(),
    };
    let stored_auths: Vec<UserAuthEntity> = written_auths
        .iter()
        .map(|w| auth_row(w.user_id, &w.auth_provider, &w.auth_id))
        .collect();
    let read = created_user(&stored_user, &stored_auths).unwrap();
    assert_eq!(read.get_user_id(), Some(UserId::new(77)));
    assert_eq!(read.get_user_nickname(), user.get_user_nickname());
    assert_eq!(read.get_active(), user.get_active());
    assert_eq!(read.get_user_auths().len(), 1);
    assert_eq!(read.get_user_auths()[0].get_auth_provider(), user.get_user_auths()[0].get_auth_provider());
    assert_eq!(read.get_user_auths()[0].get_auth_id(), user.get_user_auths()[0].get_auth_id());
    assert_eq!(read.get_user_auths()[0].get_user_id(), Some(UserId::new(77)));
}

struct FakeManager;

impl user_service::persistence::UnitOfWorkSyncManager<u32> for FakeManager {
    type Conn = String;

    fn get_connection_with_uow(&self, uow: u32) -> Result<String, UnitOfWorkError> {
        if uow == 0 {
            Err(UnitOfWorkError::NotFound(UnitOfWorkId::from_value(2)))
        } else {
            Ok(format!("uow-{}", uow))
        }
    }

    fn get_connection(&self) -> Result<String, UnitOfWorkError> {
        Ok("pool".to_string())
    }
}

#[test]
fn adapters_take_the_unit_of_works_connection_or_the_pools() {
    let finder = FindUserByAuthOracleAdapter::new(Arc::new(FakeManager));
    assert_eq!(finder.acquire_connection::<u32>(None), Ok("pool".to_string()));
    assert_eq!(finder.acquire_connection(Some(7u32)), Ok("uow-7".to_string()));
    assert_eq!(
        finder.acquire_connection(Some(0u32)),
        Err(FindUserByAuthRepositoryError::Unknown(
            "요청하신 ID(00000000-0000-0000-0000-000000000002)에 대한 작업 단위를 찾지 못했습니다.".to_string()
        ))
    );
    let creator = CreateUserOracleAdapter::new(Arc::new(FakeManager), Arc::new(CreateUserConstraintMapper), Arc::new(OracleErrorParser));
    assert_eq!(creator.acquire_connection::<u32>(None), Ok("pool".to_string()));
    assert_eq!(
        creator.acquire_connection(Some(0u32)),
        Err(CreateUserRepositoryError::Unknown(
            "요청하신 ID(00000000-0000-0000-0000-000000000002)에 대한 작업 단위를 찾지 못했습니다.".to_string()
        ))
    );
}
