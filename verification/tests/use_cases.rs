use std::cell::RefCell;
use user_service::atomic::{atomic_begun, atomic_worked, AfterWork};
use user_service::errors::{
    CreateRandomNicknameUserError, CreateUserRepositoryError, FindUserByAuthError, FindUserByAuthRepositoryError,
    UnitOfWorkError,
};
use user_service::generator::NicknameGenerator;
use user_service::kernel::{AuthId, AuthProvider, UserId};
use user_service::nickname::UserNickname;
use user_service::service::{find_user_summary, CreateRandomNicknameUserFlow, CreateUserStep, MAX_ATTEMPTS};
use user_service::user::{CreateRandomNicknameUserCommand, User, UserSummaryDto};

#[derive(Debug)]
struct ScriptedGenerator {
    names: RefCell<Vec<&'static str>>,
    calls: RefCell<usize>,
}

impl ScriptedGenerator {
    fn new(names: Vec<&'static str>) -> Self {
        ScriptedGenerator { names: RefCell::new(names), calls: RefCell::new(0) }
    }
}

impl NicknameGenerator for ScriptedGenerator {
    fn generate(&self) -> UserNickname {
        *self.calls.borrow_mut() += 1;
        let mut names = self.names.borrow_mut();
        let name = if names.len() > 1 { names.remove(0) } else { names[0] };
        UserNickname::new(name.to_string())
    }
}

#[derive(Default)]
struct Ledger {
    begins: usize,
    commits: usize,
    rollbacks: usize,
    stored: Vec<User>,
}

/// Runs the flow; each user is stored as one atomic unit of work whose
/// repository outcome comes from `repository`.
fn run_flow(
    command: CreateRandomNicknameUserCommand,
    generator: &ScriptedGenerator,
    mut repository: impl FnMut(&User) -> Result<User, CreateUserRepositoryError>,
    rollback: Result<(), UnitOfWorkError>,
    ledger: &mut Ledger,
) -> Result<UserSummaryDto, CreateRandomNicknameUserError> {
    let mut flow = CreateRandomNicknameUserFlow::new(command);
    let mut step = flow.next_attempt();
    loop {
        match step {
            CreateUserStep::Finish(result) => return result,
            CreateUserStep::GenerateNickname => {
                step = flow.on_nickname(generator.generate());
            }
            CreateUserStep::Create(user) => {
                ledger.begins += 1;
                let outcome: Result<User, CreateUserRepositoryError> =
                    match atomic_begun::<(), CreateUserRepositoryError>(Ok(())) {
                        Err(e) => Err(e),
                        Ok(()) => {
                            let work = repository(&user);
                            ledger.stored.push(user);
                            match atomic_worked(work) {
                                AfterWork::Commit(pending) => {
                                    ledger.commits += 1;
                                    pending.committed(Ok(()))
                                }
                                AfterWork::Rollback(pending) => {
                                    ledger.rollbacks += 1;
                                    pending.rolled_back(rollback.clone())
                                }
                            }
                        }
                    };
                step = flow.on_created(outcome);
            }
        }
    }
}

fn command(id: &str) -> CreateRandomNicknameUserCommand {
    CreateRandomNicknameUserCommand::new(AuthProvider::KEYCLOAK, AuthId::new(id.to_string()))
}

fn saved(user: &User, id: i64) -> User {
    User::new(Some(UserId::new(id)), user.get_user_nickname().clone(), true, vec![])
}

#[test]
fn success_on_first_try() {
    let generator = ScriptedGenerator::new(vec!["cool_nickname"]);
    let mut ledger = Ledger::default();
    let result = run_flow(command("test-auth-id"), &generator, |u| Ok(saved(u, 1)), Ok(()), &mut ledger);
    assert!(result.is_ok());
    let user_dto = result.unwrap();
    assert_eq!(user_dto.get_user_id(), UserId::new(1));
    assert_eq!(user_dto.get_user_nickname().get_value(), "cool_nickname");
    assert_eq!((ledger.begins, ledger.commits, ledger.rollbacks), (1, 1, 0));
    let stored = &ledger.stored[0];
    assert!(stored.get_user_id().is_none());
    assert!(stored.get_active());
    assert_eq!(stored.get_user_auths().len(), 1);
    assert_eq!(stored.get_user_auths()[0].get_auth_id().get_value(), "test-auth-id");
}

#[test]
fn success_after_one_retry_on_nickname_conflict() {
    let generator = ScriptedGenerator::new(vec!["exist_nickname", "new_nickname"]);
    let mut ledger = Ledger::default();
    let result = run_flow(
        command("test-auth-id"),
        &generator,
        |u| {
            if u.get_user_nickname().get_value() == "exist_nickname" {
                Err(CreateUserRepositoryError::AlreadyExistNickname)
            } else {
                Ok(saved(u, 1))
            }
        },
        Ok(()),
        &mut ledger,
    );
    assert!(result.is_ok());
    let user_dto = result.unwrap();
    assert_eq!(user_dto.get_user_nickname().get_value(), "new_nickname");
    assert_eq!((ledger.begins, ledger.commits, ledger.rollbacks), (2, 1, 1));
}

#[test]
fn fail_after_max_retries() {
    let generator = ScriptedGenerator::new(vec!["any_nickname"]);
    let mut ledger = Ledger::default();
    let result = run_flow(
        command("test-auth-id"),
        &generator,
        |_| Err(CreateUserRepositoryError::AlreadyExistNickname),
        Ok(()),
        &mut ledger,
    );
    assert!(result.is_err());
    match result.err().unwrap() {
        CreateRandomNicknameUserError::NicknameGenerationFailed(message) => {
            assert_eq!(message, "인증 공급자: KEYCLOAK, 인증 ID: test-auth-id");
        }
        other_error => panic!("예상된 오류는 'NicknameGenerationFailed'이지만, '{:?}' 오류가 발생했습니다.", other_error),
    }
    assert_eq!(ledger.begins, MAX_ATTEMPTS as usize);
    assert_eq!(ledger.commits, 0);
    assert_eq!(*generator.calls.borrow(), 5);
}

#[test]
fn fail_when_user_already_registered() {
    let generator = ScriptedGenerator::new(vec!["any_nickname"]);
    let mut ledger = Ledger::default();
    let result = run_flow(
        command("registered-auth-id"),
        &generator,
        |_| Err(CreateUserRepositoryError::AlreadyRegistered),
        Ok(()),
        &mut ledger,
    );
    assert!(result.is_err());
    match result.err().unwrap() {
        CreateRandomNicknameUserError::AlreadyRegistered(provider, id) => {
            assert_eq!(provider, AuthProvider::KEYCLOAK);
            assert_eq!(id.get_value(), "registered-auth-id");
        }
        other_error => panic!("예상된 오류는 'AlreadyRegistered'이지만, '{:?}' 오류가 발생했습니다.", other_error),
    }
    assert_eq!((ledger.begins, ledger.commits, ledger.rollbacks), (1, 0, 1));
}

#[test]
fn unknown_store_error_is_passed_on() {
    let generator = ScriptedGenerator::new(vec!["n"]);
    let mut ledger = Ledger::default();
    let result = run_flow(
        command("a"),
        &generator,
        |_| Err(CreateUserRepositoryError::Unknown("boom".to_string())),
        Err(UnitOfWorkError::InternalServerError("rollback failed".to_string())),
        &mut ledger,
    );
    assert_eq!(result, Err(CreateRandomNicknameUserError::Unknown("boom".to_string())));
}

#[test]
fn stored_user_without_identifier_is_an_unknown_error() {
    let generator = ScriptedGenerator::new(vec!["n"]);
    let mut ledger = Ledger::default();
    let result = run_flow(
        command("a"),
        &generator,
        |u| Ok(User::new(None, u.get_user_nickname().clone(), true, vec![])),
        Ok(()),
        &mut ledger,
    );
    assert_eq!(
        result,
        Err(CreateRandomNicknameUserError::Unknown("유저 구조체에 유저 ID가 존재하지 않습니다.".to_string()))
    );
}

#[test]
fn should_return_user_summary_dto_when_user_is_found() {
    let user_id = UserId::new(1);
    let nickname = UserNickname::new("test_user".to_string());
    let found_user = User::new(Some(user_id), nickname.clone(), true, vec![]);
    let result = find_user_summary(Ok(Some(found_user)));
    assert!(result.is_ok());
    let user_dto_opt = result.unwrap();
    assert!(user_dto_opt.is_some());
    let user_dto = user_dto_opt.unwrap();
    assert_eq!(user_dto.get_user_id(), user_id);
    assert_eq!(user_dto.get_user_nickname(), &nickname);
    assert_eq!(user_dto.get_active(), true);
}

#[test]
fn should_return_none_when_user_is_not_found() {
    let result = find_user_summary(Ok(None));
    assert!(result.is_ok());
    assert!(result.unwrap().is_none());
}

#[test]
fn should_return_error_when_repository_fails() {
    let result = find_user_summary(Err(FindUserByAuthRepositoryError::Unknown("DB 연결 실패".to_string())));
    assert!(result.is_err());
    match result.err().unwrap() {
        FindUserByAuthError::Unknown(msg) => assert_eq!(msg, "DB 연결 실패"),
    }
}

#[test]
fn should_return_error_when_found_user_has_no_id() {
    let nickname = UserNickname::new("no_id_user".to_string());
    let malformed_user = User::new(None, nickname.clone(), true, vec![]);
    let result = find_user_summary(Ok(Some(malformed_user)));
    assert!(result.is_err());
    match result.err().unwrap() {
        FindUserByAuthError::Unknown(msg) => assert_eq!(msg, "유저 ID가 존재하지 않습니다."),
    }
}
