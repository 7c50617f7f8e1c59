use user_service::atomic::{atomic_begun, atomic_worked, AfterWork};
use user_service::errors::{UnitOfWorkError, UnitOfWorkId};

#[derive(Debug, PartialEq)]
enum TestError {
    OperationError,
    InternalServerError(UnitOfWorkError),
}

impl From<UnitOfWorkError> for TestError {
    fn from(e: UnitOfWorkError) -> Self {
        TestError::InternalServerError(e)
    }
}

#[derive(Default, Debug)]
struct Calls {
    commits: usize,
    rollbacks: usize,
}

/// Runs `work` atomically against a unit of work whose begin, commit and
/// rollback outcomes are given.
fn run(
    begin: Result<(), UnitOfWorkError>,
    work: Result<i32, TestError>,
    commit: Result<(), UnitOfWorkError>,
    rollback: Result<(), UnitOfWorkError>,
    calls: &mut Calls,
) -> Result<i32, TestError> {
    match atomic_begun::<(), TestError>(begin) {
        Err(e) => Err(e),
        Ok(()) => match atomic_worked(work) {
            AfterWork::Commit(pending) => {
                calls.commits += 1;
                pending.committed(commit)
            }
            AfterWork::Rollback(pending) => {
                calls.rollbacks += 1;
                pending.rolled_back(rollback)
            }
        },
    }
}

#[test]
fn execute_as_atomic_should_commit_on_success() {
    let mut calls = Calls::default();
    let result = run(Ok(()), Ok(100), Ok(()), Ok(()), &mut calls);
    assert_eq!(result, Ok(100));
    assert_eq!((calls.commits, calls.rollbacks), (1, 0));
}

#[test]
fn execute_as_atomic_should_rollback_on_failure() {
    let mut calls = Calls::default();
    let result = run(Ok(()), Err(TestError::OperationError), Ok(()), Ok(()), &mut calls);
    assert_eq!(result, Err(TestError::OperationError));
    assert_eq!((calls.commits, calls.rollbacks), (0, 1));
}

#[test]
fn execute_as_atomic_should_return_original_error_even_if_rollback_fails() {
    let mut calls = Calls::default();
    let rollback = Err(UnitOfWorkError::InternalServerError("롤백 DB 연결을 획득하지 못하였습니다.".to_string()));
    let result = run(Ok(()), Err(TestError::OperationError), Ok(()), rollback, &mut calls);
    assert_eq!(result, Err(TestError::OperationError));
}

#[test]
fn execute_as_atomic_should_handle_begin_failure() {
    let mut calls = Calls::default();
    let begin = Err(UnitOfWorkError::InternalServerError("DB 커넥션 획득에 실패하였습니다.".to_string()));
    let result = run(begin, Ok(100), Ok(()), Ok(()), &mut calls);
    match result {
        Err(TestError::InternalServerError(uow_error)) => {
            assert_eq!(
                uow_error.to_string(),
                "예상치 못한 내부 서버 오류가 발생했습니다: DB 커넥션 획득에 실패하였습니다."
            );
        }
        _ => panic!("내부 서버 에러를 예상했지만, 다른 에러나 OK를 받았습니다."),
    }
    assert_eq!((calls.commits, calls.rollbacks), (0, 0));
}

#[test]
fn commit_failure_becomes_the_error() {
    let mut calls = Calls::default();
    let id = UnitOfWorkId::from_value(0x0123_4567_89ab_cdef_0011_2233_4455_6677);
    let result = run(Ok(()), Ok(1), Err(UnitOfWorkError::CommitConflict(id)), Ok(()), &mut calls);
    assert_eq!(result, Err(TestError::InternalServerError(UnitOfWorkError::CommitConflict(id))));
}

#[test]
fn unit_of_work_messages_name_the_unit() {
    let id = UnitOfWorkId::from_value(0x0123_4567_89ab_cdef_0011_2233_4455_6677);
    assert_eq!(id.to_string(), "01234567-89ab-cdef-0011-223344556677");
    assert_eq!(
        UnitOfWorkError::NotFound(id).to_string(),
        "요청하신 ID(01234567-89ab-cdef-0011-223344556677)에 대한 작업 단위를 찾지 못했습니다."
    );
    assert_eq!(
        UnitOfWorkError::AlreadyCommitted(id).to_string(),
        "해당 작업 단위(01234567-89ab-cdef-0011-223344556677)는 이미 커밋이 완료된 상태입니다."
    );
    assert_eq!(
        UnitOfWorkError::AlreadyRolledBack(id).to_string(),
        "해당 작업 단위(01234567-89ab-cdef-0011-223344556677)는 이미 롤백이 완료된 상태입니다."
    );
    assert_eq!(
        UnitOfWorkError::CommitConflict(id).to_string(),
        "작업 단위(01234567-89ab-cdef-0011-223344556677)를 커밋할 수 없습니다. 할당된 커넥션이 아직 사용 중입니다."
    );
}

#[test]
fn fresh_unit_ids_are_version_four() {
    let a = UnitOfWorkId::new();
    let b = UnitOfWorkId::new();
    assert_ne!(a, b);
    assert_eq!((a.get_value() >> 76) & 0xf, 4);
    assert_eq!((a.get_value() >> 62) & 0x3, 2);
    let text = a.to_string();
    assert_eq!(text.len(), 36);
    assert_eq!(text.chars().nth(14), Some('4'));
}
