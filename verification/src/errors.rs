//! The unit of work's identifier and errors, and the errors of the use cases
//! and of their repositories.

use vstd::prelude::*;
use crate::kernel::{AuthId, AuthProvider, auth_provider_name};
use crate::text::{decimal, digit_char, text};

verus! {

/// `16^k`.
pub open spec fn pow16(k: nat) -> nat
    decreases k,
{
    if k == 0 { 1 } else { 16 * pow16((k - 1) as nat) }
}

/// The lowercase character of a hexadecimal digit.
pub open spec fn hex_char(d: nat) -> char {
    if d < 10 { digit_char(d) }
    else if d == 10 { 'a' }
    else if d == 11 { 'b' }
    else if d == 12 { 'c' }
    else if d == 13 { 'd' }
    else if d == 14 { 'e' }
    else { 'f' }
}

/// The `k`-th of the 32 hexadecimal digits of `v`, most significant first.
pub open spec fn uuid_nibble(v: u128, k: int) -> nat {
    ((v as nat) / pow16((31 - k) as nat)) % 16
}

/// The hyphenated text of the UUID whose big-endian value is `v`: 32 lowercase
/// hexadecimal digits in groups of 8, 4, 4, 4 and 12, joined by hyphens.
pub open spec fn uuid_text(v: u128) -> Seq<char> {
    Seq::new(
        36,
        |i: int|
            if i == 8 || i == 13 || i == 18 || i == 23 {
                '-'
            } else if i < 8 {
                hex_char(uuid_nibble(v, i))
            } else if i < 13 {
                hex_char(uuid_nibble(v, i - 1))
            } else if i < 18 {
                hex_char(uuid_nibble(v, i - 2))
            } else if i < 23 {
                hex_char(uuid_nibble(v, i - 3))
            } else {
                hex_char(uuid_nibble(v, i - 4))
            },
    )
}

/// `uuid::Uuid::new_v4`, as its big-endian value: random, but with the
/// version nibble set to 4 and the variant bits to `10`. Nothing else is
/// stated of the value.
#[verifier::external_body]
fn random_uuid_value() -> (v: u128)
    ensures
        (v >> 76u128) & 0xfu128 == 4u128,
        (v >> 62u128) & 0x3u128 == 2u128,
{
    uuid::Uuid::new_v4().as_u128()
}

/// `uuid::Uuid::from_u128` followed by its hyphenated `to_string`: the UUID's
/// 32 lowercase hexadecimal digits in groups of 8, 4, 4, 4 and 12.
#[verifier::external_body]
fn uuid_hyphenated(v: u128) -> (s: String)
    ensures
        s@ == uuid_text(v),
{
    uuid::Uuid::from_u128(v).hyphenated().to_string()
}

/// The identifier of a unit of work: a random UUID.
#[derive(Debug, Clone, Copy, PartialEq, Eq, Structural, Hash)]
pub struct UnitOfWorkId(u128);

impl UnitOfWorkId {
    /// The UUID's big-endian value.
    pub closed spec fn value(self) -> u128 {
        self.0
    }

    /// A fresh random identifier.
    pub fn new() -> (r: Self)
        ensures
            (r.value() >> 76u128) & 0xfu128 == 4u128,
            (r.value() >> 62u128) & 0x3u128 == 2u128,
    {
        UnitOfWorkId(random_uuid_value())
    }

    /// The identifier of the UUID with the given big-endian value.
    pub fn from_value(value: u128) -> (r: Self)
        ensures
            r.value() == value,
    {
        UnitOfWorkId(value)
    }

    /// The UUID's big-endian value.
    pub fn get_value(&self) -> (r: u128)
        ensures
            r == self.value(),
    {
        self.0
    }

    /// The identifier in hyphenated form.
    pub fn to_string(&self) -> (s: String)
        ensures
            s@ == uuid_text(self.value()),
    {
        uuid_hyphenated(self.0)
    }
}

/// The errors of the unit of work.
#[derive(Debug, PartialEq, Eq)]
pub enum UnitOfWorkError {
    NotFound(UnitOfWorkId),
    AlreadyCommitted(UnitOfWorkId),
    AlreadyRolledBack(UnitOfWorkId),
    CommitConflict(UnitOfWorkId),
    InternalServerError(String),
}

/// The message of a unit of work error.
pub open spec fn uow_error_message(e: UnitOfWorkError) -> Seq<char> {
    match e {
        UnitOfWorkError::NotFound(id) => "요청하신 ID("@ + uuid_text(id.value())
            + ")에 대한 작업 단위를 찾지 못했습니다."@,
        UnitOfWorkError::AlreadyCommitted(id) => "해당 작업 단위("@ + uuid_text(id.value())
            + ")는 이미 커밋이 완료된 상태입니다."@,
        UnitOfWorkError::AlreadyRolledBack(id) => "해당 작업 단위("@ + uuid_text(id.value())
            + ")는 이미 롤백이 완료된 상태입니다."@,
        UnitOfWorkError::CommitConflict(id) => "작업 단위("@ + uuid_text(id.value())
            + ")를 커밋할 수 없습니다. 할당된 커넥션이 아직 사용 중입니다."@,
        UnitOfWorkError::InternalServerError(m) => "예상치 못한 내부 서버 오류가 발생했습니다: "@ + m@,
    }
}

/// `prefix`, then the identifier, then `suffix`.
fn framed_id(prefix: &str, id: &UnitOfWorkId, suffix: &str) -> (s: String)
    ensures
        s@ == prefix@ + uuid_text(id.value()) + suffix@,
{
    let mut s = text(prefix);
    let id_text = id.to_string();
    s.append(id_text.as_str());
    s.append(suffix);
    s
}

impl Clone for UnitOfWorkError {
    fn clone(&self) -> (r: Self)
        ensures
            r == *self,
    {
        match self {
            UnitOfWorkError::NotFound(id) => UnitOfWorkError::NotFound(*id),
            UnitOfWorkError::AlreadyCommitted(id) => UnitOfWorkError::AlreadyCommitted(*id),
            UnitOfWorkError::AlreadyRolledBack(id) => UnitOfWorkError::AlreadyRolledBack(*id),
            UnitOfWorkError::CommitConflict(id) => UnitOfWorkError::CommitConflict(*id),
            UnitOfWorkError::InternalServerError(m) => UnitOfWorkError::InternalServerError(m.clone()),
        }
    }
}

impl UnitOfWorkError {
    /// The error's message.
    pub fn to_string(&self) -> (s: String)
        ensures
            s@ == uow_error_message(*self),
    {
        match self {
            UnitOfWorkError::NotFound(id) => framed_id("요청하신 ID(", id, ")에 대한 작업 단위를 찾지 못했습니다."),
            UnitOfWorkError::AlreadyCommitted(id) => framed_id("해당 작업 단위(", id, ")는 이미 커밋이 완료된 상태입니다."),
            UnitOfWorkError::AlreadyRolledBack(id) => framed_id("해당 작업 단위(", id, ")는 이미 롤백이 완료된 상태입니다."),
            UnitOfWorkError::CommitConflict(id) => framed_id(
                "작업 단위(",
                id,
                ")를 커밋할 수 없습니다. 할당된 커넥션이 아직 사용 중입니다.",
            ),
            UnitOfWorkError::InternalServerError(m) => {
                let mut s = text("예상치 못한 내부 서버 오류가 발생했습니다: ");
                s.append(m.as_str());
                s
            },
        }
    }
}

/// The errors of creating a user with a random nickname.
#[derive(Debug, PartialEq, Eq)]
pub enum CreateRandomNicknameUserError {
    AlreadyRegistered(AuthProvider, AuthId),
    NicknameGenerationFailed(String),
    Unknown(String),
}

/// The errors of finding a user by authentication.
#[derive(Debug, PartialEq, Eq)]
pub enum FindUserByAuthError {
    Unknown(String),
}

/// The errors of storing a new user.
#[derive(Debug, PartialEq, Eq)]
pub enum CreateUserRepositoryError {
    AlreadyRegistered,
    AlreadyExistNickname,
    Unknown(String),
}

/// The errors of looking a user up by authentication.
#[derive(Debug, PartialEq, Eq)]
pub enum FindUserByAuthRepositoryError {
    Unknown(String),
}

impl Clone for CreateUserRepositoryError {
    fn clone(&self) -> (r: Self)
        ensures
            r == *self,
    {
        match self {
            CreateUserRepositoryError::AlreadyRegistered => CreateUserRepositoryError::AlreadyRegistered,
            CreateUserRepositoryError::AlreadyExistNickname => CreateUserRepositoryError::AlreadyExistNickname,
            CreateUserRepositoryError::Unknown(m) => CreateUserRepositoryError::Unknown(m.clone()),
        }
    }
}

impl Clone for FindUserByAuthRepositoryError {
    fn clone(&self) -> (r: Self)
        ensures
            r == *self,
    {
        match self {
            FindUserByAuthRepositoryError::Unknown(m) => FindUserByAuthRepositoryError::Unknown(m.clone()),
        }
    }
}

impl Clone for FindUserByAuthError {
    fn clone(&self) -> (r: Self)
        ensures
            r == *self,
    {
        match self {
            FindUserByAuthError::Unknown(m) => FindUserByAuthError::Unknown(m.clone()),
        }
    }
}

impl Clone for CreateRandomNicknameUserError {
    fn clone(&self) -> (r: Self)
        ensures
            match (r, *self) {
                (CreateRandomNicknameUserError::AlreadyRegistered(p, i), CreateRandomNicknameUserError::AlreadyRegistered(q, j)) => p == q && i@ == j@,
                (CreateRandomNicknameUserError::NicknameGenerationFailed(m), CreateRandomNicknameUserError::NicknameGenerationFailed(n)) => m == n,
                (CreateRandomNicknameUserError::Unknown(m), CreateRandomNicknameUserError::Unknown(n)) => m == n,
                _ => false,
            },
    {
        match self {
            CreateRandomNicknameUserError::AlreadyRegistered(p, i) => CreateRandomNicknameUserError::AlreadyRegistered(*p, i.clone()),
            CreateRandomNicknameUserError::NicknameGenerationFailed(m) => CreateRandomNicknameUserError::NicknameGenerationFailed(m.clone()),
            CreateRandomNicknameUserError::Unknown(m) => CreateRandomNicknameUserError::Unknown(m.clone()),
        }
    }
}

impl From<UnitOfWorkError> for CreateUserRepositoryError {
    /// The unit of work's failure, as an unknown error with its message.
    fn from(value: UnitOfWorkError) -> (r: Self)
        ensures
            r matches CreateUserRepositoryError::Unknown(m) && m@ == uow_error_message(value),
    {
        CreateUserRepositoryError::Unknown(value.to_string())
    }
}

impl vstd::std_specs::convert::FromSpecImpl<UnitOfWorkError> for CreateUserRepositoryError {
    /// The conversion's result is stated by `from`'s own `ensures`: a spec
    /// value cannot name the exact string that carries the message.
    open spec fn obeys_from_spec() -> bool {
        false
    }

    open spec fn from_spec(v: UnitOfWorkError) -> Self {
        arbitrary()
    }
}

impl From<UnitOfWorkError> for FindUserByAuthRepositoryError {
    /// The unit of work's failure, as an unknown error with its message.
    fn from(value: UnitOfWorkError) -> (r: Self)
        ensures
            r matches FindUserByAuthRepositoryError::Unknown(m) && m@ == uow_error_message(value),
    {
        FindUserByAuthRepositoryError::Unknown(value.to_string())
    }
}

impl vstd::std_specs::convert::FromSpecImpl<UnitOfWorkError> for FindUserByAuthRepositoryError {
    /// The conversion's result is stated by `from`'s own `ensures`.
    open spec fn obeys_from_spec() -> bool {
        false
    }

    open spec fn from_spec(v: UnitOfWorkError) -> Self {
        arbitrary()
    }
}

impl From<UnitOfWorkError> for CreateRandomNicknameUserError {
    /// The unit of work's failure, as an unknown error with its message.
    fn from(value: UnitOfWorkError) -> (r: Self)
        ensures
            r matches CreateRandomNicknameUserError::Unknown(m) && m@ == uow_error_message(value),
    {
        CreateRandomNicknameUserError::Unknown(value.to_string())
    }
}

impl vstd::std_specs::convert::FromSpecImpl<UnitOfWorkError> for CreateRandomNicknameUserError {
    /// The conversion's result is stated by `from`'s own `ensures`.
    open spec fn obeys_from_spec() -> bool {
        false
    }

    open spec fn from_spec(v: UnitOfWorkError) -> Self {
        arbitrary()
    }
}

} // verus!
