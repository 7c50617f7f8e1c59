//! The decisions of the two use cases.
//!
//! Creating a user with a random nickname: ask for a freshly generated
//! nickname, try to store a new user with it, and when the nickname is already
//! taken try again with a fresh one, at most `MAX_ATTEMPTS` times in all. The
//! caller asks the generator for each nickname that the flow asks for, stores
//! each user that the flow hands it as one atomic unit of work, and hands each
//! result back.
//!
//! Finding a user by authentication: summarize what the repository found.

use vstd::prelude::*;
use crate::errors::{
    CreateRandomNicknameUserError, CreateUserRepositoryError, FindUserByAuthError,
    FindUserByAuthRepositoryError,
};
use crate::kernel::{AuthProvider, auth_provider_name};
use crate::nickname::UserNickname;
use crate::user::{
    CreateRandomNicknameUserCommand, User, UserSummaryDto, UserSummaryView, UserView,
    created_user_view, summarize, summary_of,
};
use crate::text::text;

verus! {

/// How many times the flow tries a fresh nickname before it gives up.
pub const MAX_ATTEMPTS: u32 = 5;

/// The attempt counter after one more attempt is asked for.
pub open spec fn next_attempt_count(attempts: nat) -> nat {
    if attempts < MAX_ATTEMPTS { attempts + 1 } else { attempts }
}

/// Whether asking for one more attempt leads to a fresh nickname and a user
/// to store.
pub open spec fn attempt_creates(attempts: nat) -> bool {
    attempts < MAX_ATTEMPTS
}

/// The message of giving up: the provider and the identifier.
pub open spec fn generation_failed_message(auth_provider: AuthProvider, auth_id: Seq<char>) -> Seq<char> {
    "인증 공급자: "@ + auth_provider_name(auth_provider) + ", 인증 ID: "@ + auth_id
}

/// The message of a stored user that has no identifier.
pub open spec fn missing_created_user_id_message() -> Seq<char> {
    "유저 구조체에 유저 ID가 존재하지 않습니다."@
}

/// What the flow asks for next.
pub enum CreateUserStep {
    /// Generate a fresh nickname and hand it to `on_nickname`.
    GenerateNickname,
    /// Store this new user.
    Create(User),
    /// The use case's answer.
    Finish(Result<UserSummaryDto, CreateRandomNicknameUserError>),
}

/// The decisions of creating a user with a random nickname for one command.
pub struct CreateRandomNicknameUserFlow {
    command: CreateRandomNicknameUserCommand,
    attempts: u32,
}

impl CreateRandomNicknameUserFlow {
    #[verifier::type_invariant]
    spec fn attempts_bounded(self) -> bool {
        self.attempts <= MAX_ATTEMPTS
    }

    /// How many users the flow has asked to store.
    pub closed spec fn attempts(self) -> nat {
        self.attempts as nat
    }

    /// The provider of the command.
    pub closed spec fn auth_provider(self) -> AuthProvider {
        self.command.auth_provider()
    }

    /// The identifier of the command.
    pub closed spec fn auth_id(self) -> Seq<char> {
        self.command.auth_id()
    }

    /// What one more attempt asks for: a fresh nickname, when fewer than
    /// `MAX_ATTEMPTS` attempts were made; else the answer that nickname
    /// generation failed.
    pub open spec fn attempted(old: Self, new: Self, step: CreateUserStep) -> bool {
        &&& new.auth_provider() == old.auth_provider()
        &&& new.auth_id() == old.auth_id()
        &&& new.attempts() == next_attempt_count(old.attempts())
        &&& (step is GenerateNickname <==> attempt_creates(old.attempts()))
        &&& !(step is Create)
        &&& step matches CreateUserStep::Finish(r) ==> r matches Err(
            CreateRandomNicknameUserError::NicknameGenerationFailed(m),
        ) && m@ == generation_failed_message(old.auth_provider(), old.auth_id())
    }

    /// A flow for the command, with no attempt made yet.
    pub fn new(command: CreateRandomNicknameUserCommand) -> (r: Self)
        ensures
            r.attempts() == 0,
            r.auth_provider() == command.auth_provider(),
            r.auth_id() == command.auth_id(),
    {
        CreateRandomNicknameUserFlow { command, attempts: 0 }
    }

    /// The flow's first step, and the step after a nickname conflict: ask for
    /// a fresh nickname, or, once `MAX_ATTEMPTS` attempts were made, the answer
    /// that nickname generation failed.
    pub fn next_attempt(&mut self) -> (r: CreateUserStep)
        ensures
            Self::attempted(*old(self), *final(self), r),
            final(self).attempts() <= MAX_ATTEMPTS,
    {
        proof {
            use_type_invariant(&*self);
        }
        if self.attempts >= MAX_ATTEMPTS {
            let mut message = text("인증 공급자: ");
            let provider = self.command.get_auth_provider().to_string();
            message.append(provider.as_str());
            message.append(", 인증 ID: ");
            message.append(self.command.get_auth_id().get_value().as_str());
            return CreateUserStep::Finish(Err(CreateRandomNicknameUserError::NicknameGenerationFailed(message)));
        }
        self.attempts = self.attempts + 1;
        CreateUserStep::GenerateNickname
    }

    /// The step after a fresh nickname was generated: store a new user with
    /// exactly that nickname, for the command's provider and identifier.
    pub fn on_nickname(&self, nickname: UserNickname) -> (r: CreateUserStep)
        ensures
            r matches CreateUserStep::Create(u) && u@ == created_user_view(
                nickname@,
                self.auth_provider(),
                self.auth_id(),
            ),
    {
        let user = User::create(nickname, self.command.get_auth_provider(), self.command.get_auth_id().clone());
        CreateUserStep::Create(user)
    }

    /// The step after the store's outcome: the summary of the stored user;
    /// the answer that the authentication is already registered; the store's
    /// unknown error; or, when the nickname was taken, the next attempt.
    pub fn on_created(&mut self, outcome: Result<User, CreateUserRepositoryError>) -> (r: CreateUserStep)
        ensures
            final(self).attempts() <= MAX_ATTEMPTS,
            outcome matches Err(CreateUserRepositoryError::AlreadyExistNickname) ==> Self::attempted(
                *old(self),
                *final(self),
                r,
            ),
            !(outcome matches Err(CreateUserRepositoryError::AlreadyExistNickname)) ==> *final(self)
                == *old(self),
            outcome matches Ok(saved) ==> (match summary_of(saved@) {
                Some(s) => r matches CreateUserStep::Finish(Ok(d)) && d@ == s,
                None => r matches CreateUserStep::Finish(Err(CreateRandomNicknameUserError::Unknown(m)))
                    && m@ == missing_created_user_id_message(),
            }),
            outcome matches Err(CreateUserRepositoryError::AlreadyRegistered) ==> r matches CreateUserStep::Finish(
                Err(CreateRandomNicknameUserError::AlreadyRegistered(p, i)),
            ) && p == old(self).auth_provider() && i@ == old(self).auth_id(),
            outcome matches Err(CreateUserRepositoryError::Unknown(m)) ==> r matches CreateUserStep::Finish(
                Err(CreateRandomNicknameUserError::Unknown(n)),
            ) && n == m,
    {
        proof {
            use_type_invariant(&*self);
        }
        match outcome {
            Ok(saved) => match summarize(&saved) {
                Some(summary) => CreateUserStep::Finish(Ok(summary)),
                None => CreateUserStep::Finish(
                    Err(CreateRandomNicknameUserError::Unknown(text("유저 구조체에 유저 ID가 존재하지 않습니다."))),
                ),
            },
            Err(CreateUserRepositoryError::AlreadyRegistered) => CreateUserStep::Finish(
                Err(
                    CreateRandomNicknameUserError::AlreadyRegistered(
                        self.command.get_auth_provider(),
                        self.command.get_auth_id().clone(),
                    ),
                ),
            ),
            Err(CreateUserRepositoryError::Unknown(message)) => CreateUserStep::Finish(
                Err(CreateRandomNicknameUserError::Unknown(message)),
            ),
            Err(CreateUserRepositoryError::AlreadyExistNickname) => self.next_attempt(),
        }
    }
}

/// The use case of creating a user with a random nickname: the manager of
/// units of work, the repository that stores users, and the nickname
/// generator.
pub struct CreateRandomNicknameUserService<U, P, G> {
    uow_manager: std::sync::Arc<U>,
    create_user_repository: std::sync::Arc<P>,
    nickname_generator: std::sync::Arc<G>,
}

impl<U, P, G> CreateRandomNicknameUserService<U, P, G> {
    pub closed spec fn uow_manager(&self) -> U {
        *self.uow_manager
    }

    pub closed spec fn create_user_repository(&self) -> P {
        *self.create_user_repository
    }

    pub closed spec fn nickname_generator(&self) -> G {
        *self.nickname_generator
    }

    pub fn new(
        uow_manager: std::sync::Arc<U>,
        create_user_repository: std::sync::Arc<P>,
        nickname_generator: std::sync::Arc<G>,
    ) -> (r: Self)
        ensures
            r.uow_manager() == *uow_manager,
            r.create_user_repository() == *create_user_repository,
            r.nickname_generator() == *nickname_generator,
    {
        CreateRandomNicknameUserService { uow_manager, create_user_repository, nickname_generator }
    }

    pub fn get_uow_manager(&self) -> (r: &std::sync::Arc<U>)
        ensures
            **r == self.uow_manager(),
    {
        &self.uow_manager
    }

    pub fn get_create_user_repository(&self) -> (r: &std::sync::Arc<P>)
        ensures
            **r == self.create_user_repository(),
    {
        &self.create_user_repository
    }

    pub fn get_nickname_generator(&self) -> (r: &std::sync::Arc<G>)
        ensures
            **r == self.nickname_generator(),
    {
        &self.nickname_generator
    }
}

/// The use case of finding a user by authentication: the manager of units of
/// work and the repository that finds users.
pub struct FindUserByAuthService<T, P> {
    uow_manager: std::sync::Arc<T>,
    find_user_by_auth_repository: std::sync::Arc<P>,
}

impl<T, P> FindUserByAuthService<T, P> {
    pub closed spec fn uow_manager(&self) -> T {
        *self.uow_manager
    }

    pub closed spec fn find_user_by_auth_repository(&self) -> P {
        *self.find_user_by_auth_repository
    }

    pub fn new(uow_manager: std::sync::Arc<T>, find_user_by_auth_repository: std::sync::Arc<P>) -> (r: Self)
        ensures
            r.uow_manager() == *uow_manager,
            r.find_user_by_auth_repository() == *find_user_by_auth_repository,
    {
        FindUserByAuthService { uow_manager, find_user_by_auth_repository }
    }

    pub fn get_uow_manager(&self) -> (r: &std::sync::Arc<T>)
        ensures
            **r == self.uow_manager(),
    {
        &self.uow_manager
    }

    pub fn get_find_user_by_auth_repository(&self) -> (r: &std::sync::Arc<P>)
        ensures
            **r == self.find_user_by_auth_repository(),
    {
        &self.find_user_by_auth_repository
    }
}

/// The attempt counter after `k` attempts were asked of a fresh flow.
pub open spec fn attempts_after(k: nat) -> nat
    decreases k,
{
    if k == 0 { 0 } else { next_attempt_count(attempts_after((k - 1) as nat)) }
}

/// How many of the first `k` attempts asked of a fresh flow store a user.
pub open spec fn creations_after(k: nat) -> nat
    decreases k,
{
    if k == 0 {
        0
    } else {
        creations_after((k - 1) as nat) + if attempt_creates(attempts_after((k - 1) as nat)) { 1nat } else { 0nat }
    }
}

/// However often a fresh flow is asked for another attempt (its first step,
/// then one after each nickname conflict), it asks for a fresh nickname, and
/// so to store a user, at most `MAX_ATTEMPTS` times: exactly `min(k, MAX_ATTEMPTS)` times in `k` requests,
/// and every request after the `MAX_ATTEMPTS`-th answers that nickname
/// generation failed.
pub proof fn lemma_attempts_bounded(k: nat)
    ensures
        attempts_after(k) == if k < MAX_ATTEMPTS { k } else { MAX_ATTEMPTS as nat },
        creations_after(k) == attempts_after(k),
        creations_after(k) <= MAX_ATTEMPTS,
        k >= MAX_ATTEMPTS ==> !attempt_creates(attempts_after(k)),
    decreases k,
{
    if k > 0 {
        lemma_attempts_bounded((k - 1) as nat);
    }
}

/// The message of a found user that has no identifier.
pub open spec fn missing_found_user_id_message() -> Seq<char> {
    "유저 ID가 존재하지 않습니다."@
}

/// The answer of finding a user by authentication, from what the repository
/// returned: its unknown error with the same message; `None` when no user was
/// found; the found user's summary; or an unknown error when the found user
/// has no identifier.
pub fn find_user_summary(found: Result<Option<User>, FindUserByAuthRepositoryError>) -> (r: Result<
    Option<UserSummaryDto>,
    FindUserByAuthError,
>)
    ensures
        found matches Err(FindUserByAuthRepositoryError::Unknown(m)) ==> r matches Err(
            FindUserByAuthError::Unknown(n),
        ) && n == m,
        found matches Ok(None) ==> r matches Ok(None),
        found matches Ok(Some(user)) ==> (match summary_of(user@) {
            Some(s) => r matches Ok(Some(d)) && d@ == s,
            None => r matches Err(FindUserByAuthError::Unknown(m)) && m@ == missing_found_user_id_message(),
        }),
{
    let user_opt = match found {
        Ok(user_opt) => user_opt,
        Err(FindUserByAuthRepositoryError::Unknown(message)) => {
            return Err(FindUserByAuthError::Unknown(message));
        },
    };
    match user_opt {
        Some(user) => match summarize(&user) {
            Some(summary) => Ok(Some(summary)),
            None => Err(FindUserByAuthError::Unknown(text("유저 ID가 존재하지 않습니다."))),
        },
        None => Ok(None),
    }
}

} // verus!
