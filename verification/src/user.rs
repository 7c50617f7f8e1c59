//! The user model: a user, the authentications linked to it, the summary the
//! service answers with, and the requests of its two use cases.

use vstd::prelude::*;
use crate::kernel::{AuthId, AuthProvider, UserId};
use crate::nickname::UserNickname;

verus! {

/// What a user's authentication holds.
pub struct UserAuthView {
    pub user_id: Option<UserId>,
    pub auth_provider: AuthProvider,
    pub auth_id: Seq<char>,
}

/// One authentication linked to a user.
#[derive(Debug, PartialEq, Eq)]
pub struct UserAuth {
    user_id: Option<UserId>,
    auth_provider: AuthProvider,
    auth_id: AuthId,
}

impl View for UserAuth {
    type V = UserAuthView;

    closed spec fn view(&self) -> UserAuthView {
        UserAuthView { user_id: self.user_id, auth_provider: self.auth_provider, auth_id: self.auth_id@ }
    }
}

impl Clone for UserAuth {
    fn clone(&self) -> (r: Self)
        ensures
            r@ == self@,
    {
        UserAuth { user_id: self.user_id, auth_provider: self.auth_provider, auth_id: self.auth_id.clone() }
    }
}

impl UserAuth {
    /// An authentication with the given parts.
    pub fn new(user_id: Option<UserId>, auth_provider: AuthProvider, auth_id: AuthId) -> (r: Self)
        ensures
            r@ == (UserAuthView { user_id, auth_provider, auth_id: auth_id@ }),
    {
        UserAuth { user_id, auth_provider, auth_id }
    }

    pub fn get_user_id(&self) -> (r: Option<UserId>)
        ensures
            r == self@.user_id,
    {
        self.user_id
    }

    pub fn get_auth_provider(&self) -> (r: AuthProvider)
        ensures
            r == self@.auth_provider,
    {
        self.auth_provider
    }

    pub fn get_auth_id(&self) -> (r: &AuthId)
        ensures
            r@ == self@.auth_id,
    {
        &self.auth_id
    }
}

/// What a user holds.
pub struct UserView {
    pub user_id: Option<UserId>,
    pub user_nickname: Seq<char>,
    pub active: bool,
    pub user_auths: Seq<UserAuthView>,
}

/// The views of a list of authentications.
pub open spec fn auth_views(auths: Seq<UserAuth>) -> Seq<UserAuthView> {
    auths.map_values(|a: UserAuth| a@)
}

/// A user of the service.
#[derive(Debug, PartialEq, Eq)]
pub struct User {
    user_id: Option<UserId>,
    user_nickname: UserNickname,
    active: bool,
    user_auths: Vec<UserAuth>,
}

impl View for User {
    type V = UserView;

    closed spec fn view(&self) -> UserView {
        UserView {
            user_id: self.user_id,
            user_nickname: self.user_nickname@,
            active: self.active,
            user_auths: auth_views(self.user_auths@),
        }
    }
}

/// Copies a list of authentications.
fn clone_auths(auths: &Vec<UserAuth>) -> (r: Vec<UserAuth>)
    ensures
        auth_views(r@) == auth_views(auths@),
{
    let mut r: Vec<UserAuth> = Vec::new();
    let mut i: usize = 0;
    while i < auths.len()
        invariant
            i <= auths.len(),
            r@.len() == i,
            forall|k: int| 0 <= k < i ==> r@[k]@ == auths@[k]@,
        decreases auths.len() - i,
    {
        r.push(auths[i].clone());
        i = i + 1;
    }
    assert(auth_views(r@) =~= auth_views(auths@));
    r
}

impl Clone for User {
    fn clone(&self) -> (r: Self)
        ensures
            r@ == self@,
    {
        User {
            user_id: self.user_id,
            user_nickname: self.user_nickname.clone(),
            active: self.active,
            user_auths: clone_auths(&self.user_auths),
        }
    }
}

/// The user that `User::create` makes: no identifier yet, active, with one
/// authentication that has no user identifier yet.
pub open spec fn created_user_view(
    nickname: Seq<char>,
    auth_provider: AuthProvider,
    auth_id: Seq<char>,
) -> UserView {
    UserView {
        user_id: None,
        user_nickname: nickname,
        active: true,
        user_auths: seq![UserAuthView { user_id: None, auth_provider, auth_id }],
    }
}

impl User {
    /// A user with the given parts.
    pub fn new(
        user_id: Option<UserId>,
        user_nickname: UserNickname,
        active: bool,
        user_auths: Vec<UserAuth>,
    ) -> (r: Self)
        ensures
            r@ == (UserView {
                user_id,
                user_nickname: user_nickname@,
                active,
                user_auths: auth_views(user_auths@),
            }),
    {
        User { user_id, user_nickname, active, user_auths }
    }

    /// A new user, not yet stored: no identifier, active, and signed in with
    /// the one given authentication.
    pub fn create(user_nickname: UserNickname, auth_provider: AuthProvider, auth_id: AuthId) -> (r: Self)
        ensures
            r@ == created_user_view(user_nickname@, auth_provider, auth_id@),
    {
        let mut user_auths: Vec<UserAuth> = Vec::new();
        user_auths.push(UserAuth::new(None, auth_provider, auth_id));
        let r = User { user_id: None, user_nickname, active: true, user_auths };
        assert(r@.user_auths =~= created_user_view(r@.user_nickname, auth_provider, r.user_auths@[0]@.auth_id).user_auths);
        r
    }

    pub fn get_user_id(&self) -> (r: Option<UserId>)
        ensures
            r == self@.user_id,
    {
        self.user_id
    }

    pub fn get_user_nickname(&self) -> (r: &UserNickname)
        ensures
            r@ == self@.user_nickname,
    {
        &self.user_nickname
    }

    pub fn get_active(&self) -> (r: bool)
        ensures
            r == self@.active,
    {
        self.active
    }

    pub fn get_user_auths(&self) -> (r: &Vec<UserAuth>)
        ensures
            auth_views(r@) == self@.user_auths,
    {
        &self.user_auths
    }
}

/// What a user summary holds.
pub struct UserSummaryView {
    pub user_id: UserId,
    pub user_nickname: Seq<char>,
    pub active: bool,
}

/// The summary of a stored user that the use cases answer with.
#[derive(Debug, PartialEq, Eq)]
pub struct UserSummaryDto {
    user_id: UserId,
    user_nickname: UserNickname,
    active: bool,
}

impl View for UserSummaryDto {
    type V = UserSummaryView;

    closed spec fn view(&self) -> UserSummaryView {
        UserSummaryView { user_id: self.user_id, user_nickname: self.user_nickname@, active: self.active }
    }
}

impl Clone for UserSummaryDto {
    fn clone(&self) -> (r: Self)
        ensures
            r@ == self@,
    {
        UserSummaryDto { user_id: self.user_id, user_nickname: self.user_nickname.clone(), active: self.active }
    }
}

impl UserSummaryDto {
    /// A summary with the given parts.
    pub fn new(user_id: UserId, user_nickname: UserNickname, active: bool) -> (r: Self)
        ensures
            r@ == (UserSummaryView { user_id, user_nickname: user_nickname@, active }),
    {
        UserSummaryDto { user_id, user_nickname, active }
    }

    pub fn get_user_id(&self) -> (r: UserId)
        ensures
            r == self@.user_id,
    {
        self.user_id
    }

    pub fn get_user_nickname(&self) -> (r: &UserNickname)
        ensures
            r@ == self@.user_nickname,
    {
        &self.user_nickname
    }

    pub fn get_active(&self) -> (r: bool)
        ensures
            r == self@.active,
    {
        self.active
    }
}

/// The summary of a stored user, when it has an identifier.
pub open spec fn summary_of(user: UserView) -> Option<UserSummaryView> {
    match user.user_id {
        Some(id) => Some(UserSummaryView { user_id: id, user_nickname: user.user_nickname, active: user.active }),
        None => None,
    }
}

/// Summarizes a stored user: `None` when it has no identifier.
pub fn summarize(user: &User) -> (r: Option<UserSummaryDto>)
    ensures
        summary_of(user@) == (match r { Some(d) => Some(d@), None => None::<UserSummaryView> }),
{
    match user.get_user_id() {
        Some(user_id) => Some(UserSummaryDto::new(user_id, user.get_user_nickname().clone(), user.get_active())),
        None => None,
    }
}

/// Who signed a request in: a provider and the identifier it gave.
#[derive(Debug)]
pub struct Authentication {
    auth_provider: AuthProvider,
    auth_id: AuthId,
}

impl Clone for Authentication {
    fn clone(&self) -> (r: Self)
        ensures
            r.auth_provider() == self.auth_provider(),
            r.auth_id() == self.auth_id(),
    {
        Authentication { auth_provider: self.auth_provider, auth_id: self.auth_id.clone() }
    }
}

impl Authentication {
    pub closed spec fn auth_provider(&self) -> AuthProvider {
        self.auth_provider
    }

    pub closed spec fn auth_id(&self) -> Seq<char> {
        self.auth_id@
    }

    pub fn new(auth_provider: AuthProvider, auth_id: AuthId) -> (r: Self)
        ensures
            r.auth_provider() == auth_provider,
            r.auth_id() == auth_id@,
    {
        Authentication { auth_provider, auth_id }
    }

    pub fn get_auth_provider(&self) -> (r: AuthProvider)
        ensures
            r == self.auth_provider(),
    {
        self.auth_provider
    }

    pub fn get_auth_id(&self) -> (r: &AuthId)
        ensures
            r@ == self.auth_id(),
    {
        &self.auth_id
    }
}

/// The request to create a user with a random nickname for an authentication.
#[derive(Debug)]
pub struct CreateRandomNicknameUserCommand {
    auth_provider: AuthProvider,
    auth_id: AuthId,
}

impl CreateRandomNicknameUserCommand {
    pub closed spec fn auth_provider(&self) -> AuthProvider {
        self.auth_provider
    }

    pub closed spec fn auth_id(&self) -> Seq<char> {
        self.auth_id@
    }

    pub fn new(auth_provider: AuthProvider, auth_id: AuthId) -> (r: Self)
        ensures
            r.auth_provider() == auth_provider,
            r.auth_id() == auth_id@,
    {
        CreateRandomNicknameUserCommand { auth_provider, auth_id }
    }

    pub fn get_auth_provider(&self) -> (r: AuthProvider)
        ensures
            r == self.auth_provider(),
    {
        self.auth_provider
    }

    pub fn get_auth_id(&self) -> (r: &AuthId)
        ensures
            r@ == self.auth_id(),
    {
        &self.auth_id
    }
}

/// The request to find the user that an authentication belongs to.
#[derive(Debug)]
pub struct FindUserByAuthQuery {
    auth_provider: AuthProvider,
    auth_id: AuthId,
}

impl FindUserByAuthQuery {
    pub closed spec fn auth_provider(&self) -> AuthProvider {
        self.auth_provider
    }

    pub closed spec fn auth_id(&self) -> Seq<char> {
        self.auth_id@
    }

    pub fn new(auth_provider: AuthProvider, auth_id: AuthId) -> (r: Self)
        ensures
            r.auth_provider() == auth_provider,
            r.auth_id() == auth_id@,
    {
        FindUserByAuthQuery { auth_provider, auth_id }
    }

    pub fn get_auth_provider(&self) -> (r: &AuthProvider)
        ensures
            *r == self.auth_provider(),
    {
        &self.auth_provider
    }

    pub fn get_auth_id(&self) -> (r: &AuthId)
        ensures
            r@ == self.auth_id(),
    {
        &self.auth_id
    }
}

} // verus!
