//! The relational side of the user store: the rows of users and of their
//! authentications, how rows become the user model and back, how a database
//! failure becomes a repository error, and the adapters that hold the parts
//! these decisions need.

use vstd::prelude::*;
use std::sync::Arc;
use crate::errors::{CreateUserRepositoryError, FindUserByAuthRepositoryError, UnitOfWorkError, uow_error_message};
use crate::grammar::{find_unique_violation, violated_constraint, reports_unique_violation, lemma_violation_is_reported, stands_at};
use crate::kernel::{AuthId, AuthProvider, UserId, auth_provider_name, unknown_auth_provider_message, UnknownAuthProvider};
use crate::nickname::UserNickname;
use crate::text::{chars_of, text};
use crate::user::{User, UserAuth, UserAuthView, UserView, auth_views};

verus! {

/// A date and time without a time zone, as the database stores it.
#[verifier::external_type_specification]
#[verifier::external_body]
pub struct ExNaiveDateTime(chrono::NaiveDateTime);

/// What a parsed Oracle error holds.
pub enum ParsedOracleErrorView {
    UniqueConstraintViolated(Seq<char>),
}

/// An Oracle error that the service recognizes.
#[derive(Debug, PartialEq, Eq)]
pub enum ParsedOracleError<'a> {
    /// A unique constraint was violated; the constraint's name.
    UniqueConstraintViolated(&'a str),
}

impl<'a> View for ParsedOracleError<'a> {
    type V = ParsedOracleErrorView;

    open spec fn view(&self) -> ParsedOracleErrorView {
        match self {
            ParsedOracleError::UniqueConstraintViolated(c) => ParsedOracleErrorView::UniqueConstraintViolated(c@),
        }
    }
}

/// What the parser makes of a message.
pub open spec fn parsed_oracle_error(message: Seq<char>) -> Option<ParsedOracleErrorView> {
    match violated_constraint(message) {
        Some(c) => Some(ParsedOracleErrorView::UniqueConstraintViolated(c)),
        None => None,
    }
}

/// The parser recognizes only what an Oracle unique-constraint violation
/// report says: the name it gives is the one the message reports after
/// `ORA-00001: unique constraint (` and a schema, and a message without that
/// text is not recognized.
pub proof fn lemma_parsed_error_is_reported(message: Seq<char>)
    ensures
        forall|c: Seq<char>|
            parsed_oracle_error(message) == Some(ParsedOracleErrorView::UniqueConstraintViolated(c))
                ==> reports_unique_violation(message, c),
        (forall|i: int| !stands_at(message, "ORA-00001: unique constraint ("@, i)) ==> parsed_oracle_error(
            message,
        ) is None,
{
    lemma_violation_is_reported(message);
}

/// Reads Oracle error messages.
#[derive(Debug, Clone, Copy)]
pub struct OracleErrorParser;

impl OracleErrorParser {
    pub fn new() -> (r: Self) {
        OracleErrorParser
    }

    /// The first unique-constraint violation that the message reports, with
    /// the violated constraint's name; `None` when it reports none.
    pub fn parse<'a>(&self, error_message: &'a str) -> (r: Option<ParsedOracleError<'a>>)
        ensures
            parsed_oracle_error(error_message@) == (match r {
                Some(e) => Some(e@),
                None => None::<ParsedOracleErrorView>,
            }),
    {
        let chars = chars_of(error_message);
        match find_unique_violation(&chars) {
            Some((c, d)) => {
                let name = error_message.substring_char(c, d);
                Some(ParsedOracleError::UniqueConstraintViolated(name))
            },
            None => None,
        }
    }
}

/// Turns a recognized Oracle error into the error of a repository.
pub trait ConstraintMapper {
    type Error;

    /// The error that a recognized Oracle error stands for, if any.
    spec fn mapped_error(&self, parsed: ParsedOracleErrorView) -> Option<Self::Error>;

    fn map_error(&self, parsed_error: &ParsedOracleError) -> (r: Option<Self::Error>)
        ensures
            r == self.mapped_error(parsed_error@),
    ;
}

/// The unique constraint on users' nicknames.
pub const UK_USERS_USER_NICKNAME: &'static str = "UK_USERS_USER_NICKNAME";

/// The unique constraint on a provider and the identifier it gave.
pub const UK_USERS_AUTH_PROVIDER_AUTH_ID: &'static str = "UK_USERS_AUTH_PROVIDER_AUTH_ID";

/// Maps the violations of the users' unique constraints.
#[derive(Debug, Clone, Copy)]
pub struct CreateUserConstraintMapper;

impl ConstraintMapper for CreateUserConstraintMapper {
    type Error = CreateUserRepositoryError;

    /// A taken nickname, an authentication that is already registered, or
    /// nothing for any other constraint.
    open spec fn mapped_error(&self, parsed: ParsedOracleErrorView) -> Option<CreateUserRepositoryError> {
        match parsed {
            ParsedOracleErrorView::UniqueConstraintViolated(c) => if c == UK_USERS_USER_NICKNAME@ {
                Some(CreateUserRepositoryError::AlreadyExistNickname)
            } else if c == UK_USERS_AUTH_PROVIDER_AUTH_ID@ {
                Some(CreateUserRepositoryError::AlreadyRegistered)
            } else {
                None
            },
        }
    }

    fn map_error(&self, parsed_error: &ParsedOracleError) -> (r: Option<CreateUserRepositoryError>) {
        match parsed_error {
            ParsedOracleError::UniqueConstraintViolated(constraint_name) => {
                let name = text(constraint_name);
                if name == text(UK_USERS_USER_NICKNAME) {
                    Some(CreateUserRepositoryError::AlreadyExistNickname)
                } else if name == text(UK_USERS_AUTH_PROVIDER_AUTH_ID) {
                    Some(CreateUserRepositoryError::AlreadyRegistered)
                } else {
                    None
                }
            },
        }
    }
}

/// A stored user's row.
pub struct UserEntity {
    pub user_id: i64,
    pub user_nickname: String,
    pub active: bool,
    pub created_at: chrono::NaiveDateTime,
    pub updated_at: chrono::NaiveDateTime,
}

/// The row of a user to store.
#[derive(Debug, Clone, PartialEq, Eq)]
pub struct NewUserEntity {
    pub user_nickname: String,
    pub active: bool,
}

/// A stored authentication's row.
pub struct UserAuthEntity {
    pub user_auth_id: i64,
    pub user_id: i64,
    pub auth_provider: String,
    pub auth_id: String,
    pub created_at: chrono::NaiveDateTime,
    pub updated_at: chrono::NaiveDateTime,
}

/// The row of an authentication to store.
#[derive(Debug, Clone, PartialEq, Eq)]
pub struct NewUserAuthEntity {
    pub user_id: i64,
    pub auth_provider: String,
    pub auth_id: String,
}

/// Whether some provider has this name.
pub open spec fn names_provider(name: Seq<char>) -> bool {
    exists|p: AuthProvider| auth_provider_name(p) == name
}

/// Whether an authentication holds what the row holds.
pub open spec fn auth_matches_row(a: UserAuthView, row: UserAuthEntity) -> bool {
    &&& a.user_id matches Some(id) && id.value() == row.user_id
    &&& auth_provider_name(a.auth_provider) == row.auth_provider@
    &&& a.auth_id == row.auth_id@
}

/// Whether a user holds what its row holds.
pub open spec fn user_matches_row(u: UserView, row: UserEntity) -> bool {
    &&& u.user_id matches Some(id) && id.value() == row.user_id
    &&& u.user_nickname == row.user_nickname@
    &&& u.active == row.active
}

impl UserAuthEntity {
    /// The authentication of the row; an error when the row's provider name
    /// names no provider.
    pub fn to_model(&self) -> (r: Result<UserAuth, UnknownAuthProvider>)
        ensures
            r is Ok <==> names_provider(self.auth_provider@),
            r matches Ok(a) ==> auth_matches_row(a@, *self),
    {
        let user_id = UserId::new(self.user_id);
        let auth_provider = AuthProvider::from_str(self.auth_provider.as_str())?;
        let auth_id = AuthId::new(self.auth_id.clone());
        Ok(UserAuth::new(Some(user_id), auth_provider, auth_id))
    }
}

impl UserEntity {
    /// The user of the row, with the given authentications.
    pub fn to_model(&self, user_auths: Vec<UserAuth>) -> (r: User)
        ensures
            user_matches_row(r@, *self),
            r@.user_auths == auth_views(user_auths@),
    {
        let user_id = Some(UserId::new(self.user_id));
        let user_nickname = UserNickname::new(self.user_nickname.clone());
        User::new(user_id, user_nickname, self.active, user_auths)
    }
}

/// Whether the rows of authentications to store hold what the user's
/// authentications hold, under the given user identifier.
pub open spec fn new_auth_rows_match(rows: Seq<NewUserAuthEntity>, auths: Seq<UserAuthView>, user_id: i64) -> bool {
    &&& rows.len() == auths.len()
    &&& forall|k: int|
        0 <= k < rows.len() ==> {
            &&& #[trigger] rows[k].user_id == user_id
            &&& rows[k].auth_provider@ == auth_provider_name(auths[k].auth_provider)
            &&& rows[k].auth_id@ == auths[k].auth_id
        }
}

/// The row of a user to store: its nickname and whether it is active.
pub fn new_user_entity(user: &User) -> (r: NewUserEntity)
    ensures
        r.user_nickname@ == user@.user_nickname,
        r.active == user@.active,
{
    NewUserEntity { user_nickname: user.get_user_nickname().get_value().clone(), active: user.get_active() }
}

/// The rows of a user's authentications to store, before the user has an
/// identifier: their user identifier is 0.
pub fn new_user_auth_entities(user: &User) -> (r: Vec<NewUserAuthEntity>)
    ensures
        new_auth_rows_match(r@, user@.user_auths, 0),
{
    let auths = user.get_user_auths();
    let mut rows: Vec<NewUserAuthEntity> = Vec::new();
    let mut k: usize = 0;
    while k < auths.len()
        invariant
            k <= auths@.len(),
            auth_views(auths@) == user@.user_auths,
            rows@.len() == k,
            forall|t: int|
                0 <= t < k ==> {
                    &&& #[trigger] rows@[t].user_id == 0
                    &&& rows@[t].auth_provider@ == auth_provider_name(auths@[t]@.auth_provider)
                    &&& rows@[t].auth_id@ == auths@[t]@.auth_id
                },
        decreases auths@.len() - k,
    {
        let auth = &auths[k];
        rows.push(
            NewUserAuthEntity {
                user_id: 0,
                auth_provider: auth.get_auth_provider().to_string(),
                auth_id: auth.get_auth_id().to_string(),
            },
        );
        k = k + 1;
    }
    rows
}

/// Gives every row the identifier of the stored user.
pub fn assign_user_id(rows: &mut Vec<NewUserAuthEntity>, user_id: i64)
    ensures
        final(rows)@.len() == old(rows)@.len(),
        forall|k: int|
            0 <= k < final(rows)@.len() ==> {
                &&& (#[trigger] final(rows)@[k]).user_id == user_id
                &&& final(rows)@[k].auth_provider == old(rows)@[k].auth_provider
                &&& final(rows)@[k].auth_id == old(rows)@[k].auth_id
            },
{
    let ghost before = rows@;
    let mut k: usize = 0;
    while k < rows.len()
        invariant
            k <= rows@.len(),
            rows@.len() == before.len(),
            forall|t: int|
                0 <= t < rows@.len() ==> {
                    &&& (#[trigger] rows@[t]).auth_provider == before[t].auth_provider
                    &&& rows@[t].auth_id == before[t].auth_id
                    &&& t < k ==> rows@[t].user_id == user_id
                },
        decreases rows@.len() - k,
    {
        let row = NewUserAuthEntity {
            user_id,
            auth_provider: rows[k].auth_provider.clone(),
            auth_id: rows[k].auth_id.clone(),
        };
        rows.set(k, row);
        k = k + 1;
    }
}

/// Whether every row names a provider.
pub open spec fn all_rows_name_providers(rows: Seq<UserAuthEntity>) -> bool {
    forall|k: int| 0 <= k < rows.len() ==> names_provider(#[trigger] rows[k].auth_provider@)
}

/// The authentications of the rows, in order; when a row names no provider,
/// the unknown error that carries the message of the first such row.
pub fn auths_from_rows(rows: &Vec<UserAuthEntity>) -> (r: Result<Vec<UserAuth>, String>)
    ensures
        r is Ok <==> all_rows_name_providers(rows@),
        r matches Ok(auths) ==> auths@.len() == rows@.len() && forall|k: int|
            0 <= k < rows@.len() ==> auth_matches_row(#[trigger] auths@[k]@, rows@[k]),
        r matches Err(m) ==> m@ == unknown_auth_provider_message(),
{
    let mut auths: Vec<UserAuth> = Vec::new();
    let mut k: usize = 0;
    while k < rows.len()
        invariant
            k <= rows@.len(),
            auths@.len() == k,
            forall|t: int| 0 <= t < k ==> names_provider(#[trigger] rows@[t].auth_provider@),
            forall|t: int| 0 <= t < k ==> auth_matches_row(#[trigger] auths@[t]@, rows@[t]),
        decreases rows@.len() - k,
    {
        match rows[k].to_model() {
            Ok(auth) => auths.push(auth),
            Err(e) => {
                return Err(e.to_string());
            },
        }
        k = k + 1;
    }
    Ok(auths)
}

/// The stored user of a user row and its authentication rows; an unknown
/// error when an authentication row names no provider.
pub fn created_user(user_row: &UserEntity, auth_rows: &Vec<UserAuthEntity>) -> (r: Result<User, CreateUserRepositoryError>)
    ensures
        r is Ok <==> all_rows_name_providers(auth_rows@),
        r matches Ok(u) ==> user_matches_row(u@, *user_row) && u@.user_auths.len() == auth_rows@.len()
            && forall|k: int| 0 <= k < auth_rows@.len() ==> auth_matches_row(#[trigger] u@.user_auths[k], auth_rows@[k]),
        r matches Err(e) ==> e matches CreateUserRepositoryError::Unknown(m) && m@ == unknown_auth_provider_message(),
{
    match auths_from_rows(auth_rows) {
        Ok(auths) => {
            let user = user_row.to_model(auths);
            Ok(user)
        },
        Err(message) => Err(CreateUserRepositoryError::Unknown(message)),
    }
}

/// The found user of an optional user row and its authentication rows; an
/// unknown error when an authentication row names no provider, whether or
/// not the user row was found.
pub fn found_user(user_row: Option<&UserEntity>, auth_rows: &Vec<UserAuthEntity>) -> (r: Result<Option<User>, FindUserByAuthRepositoryError>)
    ensures
        r is Ok <==> all_rows_name_providers(auth_rows@),
        r matches Ok(found) ==> (found is Some <==> user_row is Some),
        r matches Ok(Some(u)) ==> user_matches_row(u@, *user_row->0) && u@.user_auths.len() == auth_rows@.len()
            && forall|k: int| 0 <= k < auth_rows@.len() ==> auth_matches_row(#[trigger] u@.user_auths[k], auth_rows@[k]),
        r matches Err(e) ==> e matches FindUserByAuthRepositoryError::Unknown(m) && m@ == unknown_auth_provider_message(),
{
    let auths = match auths_from_rows(auth_rows) {
        Ok(auths) => auths,
        Err(message) => {
            return Err(FindUserByAuthRepositoryError::Unknown(message));
        },
    };
    match user_row {
        Some(row) => Ok(Some(row.to_model(auths))),
        None => Ok(None),
    }
}

/// Whether a stored user row holds what was written, under the identifier the
/// database gave it.
pub open spec fn user_row_echoes(row: UserEntity, written: NewUserEntity, user_id: i64) -> bool {
    row.user_id == user_id && row.user_nickname@ == written.user_nickname@ && row.active == written.active
}

/// Whether the stored authentication rows hold what was written.
pub open spec fn auth_rows_echo(rows: Seq<UserAuthEntity>, written: Seq<NewUserAuthEntity>) -> bool {
    &&& rows.len() == written.len()
    &&& forall|k: int|
        0 <= k < rows.len() ==> {
            &&& (#[trigger] rows[k]).user_id == written[k].user_id
            &&& rows[k].auth_provider@ == written[k].auth_provider@
            &&& rows[k].auth_id@ == written[k].auth_id@
        }
}

/// What is read back of a stored user is what was written: a user turned into
/// rows (`new_user_entity`, `new_user_auth_entities`, then `assign_user_id`
/// with the identifier the database gave), stored as such, and turned back
/// into a user (`created_user`, `found_user`) has the same nickname, activity
/// and authentications (provider and identifier, in order), now all under
/// that identifier.
pub proof fn lemma_stored_user_round_trip(
    user: UserView,
    written: NewUserEntity,
    written_auths: Seq<NewUserAuthEntity>,
    user_id: i64,
    user_row: UserEntity,
    auth_rows: Seq<UserAuthEntity>,
    read: UserView,
)
    requires
        written.user_nickname@ == user.user_nickname,
        written.active == user.active,
        new_auth_rows_match(written_auths, user.user_auths, user_id),
        user_row_echoes(user_row, written, user_id),
        auth_rows_echo(auth_rows, written_auths),
        user_matches_row(read, user_row),
        read.user_auths.len() == auth_rows.len(),
        forall|k: int| 0 <= k < auth_rows.len() ==> auth_matches_row(#[trigger] read.user_auths[k], auth_rows[k]),
    ensures
        read.user_id matches Some(id) && id.value() == user_id,
        read.user_nickname == user.user_nickname,
        read.active == user.active,
        read.user_auths.len() == user.user_auths.len(),
        forall|k: int|
            0 <= k < read.user_auths.len() ==> {
                &&& (#[trigger] read.user_auths[k]).auth_provider == user.user_auths[k].auth_provider
                &&& read.user_auths[k].auth_id == user.user_auths[k].auth_id
                &&& read.user_auths[k].user_id matches Some(id) && id.value() == user_id
            },
{
    assert forall|k: int| 0 <= k < read.user_auths.len() implies {
        &&& (#[trigger] read.user_auths[k]).auth_provider == user.user_auths[k].auth_provider
        &&& read.user_auths[k].auth_id == user.user_auths[k].auth_id
        &&& read.user_auths[k].user_id matches Some(id) && id.value() == user_id
    } by {
        assert(auth_matches_row(read.user_auths[k], auth_rows[k]));
        assert(auth_rows[k].user_id == written_auths[k].user_id);
        crate::kernel::lemma_auth_provider_name_round_trip(
            read.user_auths[k].auth_provider,
            user.user_auths[k].auth_provider,
        );
    }
}

/// The repository error that a database failure maps to: when the failure's
/// message reports a unique-constraint violation, the mapper's error for it;
/// `None` when there is no message, no violation, or the mapper knows no error
/// for it.
pub open spec fn db_error_mapping<CM: ConstraintMapper<Error = CreateUserRepositoryError>>(
    mapper: CM,
    query_builder_message: Option<Seq<char>>,
) -> Option<CreateUserRepositoryError> {
    match query_builder_message {
        Some(m) => match parsed_oracle_error(m) {
            Some(p) => mapper.mapped_error(p),
            None => None,
        },
        None => None,
    }
}

/// Hands out database connections, inside a unit of work (given by a handle
/// of type `U`) or on their own.
pub trait UnitOfWorkSyncManager<U> {
    /// A shared handle to a connection.
    type Conn;

    /// The connection that the unit of work holds.
    fn get_connection_with_uow(&self, uow: U) -> Result<Self::Conn, UnitOfWorkError>;

    /// A connection from the pool.
    fn get_connection(&self) -> Result<Self::Conn, UnitOfWorkError>;
}

/// Whether a repository's connection outcome `r` follows what the manager
/// gave: the same connection, or an unknown error with the manager's message.
pub open spec fn create_connection_outcome<C>(
    got: Result<C, UnitOfWorkError>,
    r: Result<C, CreateUserRepositoryError>,
) -> bool {
    match got {
        Ok(c) => r == Ok::<C, CreateUserRepositoryError>(c),
        Err(e) => r matches Err(CreateUserRepositoryError::Unknown(m)) && m@ == uow_error_message(e),
    }
}

/// Whether a repository's connection outcome `r` follows what the manager
/// gave: the same connection, or an unknown error with the manager's message.
pub open spec fn find_connection_outcome<C>(
    got: Result<C, UnitOfWorkError>,
    r: Result<C, FindUserByAuthRepositoryError>,
) -> bool {
    match got {
        Ok(c) => r == Ok::<C, FindUserByAuthRepositoryError>(c),
        Err(e) => r matches Err(FindUserByAuthRepositoryError::Unknown(m)) && m@ == uow_error_message(e),
    }
}

/// A database failure is taken for a taken nickname only when its message
/// reports a violation of `UK_USERS_USER_NICKNAME`, and for an already
/// registered authentication only when it reports a violation of
/// `UK_USERS_AUTH_PROVIDER_AUTH_ID`; a failure without a message, or whose
/// message reports no unique-constraint violation, maps to no error (so
/// `handle_db_error` answers it as unknown, with the failure's text).
pub proof fn lemma_user_db_errors(message: Option<Seq<char>>)
    ensures
        db_error_mapping(CreateUserConstraintMapper, message) == Some(CreateUserRepositoryError::AlreadyExistNickname)
            ==> (message matches Some(m) && reports_unique_violation(m, "UK_USERS_USER_NICKNAME"@)),
        db_error_mapping(CreateUserConstraintMapper, message) == Some(CreateUserRepositoryError::AlreadyRegistered)
            ==> (message matches Some(m) && reports_unique_violation(m, "UK_USERS_AUTH_PROVIDER_AUTH_ID"@)),
        db_error_mapping(CreateUserConstraintMapper, message) is Some ==> (db_error_mapping(
            CreateUserConstraintMapper,
            message,
        ) == Some(CreateUserRepositoryError::AlreadyExistNickname) || db_error_mapping(
            CreateUserConstraintMapper,
            message,
        ) == Some(CreateUserRepositoryError::AlreadyRegistered)),
        (match message {
            None => true,
            Some(m) => forall|c: Seq<char>| !reports_unique_violation(m, c),
        }) ==> db_error_mapping(CreateUserConstraintMapper, message) is None,
{
    if let Some(m) = message {
        lemma_parsed_error_is_reported(m);
        if let Some(ParsedOracleErrorView::UniqueConstraintViolated(c)) = parsed_oracle_error(m) {
            assert(reports_unique_violation(m, c));
        }
    }
}

/// Stores users in Oracle.
pub struct CreateUserOracleAdapter<M, CM> {
    uow_sync_manager: Arc<M>,
    constraint_mapper: Arc<CM>,
    error_parser: Arc<OracleErrorParser>,
}

impl<M, CM> CreateUserOracleAdapter<M, CM> {
    pub closed spec fn mapper(&self) -> CM {
        *self.constraint_mapper
    }

    pub closed spec fn manager(&self) -> M {
        *self.uow_sync_manager
    }

    pub fn new(uow_sync_manager: Arc<M>, constraint_mapper: Arc<CM>, error_parser: Arc<OracleErrorParser>) -> (r: Self)
        ensures
            r.manager() == *uow_sync_manager,
            r.mapper() == *constraint_mapper,
    {
        CreateUserOracleAdapter { uow_sync_manager, constraint_mapper, error_parser }
    }

    /// The manager of connections and units of work.
    pub fn uow_sync_manager(&self) -> (r: &Arc<M>)
        ensures
            **r == self.manager(),
    {
        &self.uow_sync_manager
    }
}

impl<M, CM: ConstraintMapper<Error = CreateUserRepositoryError>> CreateUserOracleAdapter<M, CM> {
    /// The repository error for a database failure, from the message of the
    /// failure when the query builder reported it, and the failure's text.
    pub fn handle_db_error(&self, query_builder_message: Option<String>, error_text: String) -> (r: CreateUserRepositoryError)
        ensures
            match db_error_mapping(
                self.mapper(),
                match query_builder_message {
                    Some(m) => Some(m@),
                    None => None,
                },
            ) {
                Some(e) => r == e,
                None => r matches CreateUserRepositoryError::Unknown(m) && m@ == error_text@,
            },
    {
        if let Some(error_message) = query_builder_message {
            if let Some(parsed_error) = self.error_parser.parse(error_message.as_str()) {
                if let Some(app_error) = self.constraint_mapper.map_error(&parsed_error) {
                    return app_error;
                }
            }
        }
        CreateUserRepositoryError::Unknown(error_text)
    }
}

impl<M, CM> CreateUserOracleAdapter<M, CM> {
    /// The connection to store a user on: the unit of work's connection when
    /// a unit of work is given, else one from the pool; the manager's failure
    /// becomes an unknown error with its message.
    pub fn acquire_connection<U>(&self, tx: Option<U>) -> (r: Result<M::Conn, CreateUserRepositoryError>)
        where M: UnitOfWorkSyncManager<U>,
        ensures
            tx is None ==> exists|got: Result<M::Conn, UnitOfWorkError>|
                call_ensures(M::get_connection, (&self.manager(),), got) && #[trigger] create_connection_outcome(got, r),
            tx matches Some(t) ==> exists|got: Result<M::Conn, UnitOfWorkError>|
                call_ensures(M::get_connection_with_uow, (&self.manager(), t), got)
                    && #[trigger] create_connection_outcome(got, r),
    {
        let got = match tx {
            None => self.uow_sync_manager.get_connection(),
            Some(t) => self.uow_sync_manager.get_connection_with_uow(t),
        };
        let r = match got {
            Ok(c) => Ok(c),
            Err(e) => Err(CreateUserRepositoryError::from(e)),
        };
        assert(create_connection_outcome(got, r));
        r
    }
}

/// Finds users in Oracle by authentication.
pub struct FindUserByAuthOracleAdapter<M> {
    uow_sync_manager: Arc<M>,
}

impl<M> FindUserByAuthOracleAdapter<M> {
    pub closed spec fn manager(&self) -> M {
        *self.uow_sync_manager
    }

    pub fn new(uow_sync_manager: Arc<M>) -> (r: Self)
        ensures
            r.manager() == *uow_sync_manager,
    {
        FindUserByAuthOracleAdapter { uow_sync_manager }
    }

    /// The manager of connections and units of work.
    pub fn uow_sync_manager(&self) -> (r: &Arc<M>)
        ensures
            **r == self.manager(),
    {
        &self.uow_sync_manager
    }
}

impl<M> FindUserByAuthOracleAdapter<M> {
    /// The connection to look a user up on: the unit of work's connection
    /// when a unit of work is given, else one from the pool; the manager's
    /// failure becomes an unknown error with its message.
    pub fn acquire_connection<U>(&self, uow: Option<U>) -> (r: Result<M::Conn, FindUserByAuthRepositoryError>)
        where M: UnitOfWorkSyncManager<U>,
        ensures
            uow is None ==> exists|got: Result<M::Conn, UnitOfWorkError>|
                call_ensures(M::get_connection, (&self.manager(),), got) && #[trigger] find_connection_outcome(got, r),
            uow matches Some(t) ==> exists|got: Result<M::Conn, UnitOfWorkError>|
                call_ensures(M::get_connection_with_uow, (&self.manager(), t), got)
                    && #[trigger] find_connection_outcome(got, r),
    {
        let got = match uow {
            None => self.uow_sync_manager.get_connection(),
            Some(t) => self.uow_sync_manager.get_connection_with_uow(t),
        };
        let r = match got {
            Ok(c) => Ok(c),
            Err(e) => Err(FindUserByAuthRepositoryError::from(e)),
        };
        assert(find_connection_outcome(got, r));
        r
    }
}

} // verus!
