//! Registration: refuse what collides with an existing account, hash the
//! password, and hand the new record to the credential store.

use crate::errors::AppError;
use crate::errors::ErrorView;
use crate::handlers::login::login_outcome;
use crate::handlers::login::login_state;
use crate::handlers::login::LoginState;
use crate::models::NewUser;
use crate::models::RegisterRequest;
use crate::models::RegisterResponse;
use crate::models::User;
use crate::password::is_hash_of;
use crate::password::hash_password;
use crate::token::issue_outcome;
use vstd::prelude::*;
use vstd::string::StringExecFns;

verus! {

/// The role that every newly registered user gets.
pub open spec fn user_role() -> Seq<char> {
    "user"@
}

/// Whether an account stands in the way of a registration under this name
/// and this address: it has the name or it has the address.
pub open spec fn collides(account: User, username: Seq<char>, email: Seq<char>) -> bool {
    account.username@ == username || account.email@ == email
}

/// Whether the store already holds an account with this name or this
/// address. This is the question that the caller puts to the store before a
/// registration.
pub open spec fn taken(store: Seq<User>, username: Seq<char>, email: Seq<char>) -> bool {
    exists|i: int| 0 <= i < store.len() && #[trigger] collides(store[i], username, email)
}

/// Whether no two accounts of the store share a name or an address.
pub open spec fn unique(store: Seq<User>) -> bool {
    forall|i: int, j: int|
        0 <= i < j < store.len() ==> (#[trigger] store[i]).username@ != (
        #[trigger] store[j]).username@ && store[i].email@ != store[j].email@
}

/// The account that the store holds once it has given `id` to `record`.
pub open spec fn stored(record: NewUser, id: i32) -> User {
    User {
        id,
        username: record.username,
        email: record.email,
        password_hash: record.password_hash,
        role: record.role,
    }
}

/// Whether `record` is the account to store for `payload` with the password
/// hash `hash`.
pub open spec fn is_record_of(record: NewUser, payload: RegisterRequest, hash: Seq<char>) -> bool {
    &&& record.username@ == payload.username@
    &&& record.email@ == payload.email@
    &&& record.password_hash@ == hash
    &&& record.role@ == user_role()
}

/// Whether `result` is an acceptable outcome of a registration. Where the
/// store already holds the name or the address it is the conflict. Otherwise
/// it is the account to store, whose hash the password check accepts for the
/// submitted password, or the hashing algorithm's failure.
pub open spec fn is_registration_of(
    existing: bool,
    payload: RegisterRequest,
    result: Result<NewUser, AppError>,
) -> bool {
    if existing {
        result matches Err(e) && e@ == ErrorView::Conflict
    } else {
        match result {
            Ok(record) => is_record_of(record, payload, record.password_hash@) && is_hash_of(
                payload.password@,
                record.password_hash@,
            ),
            Err(e) => e@ is Bcrypt,
        }
    }
}

/// A user who has just registered can log in with the same name and
/// password: the login comes to exactly what issuing a token for that name
/// and the role of a plain user comes to. So it succeeds wherever a token can
/// be issued at all, and the token's subject and role are those of the
/// registration.
pub proof fn lemma_registered_user_logs_in(
    payload: RegisterRequest,
    record: NewUser,
    id: i32,
    key_id: Seq<char>,
    der: Seq<u8>,
    now: int,
)
    requires
        is_registration_of(false, payload, Ok(record)),
    ensures
        login_outcome(Some(stored(record, id)), payload.password@, key_id, der, now)
            == issue_outcome(payload.username@, user_role(), key_id, der, now),
        login_state(Some(stored(record, id)), payload.password@) == LoginState::PasswordMatch,
{
}

/// A second registration under a name or an address that a first one has
/// taken is refused as a conflict, which is answered with status 409. The
/// first registration succeeded against `store` and was stored under `id`;
/// `result` is an outcome of the second against the store as it then is.
pub proof fn lemma_duplicate_is_conflict(
    store: Seq<User>,
    first: RegisterRequest,
    record: NewUser,
    id: i32,
    second: RegisterRequest,
    result: Result<NewUser, AppError>,
)
    requires
        is_registration_of(taken(store, first.username@, first.email@), first, Ok(record)),
        second.username@ == first.username@ || second.email@ == first.email@,
        is_registration_of(
            taken(store.push(stored(record, id)), second.username@, second.email@),
            second,
            result,
        ),
    ensures
        result matches Err(e) && e@ == ErrorView::Conflict && e@.status() == 409,
{
    let after = store.push(stored(record, id));
    let last = store.len() as int;
    assert(collides(after[last], second.username@, second.email@));
}

/// Registrations keep the store free of duplicates: where no two accounts
/// share a name or an address, none do after a registration that succeeded
/// against the store has been stored.
pub proof fn lemma_registration_keeps_unique(
    store: Seq<User>,
    payload: RegisterRequest,
    record: NewUser,
    id: i32,
)
    requires
        unique(store),
        is_registration_of(taken(store, payload.username@, payload.email@), payload, Ok(record)),
    ensures
        unique(store.push(stored(record, id))),
{
    let after = store.push(stored(record, id));
    assert forall|i: int, j: int| 0 <= i < j < after.len() implies (#[trigger] after[i]).username@
        != (#[trigger] after[j]).username@ && after[i].email@ != after[j].email@ by {
        if j < store.len() {
            assert(after[i] == store[i] && after[j] == store[j]);
        } else {
            assert(after[i] == store[i]);
            assert(!collides(store[i], payload.username@, payload.email@));
        }
    }
}

/// Builds the account to store from what the hashing gave: the record with
/// that hash and the role of a plain user, or the hashing's error unchanged.
pub fn new_user(payload: &RegisterRequest, hashed: Result<String, AppError>) -> (r: Result<
    NewUser,
    AppError,
>)
    ensures
        match hashed {
            Ok(hash) => r matches Ok(record) && is_record_of(record, *payload, hash@),
            Err(error) => r matches Err(e) && e@ == error@,
        },
{
    match hashed {
        Ok(hash) => Ok(
            NewUser {
                username: payload.username.clone(),
                email: payload.email.clone(),
                password_hash: hash,
                role: String::from_str("user"),
            },
        ),
        Err(error) => Err(error),
    }
}

/// Serves a registration up to the point where the store takes over.
/// `existing` is the store's answer to whether it already holds an account
/// with the submitted name or address. The password is hashed only where it
/// does not.
pub fn register(existing: bool, payload: &RegisterRequest) -> (r: Result<NewUser, AppError>)
    ensures
        is_registration_of(existing, *payload, r),
{
    if existing {
        return Err(AppError::Conflict);
    }
    new_user(payload, hash_password(payload.password.as_str()))
}

/// The answer to a registration that the store has completed under
/// `user_id`.
pub fn registered(user_id: i32, username: &str) -> (response: RegisterResponse)
    ensures
        response.message@ == "User registered successfully"@,
        response.user_id == user_id,
        response.username@ == username@,
{
    RegisterResponse {
        message: String::from_str("User registered successfully"),
        user_id,
        username: String::from_str(username),
    }
}

} // verus!
