//! The endpoints that manage user records: who may do what, and what each
//! answers to what the user store says.

use crate::clock::{timestamp_now, UNIX_NOW_LIMIT};
use crate::middleware::error_handler::{
    bad_request_error, forbidden_error, internal_server_error, not_found_error,
    unauthorized_error, ErrorResponse,
};
use crate::models::auth::{id_or_nil, Claims};
use crate::models::user::{
    total_pages, ChangePasswordRequest, CreateUserRequest, PageWindow,
    UpdateUserRequest, User, UserListResponse, UserResponse, UserRole,
};
use crate::password::{hash_password, password_check, verify_password};
use crate::user_id::{id_of_text, random_id};
use vstd::prelude::*;

verus! {

/// The user store could not answer. Why is for the log.
#[derive(Debug, Clone, Copy, PartialEq, Eq, Structural)]
pub struct StoreFailure;

/// The ownership rule: a record is open to its owner and to
/// administrators.
pub open spec fn permits(claims: Claims, owner_id: u128) -> bool {
    id_or_nil(claims@.sub) == owner_id || claims.role == UserRole::Admin
}

/// Claims that were issued for a user open that user's record, whatever
/// the role.
pub proof fn lemma_owner_is_permitted(claims: Claims, owner_id: u128)
    requires
        id_of_text(claims@.sub) == Some(owner_id),
    ensures
        permits(claims, owner_id),
{
}

/// An administrator's claims open every record.
pub proof fn lemma_admin_is_permitted(claims: Claims, owner_id: u128)
    requires
        claims.role == UserRole::Admin,
    ensures
        permits(claims, owner_id),
{
}

/// Whether the holder of `claims` may act on the record of `owner_id`.
pub fn may_access(claims: &Claims, owner_id: u128) -> (allowed: bool)
    ensures
        allowed == permits(*claims, owner_id),
{
    let requesting_user_id = claims.user_id_or_nil();
    owner_id == requesting_user_id || claims.is_admin()
}

/// What a handler does with a request before it turns to the store: go on,
/// or answer at once.
#[derive(Debug)]
pub enum Access {
    Granted,
    Denied(ErrorResponse),
}

impl Access {
    /// The status, category, message and code of the answer, where access
    /// is denied.
    pub open spec fn denial(&self) -> Option<(u16, Seq<char>, Seq<char>, Seq<char>)> {
        match self {
            Access::Granted => None,
            Access::Denied(response) => Some(response.body()),
        }
    }

    /// The time of the answer, where access is denied, is one that the wall
    /// clock reads.
    pub open spec fn stamped(&self) -> bool {
        match self {
            Access::Granted => true,
            Access::Denied(response) => response.stamped(),
        }
    }

    pub fn is_granted(&self) -> (granted: bool)
        ensures
            granted == (self is Granted),
    {
        match self {
            Access::Granted => true,
            Access::Denied(_) => false,
        }
    }
}

/// The answer to a user who asks for the record of another.
fn owner_only(claims: &Claims, owner_id: u128, message: &str) -> (access: Access)
    ensures
        access.stamped(),
        access.denial() == if permits(*claims, owner_id) {
            None
        } else {
            Some((403u16, "Forbidden"@, message@, "ACCESS_DENIED"@))
        },
{
    if may_access(claims, owner_id) {
        Access::Granted
    } else {
        Access::Denied(forbidden_error(message, "ACCESS_DENIED"))
    }
}

/// Whether a record may be read: by its owner and by administrators. A
/// request without claims is not held to the rule.
pub fn authorize_get_user(claims: Option<&Claims>, user_id: u128) -> (access: Access)
    ensures
        access.stamped(),
        access.denial() == match claims {
            Some(claims) if !permits(*claims, user_id) => Some(
                (
                    403u16,
                    "Forbidden"@,
                    "Acesso negado. Você só pode ver seus próprios dados."@,
                    "ACCESS_DENIED"@,
                ),
            ),
            _ => None,
        },
{
    match claims {
        Some(claims) => owner_only(claims, user_id, "Acesso negado. Você só pode ver seus próprios dados."),
        None => Access::Granted,
    }
}

/// Whether a record may be changed, and its role set to `new_role`: the
/// record by its owner and by administrators, and a role other than that of
/// an ordinary user by administrators alone. A request without claims is
/// not held to either rule.
pub fn authorize_update_user(claims: Option<&Claims>, user_id: u128, new_role: Option<UserRole>) -> (access:
    Access)
    ensures
        access.stamped(),
        access.denial() == match claims {
            Some(claims) => if !permits(*claims, user_id) {
                Some(
                    (
                        403u16,
                        "Forbidden"@,
                        "Acesso negado. Você só pode atualizar seus próprios dados."@,
                        "ACCESS_DENIED"@,
                    ),
                )
            } else if (new_role matches Some(role) && role != UserRole::User) && claims.role != UserRole::Admin {
                Some(
                    (
                        403u16,
                        "Forbidden"@,
                        "Apenas administradores podem alterar roles de usuário."@,
                        "ADMIN_REQUIRED"@,
                    ),
                )
            } else {
                None
            },
            None => None,
        },
{
    let claims = match claims {
        Some(claims) => claims,
        None => {
            return Access::Granted;
        },
    };
    let access = owner_only(claims, user_id, "Acesso negado. Você só pode atualizar seus próprios dados.");
    if !access.is_granted() {
        return access;
    }
    match new_role {
        Some(UserRole::Admin) if !claims.is_admin() => Access::Denied(
            forbidden_error("Apenas administradores podem alterar roles de usuário.", "ADMIN_REQUIRED"),
        ),
        _ => Access::Granted,
    }
}

/// Whether the password of a record may be changed: by its owner and by
/// administrators. A request without claims is not held to the rule.
pub fn authorize_change_password(claims: Option<&Claims>, user_id: u128) -> (access: Access)
    ensures
        access.stamped(),
        access.denial() == match claims {
            Some(claims) if !permits(*claims, user_id) => Some(
                (
                    403u16,
                    "Forbidden"@,
                    "Acesso negado. Você só pode alterar sua própria senha."@,
                    "ACCESS_DENIED"@,
                ),
            ),
            _ => None,
        },
{
    match claims {
        Some(claims) => owner_only(claims, user_id, "Acesso negado. Você só pode alterar sua própria senha."),
        None => Access::Granted,
    }
}

/// Whether a record may be deleted: by administrators. A request without
/// claims is not held to the rule.
pub fn authorize_delete_user(claims: Option<&Claims>) -> (access: Access)
    ensures
        access.stamped(),
        access.denial() == match claims {
            Some(claims) if claims.role != UserRole::Admin => Some(
                (
                    403u16,
                    "Forbidden"@,
                    "Acesso negado. Apenas administradores podem deletar usuários."@,
                    "ADMIN_REQUIRED"@,
                ),
            ),
            _ => None,
        },
{
    match claims {
        Some(claims) if !claims.is_admin() => Access::Denied(
            forbidden_error("Acesso negado. Apenas administradores podem deletar usuários.", "ADMIN_REQUIRED"),
        ),
        _ => Access::Granted,
    }
}

/// Whether the users may be listed: by administrators, and not without
/// claims.
pub fn authorize_list_users(claims: Option<&Claims>) -> (access: Access)
    ensures
        access.stamped(),
        access.denial() == match claims {
            Some(claims) => if claims.role != UserRole::Admin {
                Some(
                    (
                        403u16,
                        "Forbidden"@,
                        "Acesso negado. Apenas administradores podem listar usuários."@,
                        "ADMIN_REQUIRED"@,
                    ),
                )
            } else {
                None
            },
            None => Some((401u16, "Unauthorized"@, "Token JWT não encontrado"@, "TOKEN_MISSING"@)),
        },
{
    match claims {
        Some(claims) => if claims.is_admin() {
            Access::Granted
        } else {
            Access::Denied(
                forbidden_error("Acesso negado. Apenas administradores podem listar usuários.", "ADMIN_REQUIRED"),
            )
        },
        None => Access::Denied(unauthorized_error("Token JWT não encontrado", "TOKEN_MISSING")),
    }
}

/// Whose record "me" is: that of the user whom the claims name. Without
/// claims there is nobody to name, and a subject that spells no identifier
/// names nobody.
pub fn current_user_id(claims: Option<&Claims>) -> (current: Result<u128, ErrorResponse>)
    ensures
        match claims {
            Some(claims) => match id_of_text(claims@.sub) {
                Some(id) => current matches Ok(found) && found == id,
                None => current matches Err(response) && response.says((
                    400u16,
                    "Bad Request"@,
                    "ID de usuário inválido no token"@,
                    "INVALID_USER_ID"@,
                )),
            },
            None => current matches Err(response) && response.says((
                401u16,
                "Unauthorized"@,
                "Token JWT não encontrado"@,
                "TOKEN_MISSING"@,
            )),
        },
{
    match claims {
        Some(claims) => match claims.get_user_id() {
            Ok(id) => Ok(id),
            Err(_) => Err(bad_request_error("ID de usuário inválido no token", "INVALID_USER_ID")),
        },
        None => Err(unauthorized_error("Token JWT não encontrado", "TOKEN_MISSING")),
    }
}

/// The body of the answer to a failure of the store.
pub open spec fn store_failed() -> (u16, Seq<char>, Seq<char>, Seq<char>) {
    (500u16, "Internal Server Error"@, "Erro interno do servidor"@, "DATABASE_ERROR"@)
}

/// The body of the answer where the store has no such user.
pub open spec fn user_not_found() -> (u16, Seq<char>, Seq<char>, Seq<char>) {
    (404u16, "Not Found"@, "Usuário não encontrado"@, "USER_NOT_FOUND"@)
}

/// The body of the answer where a password could not be hashed.
pub open spec fn hash_failed() -> (u16, Seq<char>, Seq<char>, Seq<char>) {
    (500u16, "Internal Server Error"@, "Erro interno do servidor"@, "PASSWORD_HASH_ERROR"@)
}

/// What an endpoint answers.
#[derive(Debug)]
pub enum Reply {
    /// An error: its status and the error body.
    Failure(ErrorResponse),
    /// Status 201: a message, and the user as created.
    Created { message: String, user: UserResponse },
    /// Status 200: a message, and the user as changed.
    Updated { message: String, user: UserResponse },
    /// Status 200: the user.
    Found(UserResponse),
    /// Status 200: one page of the users.
    Listed(UserListResponse),
    /// Status 200: a message.
    Done { message: String },
}

impl Reply {
    pub open spec fn spec_status(&self) -> u16 {
        match self {
            Reply::Failure(response) => response.status,
            Reply::Created { .. } => 201,
            _ => 200,
        }
    }

    pub fn status(&self) -> (status: u16)
        ensures
            status == self.spec_status(),
    {
        match self {
            Reply::Failure(response) => response.status,
            Reply::Created { .. } => 201,
            _ => 200,
        }
    }
}

/// The user that the store found, or the answer where it found none or
/// failed.
pub fn found_or_answer(found: Result<Option<User>, StoreFailure>) -> (user: Result<User, ErrorResponse>)
    ensures
        match found {
            Ok(Some(on_record)) => user == Ok::<User, ErrorResponse>(on_record),
            Ok(None) => user matches Err(response) && response.says(user_not_found()),
            Err(_) => user matches Err(response) && response.says(store_failed()),
        },
{
    match found {
        Ok(Some(user)) => Ok(user),
        Ok(None) => Err(not_found_error("Usuário não encontrado", "USER_NOT_FOUND")),
        Err(_) => Err(internal_server_error("Erro interno do servidor", "DATABASE_ERROR")),
    }
}

/// The answer to a request for one user, once the store has been asked:
/// the user without the password, or why not.
pub fn user_reply(found: Result<Option<User>, StoreFailure>) -> (reply: Reply)
    ensures
        match found {
            Ok(Some(user)) => reply == Reply::Found(user.shown()),
            Ok(None) => reply matches Reply::Failure(response) && response.says(user_not_found()),
            Err(_) => reply matches Reply::Failure(response) && response.says(store_failed()),
        },
{
    match found_or_answer(found) {
        Ok(user) => Reply::Found(UserResponse::from(user)),
        Err(response) => Reply::Failure(response),
    }
}

/// Registration, once the store has been asked for a user with the email:
/// the record to store, with a new identifier, the password hashed and both
/// times set to now; or the answer where the email is taken, or the store or
/// the hasher failed.
pub fn register_user_checked(existing: Result<Option<User>, StoreFailure>, user_data: CreateUserRequest) -> (next:
    Result<User, ErrorResponse>)
    ensures
        match existing {
            Ok(Some(_)) => next matches Err(response) && response.says((
                400u16,
                "Bad Request"@,
                "Email já está em uso"@,
                "EMAIL_ALREADY_EXISTS"@,
            )),
            Err(_) => next matches Err(response) && response.says(store_failed()),
            Ok(None) => match next {
                Ok(user) => {
                    &&& user.nome == user_data.nome
                    &&& user.email == user_data.email
                    &&& password_check(user_data.senha@, user.senha@) == Some(true)
                    &&& user.role == match user_data.role {
                        Some(asked) => asked,
                        None => UserRole::User,
                    }
                    &&& user.created_at == user.updated_at
                    &&& 0 <= user.created_at.secs < UNIX_NOW_LIMIT
                },
                Err(response) => response.says(hash_failed()),
            },
        },
{
    match existing {
        Ok(Some(_)) => {
            return Err(bad_request_error("Email já está em uso", "EMAIL_ALREADY_EXISTS"));
        },
        Ok(None) => {},
        Err(_) => {
            return Err(internal_server_error("Erro interno do servidor", "DATABASE_ERROR"));
        },
    }
    let hashed_password = match hash_password(user_data.senha.as_str()) {
        Ok(hashed) => hashed,
        Err(_) => {
            return Err(internal_server_error("Erro interno do servidor", "PASSWORD_HASH_ERROR"));
        },
    };
    let new_user_id = random_id();
    let now = timestamp_now();
    let role = user_data.role_or_default();
    Ok(
        User {
            id: new_user_id,
            nome: user_data.nome,
            email: user_data.email,
            senha: hashed_password,
            role,
            created_at: now,
            updated_at: now,
        },
    )
}

/// Registration, once the store has been asked to keep the record.
pub fn register_user_stored(stored: Result<User, StoreFailure>) -> (reply: Reply)
    ensures
        match stored {
            Ok(user) => reply matches Reply::Created { message, user: shown } && message@
                == "Usuário criado com sucesso"@ && shown == user.shown(),
            Err(_) => reply matches Reply::Failure(response) && response.says((
                500u16,
                "Internal Server Error"@,
                "Erro ao criar usuário"@,
                "USER_CREATION_ERROR"@,
            )),
        },
{
    match stored {
        Ok(user) => Reply::Created {
            message: "Usuário criado com sucesso".to_owned(),
            user: UserResponse::from(user),
        },
        Err(_) => Reply::Failure(internal_server_error("Erro ao criar usuário", "USER_CREATION_ERROR")),
    }
}

/// Whether an update asks for an email other than the one on record, so
/// that the store has to be asked who else has it.
pub fn changes_email(user_data: &UpdateUserRequest, current_user: &User) -> (changes: bool)
    ensures
        changes == (user_data.email matches Some(email) && email@ != current_user.email@),
{
    match &user_data.email {
        Some(email) => *email != current_user.email,
        None => false,
    }
}

/// An update, once the store has been asked for another user with the new
/// email: the answer where there is one or the store failed, nothing where
/// the email is free.
pub fn update_user_email_checked(taken: Result<Option<User>, StoreFailure>) -> (answer: Option<ErrorResponse>)
    ensures
        match taken {
            Ok(Some(_)) => answer matches Some(response) && response.says((
                400u16,
                "Bad Request"@,
                "Email já está em uso por outro usuário"@,
                "EMAIL_ALREADY_EXISTS"@,
            )),
            Ok(None) => answer is None,
            Err(_) => answer matches Some(response) && response.says(store_failed()),
        },
{
    match taken {
        Ok(Some(_)) => Some(bad_request_error("Email já está em uso por outro usuário", "EMAIL_ALREADY_EXISTS")),
        Ok(None) => None,
        Err(_) => Some(internal_server_error("Erro interno do servidor", "DATABASE_ERROR")),
    }
}

/// The record that an update leaves: what the update names takes the place
/// of what is on record, a new password as its hash, and the time of the
/// update is now. The answer comes instead where the hasher failed.
pub fn update_user_merged(user_data: UpdateUserRequest, current_user: User) -> (next: Result<User, ErrorResponse>)
    ensures
        match next {
            Ok(user) => {
                &&& user.id == current_user.id
                &&& user.nome == match user_data.nome {
                    Some(nome) => nome,
                    None => current_user.nome,
                }
                &&& user.email == match user_data.email {
                    Some(email) => email,
                    None => current_user.email,
                }
                &&& user.role == match user_data.role {
                    Some(role) => role,
                    None => current_user.role,
                }
                &&& match user_data.senha {
                    Some(new_password) => password_check(new_password@, user.senha@) == Some(true),
                    None => user.senha == current_user.senha,
                }
                &&& user.created_at == current_user.created_at
                &&& 0 <= user.updated_at.secs < UNIX_NOW_LIMIT
            },
            Err(response) => user_data.senha is Some && response.says(hash_failed()),
        },
{
    let senha = match &user_data.senha {
        Some(new_password) => match hash_password(new_password.as_str()) {
            Ok(hashed) => hashed,
            Err(_) => {
                return Err(internal_server_error("Erro interno do servidor", "PASSWORD_HASH_ERROR"));
            },
        },
        None => current_user.senha,
    };
    let nome = match user_data.nome {
        Some(nome) => nome,
        None => current_user.nome,
    };
    let email = match user_data.email {
        Some(email) => email,
        None => current_user.email,
    };
    let role = match user_data.role {
        Some(role) => role,
        None => current_user.role,
    };
    Ok(
        User {
            id: current_user.id,
            nome,
            email,
            senha,
            role,
            created_at: current_user.created_at,
            updated_at: timestamp_now(),
        },
    )
}

/// An update, once the store has been asked to keep the record.
pub fn update_user_stored(stored: Result<User, StoreFailure>) -> (reply: Reply)
    ensures
        match stored {
            Ok(user) => reply matches Reply::Updated { message, user: shown } && message@
                == "Usuário atualizado com sucesso"@ && shown == user.shown(),
            Err(_) => reply matches Reply::Failure(response) && response.says((
                500u16,
                "Internal Server Error"@,
                "Erro ao atualizar usuário"@,
                "DATABASE_ERROR"@,
            )),
        },
{
    match stored {
        Ok(user) => Reply::Updated {
            message: "Usuário atualizado com sucesso".to_owned(),
            user: UserResponse::from(user),
        },
        Err(_) => Reply::Failure(internal_server_error("Erro ao atualizar usuário", "DATABASE_ERROR")),
    }
}

/// A change of password, once the store has been asked for the user: the
/// hash of the new password where the current one matches, else the answer.
pub fn change_password_checked(found: Result<Option<User>, StoreFailure>, password_data: &ChangePasswordRequest) -> (next:
    Result<String, ErrorResponse>)
    ensures
        match found {
            Ok(Some(user)) => match password_check(password_data.senha_atual@, user.senha@) {
                Some(true) => match next {
                    Ok(hash) => password_check(password_data.senha_nova@, hash@) == Some(true),
                    Err(response) => response.says(hash_failed()),
                },
                Some(false) => next matches Err(response) && response.says((
                    400u16,
                    "Bad Request"@,
                    "Senha atual incorreta"@,
                    "INVALID_PASSWORD"@,
                )),
                None => next matches Err(response) && response.says((
                    500u16,
                    "Internal Server Error"@,
                    "Erro interno do servidor"@,
                    "PASSWORD_VERIFICATION_ERROR"@,
                )),
            },
            Ok(None) => next matches Err(response) && response.says(user_not_found()),
            Err(_) => next matches Err(response) && response.says(store_failed()),
        },
{
    let user = match found_or_answer(found) {
        Ok(user) => user,
        Err(response) => {
            return Err(response);
        },
    };
    match verify_password(password_data.senha_atual.as_str(), user.senha.as_str()) {
        Ok(true) => {},
        Ok(false) => {
            return Err(bad_request_error("Senha atual incorreta", "INVALID_PASSWORD"));
        },
        Err(_) => {
            return Err(internal_server_error("Erro interno do servidor", "PASSWORD_VERIFICATION_ERROR"));
        },
    }
    match hash_password(password_data.senha_nova.as_str()) {
        Ok(hashed) => Ok(hashed),
        Err(_) => Err(internal_server_error("Erro interno do servidor", "PASSWORD_HASH_ERROR")),
    }
}

/// A change of password, once the store has been asked to keep the hash.
pub fn change_password_stored(stored: Result<(), StoreFailure>) -> (reply: Reply)
    ensures
        match stored {
            Ok(_) => reply matches Reply::Done { message } && message@ == "Senha alterada com sucesso"@,
            Err(_) => reply matches Reply::Failure(response) && response.says((
                500u16,
                "Internal Server Error"@,
                "Erro ao alterar senha"@,
                "DATABASE_ERROR"@,
            )),
        },
{
    match stored {
        Ok(_) => Reply::Done { message: "Senha alterada com sucesso".to_owned() },
        Err(_) => Reply::Failure(internal_server_error("Erro ao alterar senha", "DATABASE_ERROR")),
    }
}

/// A deletion, once the store has been asked to drop the record.
pub fn delete_user_stored(stored: Result<(), StoreFailure>) -> (reply: Reply)
    ensures
        match stored {
            Ok(_) => reply matches Reply::Done { message } && message@ == "Usuário deletado com sucesso"@,
            Err(_) => reply matches Reply::Failure(response) && response.says((
                500u16,
                "Internal Server Error"@,
                "Erro ao deletar usuário"@,
                "DATABASE_ERROR"@,
            )),
        },
{
    match stored {
        Ok(_) => Reply::Done { message: "Usuário deletado com sucesso".to_owned() },
        Err(_) => Reply::Failure(internal_server_error("Erro ao deletar usuário", "DATABASE_ERROR")),
    }
}

/// The users of a page as responses show them.
fn shown_all(users: Vec<User>) -> (shown: Vec<UserResponse>)
    ensures
        shown@ == users@.map_values(|user: User| user.shown()),
{
    let ghost all = users@;
    let mut shown: Vec<UserResponse> = Vec::new();
    for user in it: users.into_iter()
        invariant
            it.seq() == all,
            shown@.len() == it.index(),
            forall|i: int| 0 <= i < shown@.len() ==> shown@[i] == all[i].shown(),
    {
        shown.push(UserResponse::from(user));
    }
    assert(shown@ =~= all.map_values(|user: User| user.shown()));
    shown
}

/// A listing, once the store has counted the users and fetched the page:
/// the page with its place in the whole, or the answer where the store
/// failed at either.
pub fn list_users_page(window: PageWindow, counted: Result<i64, StoreFailure>, fetched: Result<Vec<User>, StoreFailure>) -> (reply:
    Reply)
    requires
        window.per_page >= 1,
    ensures
        match (counted, fetched) {
            (Ok(total), Ok(users)) => reply matches Reply::Listed(list) && list.users@ == users@.map_values(
                |user: User| user.shown(),
            ) && list.total == total && list.page == window.page && list.per_page == window.per_page
                && list.total_pages == crate::models::user::pages_of(total as int, window.per_page as int),
            _ => reply matches Reply::Failure(response) && response.says(store_failed()),
        },
{
    let total = match counted {
        Ok(total) => total,
        Err(_) => {
            return Reply::Failure(internal_server_error("Erro interno do servidor", "DATABASE_ERROR"));
        },
    };
    let users = match fetched {
        Ok(users) => users,
        Err(_) => {
            return Reply::Failure(internal_server_error("Erro interno do servidor", "DATABASE_ERROR"));
        },
    };
    Reply::Listed(
        UserListResponse {
            users: shown_all(users),
            total,
            page: window.page,
            per_page: window.per_page,
            total_pages: total_pages(total, window.per_page),
        },
    )
}

} // verus!
