use api_rest_rust::handlers::auth_handler::{
    login, login_at, refresh_token, refresh_token_at, verify_token, LoginOutcome,
};
use api_rest_rust::handlers::user_handler::{
    authorize_change_password, authorize_delete_user, authorize_get_user, authorize_list_users,
    authorize_update_user, change_password_checked, change_password_stored, changes_email,
    current_user_id, delete_user_stored, found_or_answer, list_users_page, may_access,
    register_user_checked, register_user_stored, update_user_email_checked, update_user_merged,
    update_user_stored, user_reply, Access, Reply, StoreFailure,
};
use api_rest_rust::middleware::ErrorResponse;
use api_rest_rust::middleware::auth::GateError;
use api_rest_rust::models::auth::{Claims, JwtConfig, TokenError};
use api_rest_rust::models::user::{
    total_pages, ChangePasswordRequest, CreateUserRequest, PageWindow, Timestamp,
    UpdateUserRequest, User, UserQueryParams, UserResponse, UserRole,
};

const OWNER: u128 = 0xa1a2a3a4b1b2c1c2d1d2d3d4d5d6d7d8;
const OTHER: u128 = 0x550e8400e29b41d4a716446655440000;

fn wall_clock() -> i64 {
    chrono::Utc::now().timestamp()
}

fn claims_of(role: UserRole, iat: i64, exp: i64) -> Claims {
    Claims {
        sub: "a1a2a3a4-b1b2-c1c2-d1d2-d3d4d5d6d7d8".to_string(),
        email: "test@example.com".to_string(),
        nome: "Test User".to_string(),
        role,
        iat,
        exp,
    }
}

fn user_of(role: UserRole) -> User {
    User {
        id: OWNER,
        nome: "Test User".to_string(),
        email: "test@example.com".to_string(),
        senha: "$2b$12$hash".to_string(),
        role,
        created_at: Timestamp { secs: 1_600_000_000, nanos: 123_456_000 },
        updated_at: Timestamp { secs: 1_650_000_000, nanos: 0 },
    }
}

fn config() -> JwtConfig {
    JwtConfig::new("test_secret".to_string(), 3600)
}

fn denied(access: Access) -> (u16, String, String, String) {
    match access {
        Access::Denied(response) => (response.status, response.error, response.message, response.code),
        Access::Granted => panic!("access was granted"),
    }
}

#[test]
fn a_record_is_open_to_its_owner_and_to_administrators() {
    assert!(may_access(&claims_of(UserRole::User, 0, 1), OWNER));
    assert!(!may_access(&claims_of(UserRole::User, 0, 1), OTHER));
    assert!(may_access(&claims_of(UserRole::Admin, 0, 1), OWNER));
    assert!(may_access(&claims_of(UserRole::Admin, 0, 1), OTHER));
}

#[test]
fn a_subject_that_names_nobody_owns_the_nil_record_only() {
    let mut claims = claims_of(UserRole::User, 0, 1);
    claims.sub = "nobody".to_string();
    assert!(may_access(&claims, 0));
    assert!(!may_access(&claims, OWNER));
}

#[test]
fn the_holder_of_a_new_token_owns_the_record_it_was_issued_for() {
    let claims = Claims::new(OTHER, "e".to_string(), "n".to_string(), UserRole::User, 60);
    assert!(may_access(&claims, OTHER));
    assert!(!may_access(&claims, OWNER));
}

#[test]
fn reading_a_record() {
    assert!(authorize_get_user(Some(&claims_of(UserRole::User, 0, 1)), OWNER).is_granted());
    assert!(authorize_get_user(Some(&claims_of(UserRole::Admin, 0, 1)), OTHER).is_granted());
    assert!(authorize_get_user(None, OTHER).is_granted());
    assert_eq!(
        denied(authorize_get_user(Some(&claims_of(UserRole::User, 0, 1)), OTHER)),
        (
            403,
            "Forbidden".to_string(),
            "Acesso negado. Você só pode ver seus próprios dados.".to_string(),
            "ACCESS_DENIED".to_string()
        )
    );
}

#[test]
fn changing_a_record() {
    let user = claims_of(UserRole::User, 0, 1);
    let admin = claims_of(UserRole::Admin, 0, 1);
    assert!(authorize_update_user(Some(&user), OWNER, None).is_granted());
    assert!(authorize_update_user(Some(&user), OWNER, Some(UserRole::User)).is_granted());
    assert!(authorize_update_user(Some(&admin), OTHER, Some(UserRole::Admin)).is_granted());
    assert!(authorize_update_user(None, OTHER, Some(UserRole::Admin)).is_granted());
    assert_eq!(
        denied(authorize_update_user(Some(&user), OTHER, None)),
        (
            403,
            "Forbidden".to_string(),
            "Acesso negado. Você só pode atualizar seus próprios dados.".to_string(),
            "ACCESS_DENIED".to_string()
        )
    );
    assert_eq!(denied(authorize_update_user(Some(&user), OTHER, Some(UserRole::Admin))).3, "ACCESS_DENIED");
    assert_eq!(
        denied(authorize_update_user(Some(&user), OWNER, Some(UserRole::Admin))),
        (
            403,
            "Forbidden".to_string(),
            "Apenas administradores podem alterar roles de usuário.".to_string(),
            "ADMIN_REQUIRED".to_string()
        )
    );
}

#[test]
fn changing_a_password() {
    assert!(authorize_change_password(Some(&claims_of(UserRole::User, 0, 1)), OWNER).is_granted());
    assert!(authorize_change_password(Some(&claims_of(UserRole::Admin, 0, 1)), OTHER).is_granted());
    assert!(authorize_change_password(None, OTHER).is_granted());
    assert_eq!(
        denied(authorize_change_password(Some(&claims_of(UserRole::User, 0, 1)), OTHER)),
        (
            403,
            "Forbidden".to_string(),
            "Acesso negado. Você só pode alterar sua própria senha.".to_string(),
            "ACCESS_DENIED".to_string()
        )
    );
}

#[test]
fn deleting_a_record() {
    assert!(authorize_delete_user(Some(&claims_of(UserRole::Admin, 0, 1))).is_granted());
    assert!(authorize_delete_user(None).is_granted());
    assert_eq!(
        denied(authorize_delete_user(Some(&claims_of(UserRole::User, 0, 1)))),
        (
            403,
            "Forbidden".to_string(),
            "Acesso negado. Apenas administradores podem deletar usuários.".to_string(),
            "ADMIN_REQUIRED".to_string()
        )
    );
}

#[test]
fn listing_the_users() {
    assert!(authorize_list_users(Some(&claims_of(UserRole::Admin, 0, 1))).is_granted());
    assert_eq!(
        denied(authorize_list_users(Some(&claims_of(UserRole::User, 0, 1)))),
        (
            403,
            "Forbidden".to_string(),
            "Acesso negado. Apenas administradores podem listar usuários.".to_string(),
            "ADMIN_REQUIRED".to_string()
        )
    );
    assert_eq!(
        denied(authorize_list_users(None)),
        (401, "Unauthorized".to_string(), "Token JWT não encontrado".to_string(), "TOKEN_MISSING".to_string())
    );
}

#[test]
fn whose_record_me_is() {
    assert_eq!(current_user_id(Some(&claims_of(UserRole::User, 0, 1))).unwrap(), OWNER);
    let mut nameless = claims_of(UserRole::User, 0, 1);
    nameless.sub = "nobody".to_string();
    let response = current_user_id(Some(&nameless)).unwrap_err();
    assert_eq!(
        (response.status, response.error.as_str(), response.message.as_str(), response.code.as_str()),
        (400, "Bad Request", "ID de usuário inválido no token", "INVALID_USER_ID")
    );
    let response = current_user_id(None).unwrap_err();
    assert_eq!(
        (response.status, response.error.as_str(), response.message.as_str(), response.code.as_str()),
        (401, "Unauthorized", "Token JWT não encontrado", "TOKEN_MISSING")
    );
}

#[test]
fn a_user_is_shown_without_the_password() {
    let shown = UserResponse::from(user_of(UserRole::Admin));
    assert_eq!(shown.id, OWNER);
    assert_eq!(shown.nome, "Test User");
    assert_eq!(shown.email, "test@example.com");
    assert_eq!(shown.role, UserRole::Admin);
    assert_eq!(shown.created_at, Timestamp { secs: 1_600_000_000, nanos: 123_456_000 });
    assert_eq!(shown.updated_at, Timestamp { secs: 1_650_000_000, nanos: 0 });
    assert!(!format!("{:?}", shown).contains("$2b$12$hash"));
}

#[test]
fn a_role_and_its_spellings() {
    assert_eq!(UserRole::default(), UserRole::User);
    assert_eq!(UserRole::User.to_string(), "USER");
    assert_eq!(UserRole::Admin.to_string(), "ADMIN");
}

#[test]
fn a_new_user_is_an_ordinary_user_unless_asked_otherwise() {
    let mut request = CreateUserRequest {
        nome: "n".to_string(),
        email: "e".to_string(),
        senha: "s".to_string(),
        role: None,
    };
    assert_eq!(request.role_or_default(), UserRole::User);
    request.role = Some(UserRole::Admin);
    assert_eq!(request.role_or_default(), UserRole::Admin);
}

#[test]
fn a_listing_starts_at_the_first_page_of_ten() {
    let params = UserQueryParams::default();
    assert_eq!(params.page, Some(1));
    assert_eq!(params.per_page, Some(10));
    assert_eq!(params.search, None);
}

#[test]
fn a_login_answers_with_the_user_and_a_token_for_the_user() {
    let config = config();
    let response = login_at(&config, user_of(UserRole::Admin), 1_700_000_000);
    assert_eq!(response.user.id, OWNER);
    assert_eq!(response.user.email, "test@example.com");
    assert_eq!(response.expires_at, 1_700_003_600);
    let claims = Claims::issued_at(
        OWNER,
        "test@example.com".to_string(),
        "Test User".to_string(),
        UserRole::Admin,
        1_700_000_000,
        3600,
    );
    assert_eq!(response.token, config.generate_token(&claims).unwrap());
}

#[test]
fn a_login_against_the_clock() {
    let config = config();
    let mut user = user_of(UserRole::User);
    user.senha = bcrypt::hash("hunter2", 4).unwrap();
    let before = wall_clock();
    let outcome = login(&config, Ok(Some(user)), "hunter2");
    let after = wall_clock();
    assert_eq!(outcome.status(), 200);
    let response = match outcome {
        LoginOutcome::Issued(response) => response,
        other => panic!("no token was issued: {:?}", other),
    };
    assert!(before + 3600 <= response.expires_at && response.expires_at <= after + 3600);
    let claims = verify_token(&config, &response.token).unwrap();
    assert_eq!(claims.sub, "a1a2a3a4-b1b2-c1c2-d1d2-d3d4d5d6d7d8");
    assert_eq!(claims.email, "test@example.com");
    assert_eq!(claims.nome, "Test User");
    assert_eq!(claims.role, UserRole::User);
    assert_eq!(claims.exp, response.expires_at);
    assert_eq!(claims.iat, claims.exp - 3600);
}

#[test]
fn the_verification_endpoint_tells_expired_from_invalid() {
    let config = config();
    let now = wall_clock();
    let expired = config.generate_token(&claims_of(UserRole::User, now - 10, now - 1)).unwrap();
    assert_eq!(verify_token(&config, &expired).unwrap_err(), GateError::TokenExpired);
    assert_eq!(verify_token(&config, "no token").unwrap_err(), GateError::TokenMalformed);
    let foreign = JwtConfig::new("other".to_string(), 60)
        .generate_token(&claims_of(UserRole::User, now, now + 60))
        .unwrap();
    assert_eq!(verify_token(&config, &foreign).unwrap_err(), GateError::TokenBadSignature);
}

#[test]
fn a_refresh_gives_a_token_for_the_same_user_from_now() {
    let config = config();
    let old = claims_of(UserRole::Admin, 1_000, 2_000);
    let refreshed = refresh_token_at(&config, Ok(claims_of(UserRole::Admin, 1_000, 2_000)), 1_500).unwrap();
    assert_eq!(refreshed.expires_at, 5_100);
    let expected = Claims { iat: 1_500, exp: 5_100, ..old };
    assert_eq!(refreshed.token, config.generate_token(&expected).unwrap());
}

#[test]
fn a_refresh_of_what_is_expired_or_not_accepted_is_denied() {
    let config = config();
    let expired = refresh_token_at(&config, Ok(claims_of(UserRole::User, 1_000, 2_000)), 2_001);
    assert_eq!(expired.unwrap_err(), GateError::TokenExpired);
    let at_the_last_second = refresh_token_at(&config, Ok(claims_of(UserRole::User, 1_000, 2_000)), 2_000);
    assert_eq!(at_the_last_second.unwrap().expires_at, 5_600);
    assert_eq!(refresh_token_at(&config, Err(TokenError::Malformed), 0).unwrap_err(), GateError::TokenMalformed);
    assert_eq!(
        refresh_token_at(&config, Err(TokenError::BadSignature), 0).unwrap_err(),
        GateError::TokenBadSignature
    );
    assert_eq!(refresh_token_at(&config, Err(TokenError::Expired), 0).unwrap_err(), GateError::TokenExpired);
}

#[test]
fn a_refresh_against_the_clock_keeps_the_user_and_moves_the_times() {
    let config = config();
    let now = wall_clock();
    let old = claims_of(UserRole::Admin, now - 100, now + 100);
    let token = config.generate_token(&old).unwrap();
    let refreshed = refresh_token(&config, &token).unwrap();
    let fresh = config.verify_token(&refreshed.token).unwrap();
    assert_eq!(fresh.sub, old.sub);
    assert_eq!(fresh.email, old.email);
    assert_eq!(fresh.nome, old.nome);
    assert_eq!(fresh.role, old.role);
    assert!(fresh.iat > old.iat);
    assert_eq!(fresh.exp, fresh.iat + 3600);
    assert_eq!(refreshed.expires_at, fresh.exp);

    let again = refresh_token(&config, &refreshed.token).unwrap();
    assert_eq!(config.verify_token(&again.token).unwrap().sub, old.sub);
}

#[test]
fn a_refresh_of_a_token_expired_a_second_ago_is_denied() {
    let config = config();
    let now = wall_clock();
    let token = config.generate_token(&claims_of(UserRole::User, now - 10, now - 1)).unwrap();
    assert_eq!(refresh_token(&config, &token).unwrap_err(), GateError::TokenExpired);
    assert_eq!(refresh_token(&config, "no token").unwrap_err(), GateError::TokenMalformed);
}

#[test]
fn a_login_without_valid_credentials_issues_nothing() {
    let config = config();
    let unknown = login(&config, Ok(None), "hunter2");
    assert!(matches!(unknown, LoginOutcome::InvalidCredentials));
    assert_eq!(unknown.status(), 401);

    let mut user = user_of(UserRole::Admin);
    user.senha = bcrypt::hash("hunter2", 4).unwrap();
    let wrong = login(&config, Ok(Some(user)), "hunter3");
    assert!(matches!(wrong, LoginOutcome::InvalidCredentials));
    assert_eq!(wrong.status(), 401);
}

#[test]
fn a_login_that_the_store_or_the_hasher_fails_issues_nothing() {
    let config = config();
    let failed = login(&config, Err(StoreFailure), "hunter2");
    assert!(matches!(failed, LoginOutcome::Failed));
    assert_eq!(failed.status(), 500);

    let mut user = user_of(UserRole::Admin);
    user.senha = "hunter2".to_string();
    assert!(matches!(login(&config, Ok(Some(user)), "hunter2"), LoginOutcome::Failed));
}

fn body(response: &ErrorResponse) -> (u16, &str, &str, &str) {
    (response.status, response.error.as_str(), response.message.as_str(), response.code.as_str())
}

fn failure(reply: Reply) -> ErrorResponse {
    match reply {
        Reply::Failure(response) => response,
        other => panic!("no failure: {:?}", other),
    }
}

const STORE_FAILED: (u16, &str, &str, &str) =
    (500, "Internal Server Error", "Erro interno do servidor", "DATABASE_ERROR");
const NOT_FOUND: (u16, &str, &str, &str) = (404, "Not Found", "Usuário não encontrado", "USER_NOT_FOUND");

#[test]
fn what_the_store_found_or_the_answer() {
    assert_eq!(found_or_answer(Ok(Some(user_of(UserRole::User)))).unwrap().id, OWNER);
    assert_eq!(body(&found_or_answer(Ok(None)).unwrap_err()), NOT_FOUND);
    assert_eq!(body(&found_or_answer(Err(StoreFailure)).unwrap_err()), STORE_FAILED);
}

#[test]
fn the_answer_to_a_request_for_one_user() {
    let reply = user_reply(Ok(Some(user_of(UserRole::Admin))));
    assert_eq!(reply.status(), 200);
    match reply {
        Reply::Found(user) => {
            assert_eq!((user.id, user.role), (OWNER, UserRole::Admin));
            assert_eq!(user.email, "test@example.com");
        }
        other => panic!("no user: {:?}", other),
    }
    let missing = user_reply(Ok(None));
    assert_eq!(missing.status(), 404);
    assert_eq!(body(&failure(missing)), NOT_FOUND);
    let failed = user_reply(Err(StoreFailure));
    assert_eq!(failed.status(), 500);
    assert_eq!(body(&failure(failed)), STORE_FAILED);
}

fn newcomer(role: Option<UserRole>) -> CreateUserRequest {
    CreateUserRequest {
        nome: "New User".to_string(),
        email: "new@example.com".to_string(),
        senha: "correct horse".to_string(),
        role,
    }
}

#[test]
fn a_registration_with_a_free_email_makes_a_record() {
    let before = wall_clock();
    let user = register_user_checked(Ok(None), newcomer(None)).unwrap();
    let after = wall_clock();
    assert_eq!(user.nome, "New User");
    assert_eq!(user.email, "new@example.com");
    assert_eq!(user.role, UserRole::User);
    assert_ne!(user.senha, "correct horse");
    assert!(bcrypt::verify("correct horse", &user.senha).unwrap());
    assert!(!bcrypt::verify("wrong horse", &user.senha).unwrap());
    assert_eq!(user.created_at, user.updated_at);
    assert!(before <= user.created_at.secs && user.created_at.secs <= after);
    assert!(user.created_at.nanos < 2_000_000_000);
    assert_eq!(uuid::Uuid::from_u128(user.id).get_version_num(), 4);
}

#[test]
fn a_registration_keeps_the_role_asked_for_and_draws_a_new_identifier() {
    let first = register_user_checked(Ok(None), newcomer(Some(UserRole::Admin))).unwrap();
    assert_eq!(first.role, UserRole::Admin);
    let second = register_user_checked(Ok(None), newcomer(Some(UserRole::User))).unwrap();
    assert_eq!(second.role, UserRole::User);
    assert_ne!(first.id, second.id);
    assert_ne!(first.senha, second.senha);
}

#[test]
fn a_registration_with_a_taken_email_or_a_failing_store() {
    let taken = register_user_checked(Ok(Some(user_of(UserRole::User))), newcomer(None)).unwrap_err();
    assert_eq!(body(&taken), (400, "Bad Request", "Email já está em uso", "EMAIL_ALREADY_EXISTS"));
    let failed = register_user_checked(Err(StoreFailure), newcomer(None)).unwrap_err();
    assert_eq!(body(&failed), STORE_FAILED);
}

#[test]
fn a_registration_once_stored() {
    let reply = register_user_stored(Ok(user_of(UserRole::User)));
    assert_eq!(reply.status(), 201);
    match reply {
        Reply::Created { message, user } => {
            assert_eq!(message, "Usuário criado com sucesso");
            assert_eq!(user.id, OWNER);
        }
        other => panic!("not created: {:?}", other),
    }
    assert_eq!(
        body(&failure(register_user_stored(Err(StoreFailure)))),
        (500, "Internal Server Error", "Erro ao criar usuário", "USER_CREATION_ERROR")
    );
}

fn update(nome: Option<&str>, email: Option<&str>, senha: Option<&str>, role: Option<UserRole>) -> UpdateUserRequest {
    UpdateUserRequest {
        nome: nome.map(str::to_string),
        email: email.map(str::to_string),
        senha: senha.map(str::to_string),
        role,
    }
}

#[test]
fn an_update_asks_for_the_email_only_where_it_changes() {
    let current = user_of(UserRole::User);
    assert!(!changes_email(&update(None, None, None, None), &current));
    assert!(!changes_email(&update(None, Some("test@example.com"), None, None), &current));
    assert!(changes_email(&update(None, Some("other@example.com"), None, None), &current));
}

#[test]
fn an_update_to_an_email_that_is_taken() {
    assert!(update_user_email_checked(Ok(None)).is_none());
    assert_eq!(
        body(&update_user_email_checked(Ok(Some(user_of(UserRole::User)))).unwrap()),
        (400, "Bad Request", "Email já está em uso por outro usuário", "EMAIL_ALREADY_EXISTS")
    );
    assert_eq!(body(&update_user_email_checked(Err(StoreFailure)).unwrap()), STORE_FAILED);
}

#[test]
fn an_update_changes_what_it_names_and_nothing_else() {
    let before = wall_clock();
    let same = update_user_merged(update(None, None, None, None), user_of(UserRole::User)).unwrap();
    assert_eq!((same.id, same.nome.as_str(), same.email.as_str()), (OWNER, "Test User", "test@example.com"));
    assert_eq!((same.senha.as_str(), same.role), ("$2b$12$hash", UserRole::User));
    assert_eq!(same.created_at, Timestamp { secs: 1_600_000_000, nanos: 123_456_000 });
    assert!(same.updated_at.secs >= before);

    let changed = update_user_merged(
        update(Some("Other"), Some("other@example.com"), None, Some(UserRole::Admin)),
        user_of(UserRole::User),
    )
    .unwrap();
    assert_eq!((changed.id, changed.nome.as_str(), changed.email.as_str()), (OWNER, "Other", "other@example.com"));
    assert_eq!((changed.senha.as_str(), changed.role), ("$2b$12$hash", UserRole::Admin));
}

#[test]
fn an_update_hashes_a_new_password() {
    let changed = update_user_merged(update(None, None, Some("new secret"), None), user_of(UserRole::User)).unwrap();
    assert_ne!(changed.senha, "new secret");
    assert_ne!(changed.senha, "$2b$12$hash");
    assert!(bcrypt::verify("new secret", &changed.senha).unwrap());
    assert_eq!(changed.nome, "Test User");
}

#[test]
fn an_update_once_stored() {
    let reply = update_user_stored(Ok(user_of(UserRole::Admin)));
    assert_eq!(reply.status(), 200);
    match reply {
        Reply::Updated { message, user } => {
            assert_eq!(message, "Usuário atualizado com sucesso");
            assert_eq!((user.id, user.role), (OWNER, UserRole::Admin));
        }
        other => panic!("not updated: {:?}", other),
    }
    assert_eq!(
        body(&failure(update_user_stored(Err(StoreFailure)))),
        (500, "Internal Server Error", "Erro ao atualizar usuário", "DATABASE_ERROR")
    );
}

fn passwords(current: &str, new: &str) -> ChangePasswordRequest {
    ChangePasswordRequest { senha_atual: current.to_string(), senha_nova: new.to_string() }
}

#[test]
fn a_change_of_password_asks_for_the_current_one() {
    let mut user = user_of(UserRole::User);
    user.senha = bcrypt::hash("old secret", 4).unwrap();
    let hash = change_password_checked(Ok(Some(user)), &passwords("old secret", "new secret")).unwrap();
    assert!(bcrypt::verify("new secret", &hash).unwrap());
    assert!(!bcrypt::verify("old secret", &hash).unwrap());

    let mut user = user_of(UserRole::User);
    user.senha = bcrypt::hash("old secret", 4).unwrap();
    let wrong = change_password_checked(Ok(Some(user)), &passwords("guess", "new secret")).unwrap_err();
    assert_eq!(body(&wrong), (400, "Bad Request", "Senha atual incorreta", "INVALID_PASSWORD"));
}

#[test]
fn a_change_of_password_that_cannot_be_checked() {
    let unreadable = change_password_checked(Ok(Some(user_of(UserRole::User))), &passwords("a", "b")).unwrap_err();
    assert_eq!(
        body(&unreadable),
        (500, "Internal Server Error", "Erro interno do servidor", "PASSWORD_VERIFICATION_ERROR")
    );
    assert_eq!(body(&change_password_checked(Ok(None), &passwords("a", "b")).unwrap_err()), NOT_FOUND);
    assert_eq!(body(&change_password_checked(Err(StoreFailure), &passwords("a", "b")).unwrap_err()), STORE_FAILED);
}

#[test]
fn a_change_of_password_and_a_deletion_once_stored() {
    match change_password_stored(Ok(())) {
        Reply::Done { message } => assert_eq!(message, "Senha alterada com sucesso"),
        other => panic!("not done: {:?}", other),
    }
    assert_eq!(
        body(&failure(change_password_stored(Err(StoreFailure)))),
        (500, "Internal Server Error", "Erro ao alterar senha", "DATABASE_ERROR")
    );
    let deleted = delete_user_stored(Ok(()));
    assert_eq!(deleted.status(), 200);
    match deleted {
        Reply::Done { message } => assert_eq!(message, "Usuário deletado com sucesso"),
        other => panic!("not done: {:?}", other),
    }
    assert_eq!(
        body(&failure(delete_user_stored(Err(StoreFailure)))),
        (500, "Internal Server Error", "Erro ao deletar usuário", "DATABASE_ERROR")
    );
}

#[test]
fn a_page_of_the_listing() {
    let window = PageWindow { page: 2, per_page: 2, offset: 2 };
    let mut second = user_of(UserRole::Admin);
    second.id = OTHER;
    let reply = list_users_page(window, Ok(5), Ok(vec![user_of(UserRole::User), second]));
    assert_eq!(reply.status(), 200);
    match reply {
        Reply::Listed(list) => {
            assert_eq!((list.total, list.page, list.per_page, list.total_pages), (5, 2, 2, 3));
            assert_eq!(list.users.len(), 2);
            assert_eq!((list.users[0].id, list.users[0].role), (OWNER, UserRole::User));
            assert_eq!((list.users[1].id, list.users[1].role), (OTHER, UserRole::Admin));
        }
        other => panic!("no page: {:?}", other),
    }
    match list_users_page(window, Ok(0), Ok(vec![])) {
        Reply::Listed(list) => assert_eq!((list.users.len(), list.total_pages), (0, 0)),
        other => panic!("no page: {:?}", other),
    }
    assert_eq!(body(&failure(list_users_page(window, Err(StoreFailure), Ok(vec![])))), STORE_FAILED);
    assert_eq!(body(&failure(list_users_page(window, Ok(5), Err(StoreFailure)))), STORE_FAILED);
}

fn query(page: Option<i64>, per_page: Option<i64>) -> UserQueryParams {
    UserQueryParams { page, per_page, search: None }
}

#[test]
fn the_window_of_a_listing() {
    assert_eq!(query(None, None).window(), PageWindow { page: 1, per_page: 10, offset: 0 });
    assert_eq!(UserQueryParams::default().window(), PageWindow { page: 1, per_page: 10, offset: 0 });
    assert_eq!(query(Some(3), Some(25)).window(), PageWindow { page: 3, per_page: 25, offset: 50 });
    assert_eq!(query(Some(0), Some(0)).window(), PageWindow { page: 1, per_page: 1, offset: 0 });
    assert_eq!(query(Some(-4), Some(-9)).window(), PageWindow { page: 1, per_page: 1, offset: 0 });
    assert_eq!(query(Some(2), Some(1000)).window(), PageWindow { page: 2, per_page: 100, offset: 100 });
    assert_eq!(query(Some(7), Some(100)).window(), PageWindow { page: 7, per_page: 100, offset: 600 });
}

#[test]
fn a_page_beyond_what_can_be_counted_is_out_of_reach() {
    assert!(query(None, None).is_in_reach());
    assert!(query(Some(i64::MAX), Some(1)).is_in_reach());
    assert_eq!(query(Some(i64::MAX), Some(1)).window().offset, i64::MAX - 1);
    assert!(!query(Some(i64::MAX), Some(2)).is_in_reach());
    assert!(!query(Some(i64::MAX), None).is_in_reach());
    assert!(query(Some(i64::MAX / 100), Some(100)).is_in_reach());
    assert!(query(Some(i64::MAX / 100 + 1), Some(100)).is_in_reach());
    assert!(!query(Some(i64::MAX / 100 + 2), Some(100)).is_in_reach());
    assert_eq!(query(Some(1), Some(7)).page_size(), 7);
    assert_eq!(query(Some(5), Some(7)).page_number(), 5);
}

#[test]
fn the_pages_of_a_listing() {
    assert_eq!(total_pages(0, 10), 0);
    assert_eq!(total_pages(1, 10), 1);
    assert_eq!(total_pages(10, 10), 1);
    assert_eq!(total_pages(11, 10), 2);
    assert_eq!(total_pages(95, 10), 10);
    assert_eq!(total_pages(100, 100), 1);
    assert_eq!(total_pages(101, 100), 2);
    assert_eq!(total_pages(7, 1), 7);
    assert_eq!(total_pages(i64::MAX, 1), i64::MAX);
    assert_eq!(total_pages(i64::MAX, 100), i64::MAX / 100 + 1);
}
