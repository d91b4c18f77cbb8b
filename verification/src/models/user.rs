//! Users, their roles, and the bodies of the requests that manage them.

use vstd::prelude::*;

verus! {

/// What a user may do: an ordinary user acts on their own record, an
/// administrator on any.
#[derive(Debug, Clone, Copy, PartialEq, Eq, Structural)]
pub enum UserRole {
    User,
    Admin,
}

impl Default for UserRole {
    fn default() -> (role: Self)
        ensures
            role == UserRole::User,
    {
        UserRole::User
    }
}

impl UserRole {
    /// The role as the user store spells it.
    pub open spec fn label(self) -> Seq<char> {
        match self {
            UserRole::User => "USER"@,
            UserRole::Admin => "ADMIN"@,
        }
    }

    /// The role as a token spells it.
    pub open spec fn claim_text(self) -> Seq<char> {
        match self {
            UserRole::User => "User"@,
            UserRole::Admin => "Admin"@,
        }
    }

    /// The role that a token means by `text`, if it means one.
    pub open spec fn of_claim_text(text: Seq<char>) -> Option<UserRole> {
        if text == "User"@ {
            Some(UserRole::User)
        } else if text == "Admin"@ {
            Some(UserRole::Admin)
        } else {
            None
        }
    }

    /// The two spellings of a token differ, so each role is read back from
    /// its own.
    pub proof fn lemma_claim_text_round_trip(self)
        ensures
            UserRole::of_claim_text(self.claim_text()) == Some(self),
    {
        reveal_strlit("User");
        reveal_strlit("Admin");
        assert("Admin"@.len() != "User"@.len());
    }

    /// The role as the user store spells it: `USER` or `ADMIN`.
    pub fn to_string(&self) -> (text: String)
        ensures
            text@ == self.label(),
    {
        match self {
            UserRole::User => "USER".to_owned(),
            UserRole::Admin => "ADMIN".to_owned(),
        }
    }

    /// The role as a token spells it: `User` or `Admin`.
    pub fn as_claim(&self) -> (text: &'static str)
        ensures
            text@ == self.claim_text(),
    {
        match self {
            UserRole::User => "User",
            UserRole::Admin => "Admin",
        }
    }

    /// Reads a role as a token spells it.
    pub fn from_claim(text: &str) -> (role: Option<UserRole>)
        ensures
            role == UserRole::of_claim_text(text@),
    {
        let owned = text.to_owned();
        if owned == "User".to_owned() {
            Some(UserRole::User)
        } else if owned == "Admin".to_owned() {
            Some(UserRole::Admin)
        } else {
            None
        }
    }
}


/// A point in time: seconds since the Unix epoch, and the nanoseconds into
/// that second.
#[derive(Debug, Clone, Copy, PartialEq, Eq, Structural)]
pub struct Timestamp {
    pub secs: i64,
    pub nanos: u32,
}

/// A user as the store holds it.
#[derive(Debug)]
pub struct User {
    pub id: u128,
    pub nome: String,
    pub email: String,
    /// The hash of the password.
    pub senha: String,
    pub role: UserRole,
    pub created_at: Timestamp,
    pub updated_at: Timestamp,
}

#[derive(Debug)]
pub struct CreateUserRequest {
    pub nome: String,
    pub email: String,
    pub senha: String,
    pub role: Option<UserRole>,
}

#[derive(Debug)]
pub struct UpdateUserRequest {
    pub nome: Option<String>,
    pub email: Option<String>,
    pub senha: Option<String>,
    pub role: Option<UserRole>,
}

#[derive(Debug)]
pub struct ChangePasswordRequest {
    pub senha_atual: String,
    pub senha_nova: String,
}

#[derive(Debug)]
pub struct LoginRequest {
    pub email: String,
    pub senha: String,
}

/// A user as responses show it: all of the record but the password.
#[derive(Debug)]
pub struct UserResponse {
    pub id: u128,
    pub nome: String,
    pub email: String,
    pub role: UserRole,
    pub created_at: Timestamp,
    pub updated_at: Timestamp,
}

#[derive(Debug)]
pub struct LoginResponse {
    pub user: UserResponse,
    pub token: String,
    /// When the token expires, in seconds since the Unix epoch.
    pub expires_at: i64,
}

#[derive(Debug)]
pub struct UserListResponse {
    pub users: Vec<UserResponse>,
    pub total: i64,
    pub page: i64,
    pub per_page: i64,
    pub total_pages: i64,
}

#[derive(Debug)]
pub struct UserQueryParams {
    pub page: Option<i64>,
    pub per_page: Option<i64>,
    pub search: Option<String>,
}

impl Default for UserQueryParams {
    fn default() -> (params: Self)
        ensures
            params.page == Some(1i64),
            params.per_page == Some(10i64),
            params.search is None,
    {
        Self { page: Some(1), per_page: Some(10), search: None }
    }
}

impl From<User> for UserResponse {
    fn from(user: User) -> (response: Self) {
        let User { id, nome, email, senha: _, role, created_at, updated_at } = user;
        UserResponse { id, nome, email, role, created_at, updated_at }
    }
}

impl vstd::std_specs::convert::FromSpecImpl<User> for UserResponse {
    open spec fn obeys_from_spec() -> bool {
        true
    }

    open spec fn from_spec(user: User) -> Self {
        user.shown()
    }
}

impl User {
    /// The user as responses show it.
    pub open spec fn shown(self) -> UserResponse {
        UserResponse {
            id: self.id,
            nome: self.nome,
            email: self.email,
            role: self.role,
            created_at: self.created_at,
            updated_at: self.updated_at,
        }
    }
}

/// The part of a listing that one page shows.
#[derive(Debug, Clone, Copy, PartialEq, Eq, Structural)]
pub struct PageWindow {
    /// The page, counted from one.
    pub page: i64,
    /// How many users a page shows: one to a hundred.
    pub per_page: i64,
    /// How many users stand before the page.
    pub offset: i64,
}

/// The page that a query asks for: the first where it names none or one
/// before the first.
pub open spec fn page_of(page: Option<i64>) -> int {
    match page {
        Some(asked) if asked >= 1 => asked as int,
        _ => 1,
    }
}

/// The page size that a query asks for: ten where it names none, and held
/// between one and a hundred.
pub open spec fn per_page_of(per_page: Option<i64>) -> int {
    match per_page {
        Some(asked) => if asked > 100 {
            100
        } else if asked < 1 {
            1
        } else {
            asked as int
        },
        None => 10,
    }
}

/// How many pages a listing of `total` users has: the least number of pages
/// of `per_page` that hold them all.
pub open spec fn pages_of(total: int, per_page: int) -> int {
    (total + per_page - 1) / per_page
}

/// The pages of a count that is not negative: the whole pages, and one more
/// for a rest.
proof fn lemma_pages(total: int, per_page: int)
    by (nonlinear_arith)
    requires
        total >= 0,
        per_page >= 1,
    ensures
        total == (total / per_page) * per_page + total % per_page,
        0 <= total % per_page < per_page,
        total / per_page + total % per_page <= total,
        total % per_page == 0 ==> pages_of(total, per_page) == total / per_page,
        total % per_page != 0 ==> pages_of(total, per_page) == total / per_page + 1,
{
}

/// The pages of a count below zero, by the count `below` of how far below
/// minus one it lies.
proof fn lemma_pages_below_zero(below: int, per_page: int)
    by (nonlinear_arith)
    requires
        below >= 0,
        per_page >= 1,
    ensures
        0 <= below / per_page <= below,
        0 <= below % per_page < per_page,
        below % per_page + 1 == per_page ==> pages_of(-below - 1, per_page) == -(below / per_page) - 1,
        below % per_page + 1 != per_page ==> pages_of(-below - 1, per_page) == -(below / per_page),
{
}

/// A product with a positive factor fits under a bound exactly when the
/// other factor fits under the bound divided.
proof fn lemma_product_fits(count: int, size: int, bound: int)
    by (nonlinear_arith)
    requires
        count >= 0,
        size >= 1,
        bound >= 0,
    ensures
        count * size <= bound <==> count <= bound / size,
{
}

/// How many pages a listing of `total` users has at `per_page` users a page.
pub fn total_pages(total: i64, per_page: i64) -> (pages: i64)
    requires
        per_page >= 1,
    ensures
        pages == pages_of(total as int, per_page as int),
        (pages - 1) * per_page < total <= pages * per_page,
{
    let pages = if total >= 0 {
        proof {
            lemma_pages(total as int, per_page as int);
        }
        let full = total / per_page;
        if total % per_page == 0 {
            full
        } else {
            full + 1
        }
    } else {
        let below = -(total + 1);
        proof {
            lemma_pages_below_zero(below as int, per_page as int);
        }
        let full = below / per_page;
        if below % per_page + 1 == per_page {
            -full - 1
        } else {
            -full
        }
    };
    assert((pages - 1) * per_page < total <= pages * per_page) by (nonlinear_arith)
        requires
            per_page >= 1,
            pages == (total + per_page - 1) / (per_page as int),
    ;
    pages
}

impl UserQueryParams {
    /// Whether the page asked for can be shown: the count of the users
    /// before it fits in 64 signed bits.
    pub open spec fn in_reach(&self) -> bool {
        (page_of(self.page) - 1) * per_page_of(self.per_page) <= i64::MAX
    }

    #[verifier::when_used_as_spec(in_reach)]
    pub fn is_in_reach(&self) -> (ok: bool)
        ensures
            ok == self.in_reach(),
    {
        let page = self.page_number();
        let per_page = self.page_size();
        proof {
            lemma_product_fits(page - 1, per_page as int, i64::MAX as int);
        }
        page - 1 <= i64::MAX / per_page
    }

    /// The page asked for: the first where the query names none or one
    /// before the first.
    pub fn page_number(&self) -> (page: i64)
        ensures
            page == page_of(self.page),
            page >= 1,
    {
        match self.page {
            Some(asked) if asked >= 1 => asked,
            _ => 1,
        }
    }

    /// The page size asked for, held between one and a hundred.
    pub fn page_size(&self) -> (per_page: i64)
        ensures
            per_page == per_page_of(self.per_page),
            1 <= per_page <= 100,
    {
        match self.per_page {
            Some(asked) => if asked > 100 {
                100
            } else if asked < 1 {
                1
            } else {
                asked
            },
            None => 10,
        }
    }

    /// The part of the listing that the query asks for.
    pub fn window(&self) -> (window: PageWindow)
        requires
            self.in_reach(),
        ensures
            window.page == page_of(self.page),
            window.per_page == per_page_of(self.per_page),
            window.offset == (window.page - 1) * window.per_page,
    {
        let page = self.page_number();
        let per_page = self.page_size();
        assert(0 <= (page - 1) * per_page) by (nonlinear_arith)
            requires
                page >= 1,
                per_page >= 1,
        ;
        PageWindow { page, per_page, offset: (page - 1) * per_page }
    }
}

impl CreateUserRequest {
    /// The role of the user to create: the one asked for, or an ordinary
    /// user where none is.
    pub fn role_or_default(&self) -> (role: UserRole)
        ensures
            role == match self.role {
                Some(asked) => asked,
                None => UserRole::User,
            },
    {
        match self.role {
            Some(asked) => asked,
            None => UserRole::User,
        }
    }
}

} // verus!
