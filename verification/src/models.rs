//! The values that requests and responses carry.

pub mod auth;
pub mod user;

pub use auth::{Claims, ClaimsView, InvalidUserId, JwtConfig, TokenError, TokenInfo};
pub use user::{
    total_pages, ChangePasswordRequest, CreateUserRequest, LoginRequest, LoginResponse,
    PageWindow, Timestamp, UpdateUserRequest, User, UserListResponse, UserQueryParams,
    UserResponse, UserRole,
};
