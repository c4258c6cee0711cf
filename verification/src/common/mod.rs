//! Types shared by the commands: the application error and the shapes of
//! the answers sent to the front end.

pub mod error;
pub mod pages;
pub mod types;

pub use error::{AppError, AppResult, ErrorKind};
pub use types::{ApiResponse, PaginatedResponse, PaginationParams, SortOrder};
