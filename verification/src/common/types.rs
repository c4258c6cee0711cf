//! The shapes of the answers sent to the front end.

use vstd::prelude::*;

use crate::common::pages::{count_pages, page_count};

verus! {

/// An answer to the front end: the data on success, the error otherwise.
#[derive(Debug, PartialEq, Eq)]
pub struct ApiResponse<T> {
    pub success: bool,
    pub data: Option<T>,
    pub error: Option<String>,
    pub message: Option<String>,
}

impl<T> ApiResponse<T> {
    /// A success that carries `data`.
    pub fn success(data: T) -> (response: Self)
        ensures
            response.success,
            response.data == Some(data),
            response.error is None,
            response.message is None,
    {
        ApiResponse { success: true, data: Some(data), error: None, message: None }
    }

    /// A success that carries `data` and a message for the user.
    pub fn success_with_message(data: T, message: &str) -> (response: Self)
        ensures
            response.success,
            response.data == Some(data),
            response.error is None,
            response.message matches Some(text) && text@ == message@,
    {
        ApiResponse {
            success: true,
            data: Some(data),
            error: None,
            message: Some(message.to_string()),
        }
    }

    /// A failure that carries the error's text and no data.
    pub fn error(error: &str) -> (response: Self)
        ensures
            !response.success,
            response.data is None,
            response.error matches Some(text) && text@ == error@,
            response.message is None,
    {
        ApiResponse { success: false, data: None, error: Some(error.to_string()), message: None }
    }
}

/// One page of a list, with what the front end needs to page through it.
#[derive(Debug, PartialEq, Eq)]
pub struct PaginatedResponse<T> {
    pub data: Vec<T>,
    pub total: u64,
    pub page: u32,
    pub page_size: u32,
    pub total_pages: u32,
    pub has_next: bool,
    pub has_previous: bool,
}

impl<T> PaginatedResponse<T> {
    /// The page `page` of a list of `total` items: there is a next page while
    /// `page` is below the number of pages, and a previous one from the
    /// second page on.
    pub fn new(data: Vec<T>, total: u64, page: u32, page_size: u32) -> (response: Self)
        ensures
            response.data == data,
            response.total == total,
            response.page == page,
            response.page_size == page_size,
            response.total_pages == page_count(total, page_size),
            response.has_next == (page < page_count(total, page_size)),
            response.has_previous == (page > 1),
    {
        let total_pages = count_pages(total, page_size);
        PaginatedResponse {
            data,
            total,
            page,
            page_size,
            total_pages,
            has_next: page < total_pages,
            has_previous: page > 1,
        }
    }
}

/// The order of a sorted list.
#[derive(Debug, Clone, Copy, PartialEq, Eq, Structural)]
pub enum SortOrder {
    Asc,
    Desc,
}

/// What a caller asks of a list endpoint.
#[derive(Debug, PartialEq, Eq)]
pub struct PaginationParams {
    pub page: Option<u32>,
    pub page_size: Option<u32>,
    pub sort_by: Option<String>,
    pub sort_order: Option<SortOrder>,
}

impl Default for PaginationParams {
    fn default() -> (params: Self)
        ensures
            params.page == Some(1u32),
            params.page_size == Some(20u32),
            params.sort_by is None,
            params.sort_order is None,
    {
        PaginationParams { page: Some(1), page_size: Some(20), sort_by: None, sort_order: None }
    }
}

} // verus!
