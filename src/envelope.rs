//! The two shapes in which the API wraps every structured answer.
use vstd::prelude::*;

verus! {

/// `{ "data": ... }`.
#[derive(Clone, Debug)]
pub struct ReturnedData<Type> {
    pub data: Type,
}

/// Where a page stands among all pages of a listing.
#[derive(Clone, Copy, Debug, PartialEq, Eq, Structural)]
pub struct Pagination {
    pub current_page: u64,
    pub next_page: u64,
    pub previous_page: u64,
    pub page_size: u64,
    pub total_pages: u64,
    pub total_entries: u64,
}

/// `{ "data": ..., "pagination": { ... } }`.
#[derive(Clone, Debug)]
pub struct PaginatedData<Type> {
    pub data: Type,
    pub pagination: Pagination,
}

impl<Type> ReturnedData<Type> {
    pub fn new(data: Type) -> (r: ReturnedData<Type>)
        ensures
            r.data == data,
    {
        ReturnedData { data }
    }

    /// The content, without its envelope.
    pub fn into_data(self) -> (r: Type)
        ensures
            r == self.data,
    {
        self.data
    }
}

impl<Type> PaginatedData<Type> {
    pub fn new(data: Type, pagination: Pagination) -> (r: PaginatedData<Type>)
        ensures
            r.data == data,
            r.pagination == pagination,
    {
        PaginatedData { data, pagination }
    }

    /// The content, without its envelope.
    pub fn into_data(self) -> (r: Type)
        ensures
            r == self.data,
    {
        self.data
    }
}

} // verus!
