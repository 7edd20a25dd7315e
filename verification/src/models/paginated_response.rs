use vstd::prelude::*;

verus! {

/// One page of a list endpoint: the total count, links to the neighbouring
/// pages, and the items of this page in order.
#[derive(Debug, Clone, PartialEq, Eq)]
pub struct PaginatedResponse<T> {
    pub count: i32,
    pub next: Option<String>,
    pub previous: Option<String>,
    pub results: Vec<T>,
}

} // verus!
