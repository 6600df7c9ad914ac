use vstd::prelude::*;

verus! {

/// An empty answer.
#[derive(Clone, Copy, Debug, PartialEq, Eq, Structural)]
pub struct EmptyRes {}

/// A slice of a listing: by limit and offset, or by page.
#[derive(Clone, Copy, Debug, PartialEq, Eq, Structural)]
pub struct Slice {
    pub limit: Option<ByLimit>,
    pub page: Option<ByPage>,
}

/// At most `limit` items, after skipping `offset`.
#[derive(Clone, Copy, Debug, PartialEq, Eq, Structural)]
pub struct ByLimit {
    pub limit: i32,
    pub offset: i32,
}

/// The page `page` of pages of `per_page` items.
#[derive(Clone, Copy, Debug, PartialEq, Eq, Structural)]
pub struct ByPage {
    pub page: i32,
    pub per_page: i32,
}

} // verus!
