//! Request and response shapes shared by every operation: the pagination
//! contract, the uniform success envelope, and the member projections.

use vstd::prelude::*;

verus! {

/// A page request: `page_size` bounds the number of returned rows and
/// `offset` is the number of rows skipped before the page starts. Both
/// default to zero, so a caller must supply explicit values to see a
/// non-empty page.
#[derive(Debug)]
pub struct PaginationDTO {
    pub page_size: i32,
    pub offset: i32,
}

impl PaginationDTO {
    /// A request is valid when neither bound is negative.
    pub open spec fn valid(self) -> bool {
        self.page_size >= 0 && self.offset >= 0
    }
}

impl Default for PaginationDTO {
    /// Both bounds default to zero.
    fn default() -> (r: Self)
        ensures
            r.page_size == 0 && r.offset == 0,
    {
        PaginationDTO { page_size: 0, offset: 0 }
    }
}

/// The bounded page that a list operation returns: up to `page_size` rows
/// of `rows`, in order, starting after the first `offset` rows. An offset
/// beyond the end, or a zero page size, gives an empty page.
pub open spec fn page_spec<T>(rows: Seq<T>, page_size: int, offset: int) -> Seq<T>
    recommends
        page_size >= 0,
        offset >= 0,
{
    let start = if offset <= rows.len() {
        offset
    } else {
        rows.len() as int
    };
    let end = if offset + page_size <= rows.len() {
        offset + page_size
    } else {
        rows.len() as int
    };
    if start <= end {
        rows.subrange(start, end)
    } else {
        Seq::empty()
    }
}

/// The page is never longer than the requested page size, and never
/// longer than the table itself.
pub proof fn lemma_page_spec_len<T>(rows: Seq<T>, page_size: int, offset: int)
    requires
        page_size >= 0,
        offset >= 0,
    ensures
        page_spec(rows, page_size, offset).len() <= page_size,
        page_spec(rows, page_size, offset).len() <= rows.len(),
{
}

/// The result of a list operation: the bounded page together with the
/// total number of matching rows, counted independently of the page
/// bounds.
pub struct PaginatedResponseDTO<T> {
    pub paginated_list: Vec<T>,
    pub count: i64,
}

/// The uniform envelope around every successful operation result.
pub struct SuccessResponse<T> {
    pub message: String,
    pub data: T,
}

/// Projection of a member to its name and email.
#[derive(Debug)]
pub struct MemberEmail {
    pub name: String,
    pub email: String,
}

/// Projection of a member to its descriptive fields.
#[derive(Debug)]
pub struct MemberInfo {
    pub name: String,
    pub email: String,
    pub identity_num: String,
    pub role: String,
}

/// Projection of a member to its name alone.
#[derive(Debug)]
pub struct MemberName {
    pub name: String,
}

} // verus!
