use crate::entity::{records, AdminEntity, Records};
use vstd::prelude::*;

verus! {

/// The part of a listing that a caller asks for: `limit` entries from place
/// `offset` on.
#[derive(Clone, Copy, Debug, PartialEq, Eq, Structural)]
pub struct Pagination {
    pub offset: u32,
    pub limit: u32,
}

/// A page of entities, and the number of all entities that the page is taken from.
pub type Listing = (Vec<AdminEntity>, usize);

/// Where a page starts within `len` entries: at the offset, or at the end where
/// the offset lies beyond it.
pub open spec fn page_start(len: nat, options: Option<Pagination>) -> int {
    match options {
        None => 0,
        Some(p) => if p.offset <= len {
            p.offset as int
        } else {
            len as int
        },
    }
}

/// Where a page ends within `len` entries: `limit` entries after its start, or at
/// the end where fewer are left.
pub open spec fn page_end(len: nat, options: Option<Pagination>) -> int {
    match options {
        None => len as int,
        Some(p) => if page_start(len, options) + p.limit <= len {
            page_start(len, options) + p.limit
        } else {
            len as int
        },
    }
}

/// The page of `items` that `options` ask for; all of them where they ask for
/// none.
pub open spec fn page_of(items: Records, options: Option<Pagination>) -> Records {
    items.subrange(page_start(items.len(), options), page_end(items.len(), options))
}

/// The page of `items` that `options` ask for, and the number of all items.
pub fn paginate(items: &Vec<AdminEntity>, options: Option<Pagination>) -> (r: Listing)
    ensures
        records(r.0@) == page_of(records(items@), options),
        r.1 == items@.len(),
{
    let len = items.len();
    let (start, end): (usize, usize) = match options {
        None => (0, len),
        Some(p) => {
            let start: usize = if (p.offset as usize) <= len {
                p.offset as usize
            } else {
                len
            };
            let end: usize = if (p.limit as usize) <= len - start {
                start + p.limit as usize
            } else {
                len
            };
            (start, end)
        },
    };
    assert(start == page_start(records(items@).len(), options));
    assert(end == page_end(records(items@).len(), options));
    let mut page: Vec<AdminEntity> = Vec::new();
    let mut i: usize = start;
    assert(records(page@) =~= records(items@).subrange(start as int, i as int));
    while i < end
        invariant
            start <= i <= end <= items.len(),
            records(page@) == records(items@).subrange(start as int, i as int),
        decreases end - i,
    {
        let ghost earlier = page@;
        let entry = items[i].clone();
        page.push(entry);
        assert(records(page@) =~= records(earlier).push(entry@));
        assert(records(page@) =~= records(items@).subrange(start as int, i + 1));
        i = i + 1;
    }
    (page, len)
}

} // verus!
