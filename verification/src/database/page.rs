//! Pages of search results and the values a query is bound with.
use vstd::prelude::*;

use crate::domain::{DStarMetadata, DmrMetadata, Ft8Metadata, ModeMetadata, Qso, YsfMetadata};
use crate::text::{int_decimal, optional_text, owned, push_chars, push_signed, push_str, string_of, trim_str};

verus! {

/// Results shown per page.
pub const DEFAULT_PAGE_SIZE: usize = 100;

/// A stored QSO with the metadata of its mode.
#[derive(Debug, Clone, PartialEq, Eq)]
pub struct QsoListItem {
    pub qso: Qso,
    pub metadata: ModeMetadata,
}

/// One page of results: the items, how many match in all, and where the
/// page starts.
#[derive(Debug, Clone, PartialEq, Eq)]
pub struct QsoPage {
    pub items: Vec<QsoListItem>,
    pub total: usize,
    pub offset: usize,
    pub limit: usize,
}

/// The largest offset or limit a query binds: `i64::MAX`, or less where
/// `usize` is narrower.
pub open spec fn sql_maximum() -> int {
    if usize::MAX < i64::MAX {
        usize::MAX as int
    } else {
        i64::MAX as int
    }
}

/// The offset and limit of a page, each also as the `i64` SQL binds: both
/// kept within `sql_maximum()`, the limit at least one.
pub open spec fn spec_normalize_page(offset: int, limit: int) -> (int, int) {
    let o = if offset < sql_maximum() {
        offset
    } else {
        sql_maximum()
    };
    let l = if limit < 1 {
        1
    } else if limit < sql_maximum() {
        limit
    } else {
        sql_maximum()
    };
    (o, l)
}

pub fn normalize_page(offset: usize, limit: usize) -> (r: (usize, usize, i64, i64))
    ensures
        (r.0 as int, r.1 as int) == spec_normalize_page(offset as int, limit as int),
        r.2 as int == r.0 as int,
        r.3 as int == r.1 as int,
        1 <= r.1,
{
    let maximum: usize = if (usize::MAX as u128) < (i64::MAX as u128) {
        usize::MAX
    } else {
        i64::MAX as usize
    };
    assert(maximum == sql_maximum());
    let offset = if offset < maximum {
        offset
    } else {
        maximum
    };
    let limit = if limit < 1 {
        1
    } else if limit < maximum {
        limit
    } else {
        maximum
    };
    (offset, limit, offset as i64, limit as i64)
}

/// A row count as a `usize`, saturating (a count is never negative).
pub fn count_to_usize(count: i64) -> (r: usize)
    ensures
        count < 0 ==> r == usize::MAX,
        0 <= count <= usize::MAX ==> r == count,
        count > usize::MAX ==> r == usize::MAX,
{
    if count < 0 {
        usize::MAX
    } else {
        let c = count as u64;
        if (c as u128) <= (usize::MAX as u128) {
            c as usize
        } else {
            usize::MAX
        }
    }
}

/// A `LIKE` pattern that finds the trimmed text anywhere; `None` when
/// blank.
pub open spec fn spec_trimmed_pattern(value: Option<Seq<char>>) -> Option<Seq<char>> {
    match value {
        Some(v) => match optional_text(v) {
            Some(t) => Some(seq!['%'] + t + seq!['%']),
            None => None,
        },
        None => None,
    }
}

pub fn trimmed_pattern(value: Option<&str>) -> (r: Option<String>)
    ensures
        crate::text::opt_view(r) == spec_trimmed_pattern(
            match value {
                Some(v) => Some(v@),
                None => None,
            },
        ),
{
    match value {
        Some(v) => {
            let t = trim_str(v);
            if t.len() == 0 {
                None
            } else {
                proof {
                    reveal_strlit("%");
                }
                let mut s = owned("%");
                push_chars(&mut s, &t);
                push_str(&mut s, "%");
                assert(s@ =~= seq!['%'] + t@ + seq!['%']);
                Some(s)
            }
        },
        None => None,
    }
}

/// Why a stored row cannot become a list item.
#[derive(Debug, Clone, Copy, PartialEq, Eq, Structural)]
pub enum ListItemError {
    /// More than one specialized metadata row belongs to the QSO.
    MultipleMetadata,
    /// The metadata does not belong to the QSO's mode.
    IncompatibleMetadata,
}

impl ListItemError {
    pub open spec fn spec_reason(self) -> Seq<char> {
        match self {
            ListItemError::MultipleMetadata => "multiple specialized metadata rows"@,
            ListItemError::IncompatibleMetadata => "mode and metadata are incompatible"@,
        }
    }

    /// Why the stored QSO `id` of `mode` was refused, as the store reports
    /// it.
    pub fn describe(&self, id: i64, mode: &str) -> (s: String)
        ensures
            s@ == "QSO "@ + int_decimal(id as int) + " ("@ + mode@ + ") has "@ + self.spec_reason(),
    {
        let mut s = owned("QSO ");
        push_signed(&mut s, id);
        push_str(&mut s, " (");
        push_str(&mut s, mode);
        push_str(&mut s, ") has ");
        match self {
            ListItemError::MultipleMetadata => push_str(&mut s, "multiple specialized metadata rows"),
            ListItemError::IncompatibleMetadata => push_str(&mut s, "mode and metadata are incompatible"),
        }
        s
    }
}

/// How many of the four specialized metadata rows are present.
pub open spec fn present_count(dmr: bool, ft8: bool, dstar: bool, ysf: bool) -> nat {
    (if dmr { 1nat } else { 0nat }) + (if ft8 { 1nat } else { 0nat }) + (if dstar { 1nat } else { 0nat })
        + (if ysf { 1nat } else { 0nat })
}

/// Joins a stored QSO with the metadata rows found for it: at most one may
/// be present, and it must belong to the QSO's mode.
pub fn list_item_metadata(
    mode: &str,
    dmr: Option<DmrMetadata>,
    ft8: Option<Ft8Metadata>,
    dstar: Option<DStarMetadata>,
    ysf: Option<YsfMetadata>,
) -> (r: Result<ModeMetadata, ListItemError>)
    ensures
        present_count(dmr is Some, ft8 is Some, dstar is Some, ysf is Some) > 1 <==> r == Err::<
            ModeMetadata,
            _,
        >(ListItemError::MultipleMetadata),
        match r {
            Ok(m) => {
                &&& m.spec_is_compatible_with(mode@)
                &&& (dmr is Some ==> m == ModeMetadata::Dmr(dmr->0))
                &&& (ft8 is Some ==> m == ModeMetadata::Ft8(ft8->0))
                &&& (dstar is Some ==> m == ModeMetadata::Dstar(dstar->0))
                &&& (ysf is Some ==> m == ModeMetadata::Ysf(ysf->0))
                &&& (present_count(dmr is Some, ft8 is Some, dstar is Some, ysf is Some) == 0
                    ==> m == ModeMetadata::Generic)
            },
            Err(ListItemError::IncompatibleMetadata) => {
                &&& present_count(dmr is Some, ft8 is Some, dstar is Some, ysf is Some) <= 1
                &&& !(if dmr is Some {
                    ModeMetadata::Dmr(dmr->0)
                } else if ft8 is Some {
                    ModeMetadata::Ft8(ft8->0)
                } else if dstar is Some {
                    ModeMetadata::Dstar(dstar->0)
                } else if ysf is Some {
                    ModeMetadata::Ysf(ysf->0)
                } else {
                    ModeMetadata::Generic
                }).spec_is_compatible_with(mode@)
            },
            Err(_) => true,
        },
{
    let count: usize = (if dmr.is_some() { 1 } else { 0 }) + (if ft8.is_some() { 1 } else { 0 }) + (
    if dstar.is_some() {
        1
    } else {
        0
    }) + (if ysf.is_some() { 1 } else { 0 });
    if count > 1 {
        return Err(ListItemError::MultipleMetadata);
    }
    let metadata = match dmr {
        Some(m) => ModeMetadata::Dmr(m),
        None => match ft8 {
            Some(m) => ModeMetadata::Ft8(m),
            None => match dstar {
                Some(m) => ModeMetadata::Dstar(m),
                None => match ysf {
                    Some(m) => ModeMetadata::Ysf(m),
                    None => ModeMetadata::Generic,
                },
            },
        },
    };
    if !metadata.is_compatible_with(mode) {
        return Err(ListItemError::IncompatibleMetadata);
    }
    Ok(metadata)
}

} // verus!
