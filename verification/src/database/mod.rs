//! The logbook store's own rules: search filters and selections, pages of
//! results, planning an ADIF import, and reading the health of a database
//! file. The SQL that carries them out runs outside this library.
use vstd::prelude::*;

pub mod export;
pub mod filters;
pub mod health;
pub mod import;
pub mod page;
pub mod schema;
pub mod tally;
pub mod writes;

pub use filters::{DmrFilter, DstarFilter, Ft8Filter, QsoSelection, YsfFilter};
pub use health::{HealthFinding, HealthReport, HealthStatus};
pub use import::{AdifImportPlan, AdifImportPreview, AdifImportReport, QsoIdentity};
pub use page::{QsoListItem, QsoPage, DEFAULT_PAGE_SIZE};

verus! {
} // verus!
