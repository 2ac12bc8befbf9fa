//! QSOs and the metadata of the digital modes (DMR, FT8, D-STAR, YSF).
use vstd::prelude::*;

pub mod dmr;
pub mod dstar;
pub mod ft8;
pub mod mode_metadata;
pub mod qso;
pub mod ysf;

pub use dmr::{DmrAccessType, DmrCallType, DmrMetadata, DmrMetadataInput, DmrValidationError};
pub use dstar::{DStarMetadata, DStarMetadataInput, DStarValidationError};
pub use ft8::{Ft8Metadata, Ft8MetadataInput, Ft8ValidationError};
pub use mode_metadata::ModeMetadata;
pub use qso::{derive_band, CommonQsoFields, NewQso, Qso, ValidationError};
pub use ysf::{YsfAccessType, YsfMetadata, YsfMetadataInput, YsfValidationError};

verus! {
} // verus!
