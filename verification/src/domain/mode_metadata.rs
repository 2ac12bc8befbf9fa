//! The metadata that a specialized mode carries.
use vstd::prelude::*;

use super::dmr::DmrView;
use super::dstar::DStarView;
use super::ft8::Ft8View;
use super::ysf::YsfView;
use super::{DStarMetadata, DmrMetadata, Ft8Metadata, YsfMetadata};
use crate::text::str_eq;

verus! {

/// The mode-specific metadata of a QSO.
#[derive(Debug, Clone, PartialEq, Eq)]
pub enum ModeMetadata {
    Generic,
    Dmr(DmrMetadata),
    Ft8(Ft8Metadata),
    Dstar(DStarMetadata),
    Ysf(YsfMetadata),
}

/// Mode metadata as mathematical values.
pub enum ModeMetadataView {
    Generic,
    Dmr(DmrView),
    Ft8(Ft8View),
    Dstar(DStarView),
    Ysf(YsfView),
}

impl View for ModeMetadata {
    type V = ModeMetadataView;

    open spec fn view(&self) -> ModeMetadataView {
        match self {
            ModeMetadata::Generic => ModeMetadataView::Generic,
            ModeMetadata::Dmr(m) => ModeMetadataView::Dmr(m@),
            ModeMetadata::Ft8(m) => ModeMetadataView::Ft8(m@),
            ModeMetadata::Dstar(m) => ModeMetadataView::Dstar(m@),
            ModeMetadata::Ysf(m) => ModeMetadataView::Ysf(m@),
        }
    }
}

impl ModeMetadata {
    /// The canonical mode this metadata belongs to (`None` for generic
    /// QSOs).
    pub open spec fn spec_expected_mode(self) -> Option<Seq<char>> {
        match self {
            ModeMetadata::Generic => None,
            ModeMetadata::Dmr(_) => Some("DMR"@),
            ModeMetadata::Ft8(_) => Some("FT8"@),
            ModeMetadata::Dstar(_) => Some("DSTAR"@),
            ModeMetadata::Ysf(_) => Some("C4FM"@),
        }
    }

    /// Specialized metadata belongs to exactly its canonical mode; generic
    /// metadata to every other mode.
    pub open spec fn spec_is_compatible_with(self, mode: Seq<char>) -> bool {
        if mode == "DMR"@ {
            self is Dmr
        } else if mode == "FT8"@ {
            self is Ft8
        } else if mode == "DSTAR"@ {
            self is Dstar
        } else if mode == "C4FM"@ {
            self is Ysf
        } else {
            self is Generic
        }
    }

    pub fn is_compatible_with(&self, mode: &str) -> (b: bool)
        ensures
            b == self.spec_is_compatible_with(mode@),
    {
        if str_eq(mode, "DMR") {
            matches!(self, ModeMetadata::Dmr(_))
        } else if str_eq(mode, "FT8") {
            matches!(self, ModeMetadata::Ft8(_))
        } else if str_eq(mode, "DSTAR") {
            matches!(self, ModeMetadata::Dstar(_))
        } else if str_eq(mode, "C4FM") {
            matches!(self, ModeMetadata::Ysf(_))
        } else {
            matches!(self, ModeMetadata::Generic)
        }
    }

    pub fn expected_mode(&self) -> (r: Option<&'static str>)
        ensures
            match r {
                Some(m) => self.spec_expected_mode() == Some(m@),
                None => self.spec_expected_mode() is None,
            },
    {
        match self {
            ModeMetadata::Generic => None,
            ModeMetadata::Dmr(_) => Some("DMR"),
            ModeMetadata::Ft8(_) => Some("FT8"),
            ModeMetadata::Dstar(_) => Some("DSTAR"),
            ModeMetadata::Ysf(_) => Some("C4FM"),
        }
    }
}

/// Specialized metadata is compatible with a mode exactly when the mode is
/// the one it expects; generic metadata with every mode but the four
/// specialized ones.
pub proof fn law_metadata_matches_its_expected_mode(m: ModeMetadata, mode: Seq<char>)
    ensures
        m.spec_expected_mode() is Some ==> (m.spec_is_compatible_with(mode) <==> m.spec_expected_mode()
            == Some(mode)),
        m is Generic ==> (m.spec_is_compatible_with(mode) <==> !(mode == "DMR"@ || mode == "FT8"@
            || mode == "DSTAR"@ || mode == "C4FM"@)),
{
    reveal_strlit("DMR");
    reveal_strlit("FT8");
    reveal_strlit("DSTAR");
    reveal_strlit("C4FM");
    assert("DMR"@ != "FT8"@ && "DMR"@ != "DSTAR"@ && "DMR"@ != "C4FM"@) by {
        assert("DMR"@.len() != "DSTAR"@.len());
        assert("DMR"@.len() != "C4FM"@.len());
        assert("DMR"@[0] != "FT8"@[0]);
    }
    assert("FT8"@ != "DSTAR"@ && "FT8"@ != "C4FM"@) by {
        assert("FT8"@.len() != "DSTAR"@.len());
        assert("FT8"@.len() != "C4FM"@.len());
    }
    assert("DSTAR"@ != "C4FM"@) by {
        assert("DSTAR"@.len() != "C4FM"@.len());
    }
}

} // verus!
