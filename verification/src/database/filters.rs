//! What a search asks for.
use vstd::prelude::*;

verus! {

/// A DMR search: each given criterion must hold.
#[derive(Debug, Clone, Default, PartialEq, Eq)]
pub struct DmrFilter {
    pub dmr_id: Option<u32>,
    pub talkgroup: Option<u32>,
    pub network: Option<String>,
    pub repeater: Option<String>,
    pub hotspot: Option<String>,
    pub timeslot: Option<u8>,
}

/// A D-STAR search.
#[derive(Debug, Clone, Default, PartialEq, Eq)]
pub struct DstarFilter {
    pub reflector: Option<String>,
    pub module: Option<String>,
    pub rpt1: Option<String>,
}

/// An FT8 search: common fields, a range of received reports and a period.
#[derive(Debug, Clone, Default, PartialEq, Eq)]
pub struct Ft8Filter {
    pub callsign: Option<String>,
    pub grid: Option<String>,
    pub band: Option<String>,
    pub minimum_snr_received_db: Option<i16>,
    pub maximum_snr_received_db: Option<i16>,
    pub start_utc: Option<i64>,
    pub end_utc: Option<i64>,
}

/// A System Fusion search.
#[derive(Debug, Clone, Default, PartialEq, Eq)]
pub struct YsfFilter {
    pub room: Option<String>,
    pub wires_x_node: Option<String>,
    pub dg_id: Option<u8>,
}

/// Which QSOs an export covers.
#[derive(Debug, Clone, PartialEq, Eq)]
pub enum QsoSelection {
    All,
    General(String),
    Dmr(DmrFilter),
    Ft8(Ft8Filter),
    Dstar(DstarFilter),
    Ysf(YsfFilter),
}

} // verus!
