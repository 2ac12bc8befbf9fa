//! DMR metadata: identifiers, talkgroup, timeslot, color code and route.
use vstd::prelude::*;

use crate::text::{
    ascii_lower_seq, ascii_lower_vec, ascii_uppercasing, opt_view, optional_number, optional_text,
    optional_trimmed, optional_upper_text, owned, parse_optional_unsigned, string_of, to_uppercase,
    trim, trim_str, vec_eq_str, trimmed_string,
};

verus! {

#[derive(Debug, Clone, Copy, PartialEq, Eq, Structural)]
pub enum DmrCallType {
    Group,
    Private,
}

#[derive(Debug, Clone, Copy, PartialEq, Eq, Structural)]
pub enum DmrAccessType {
    Repeater,
    Hotspot,
    Simplex,
}

#[derive(Debug, Clone, Copy, PartialEq, Eq, Structural)]
pub enum DmrValidationError {
    InvalidDmrId,
    InvalidTalkgroup,
    InvalidTimeslot,
    InvalidColorCode,
    InvalidCallType,
    InvalidAccessType,
    RepeaterCallsignRequired,
    HotspotRequired,
    InvalidFrequency,
}

impl DmrCallType {
    pub open spec fn spec_as_str(self) -> Seq<char> {
        match self {
            DmrCallType::Group => "group"@,
            DmrCallType::Private => "private"@,
        }
    }

    pub fn as_str(self) -> (s: &'static str)
        ensures
            s@ == self.spec_as_str(),
    {
        match self {
            DmrCallType::Group => "group",
            DmrCallType::Private => "private",
        }
    }

    /// `group` or `private`, trimmed, in any ASCII case.
    pub open spec fn spec_parse(value: Seq<char>) -> Option<DmrCallType> {
        let t = ascii_lower_seq(trim(value));
        if t == "group"@ {
            Some(DmrCallType::Group)
        } else if t == "private"@ {
            Some(DmrCallType::Private)
        } else {
            None
        }
    }

    pub fn parse_text(value: &str) -> (r: Result<DmrCallType, DmrValidationError>)
        ensures
            match r {
                Ok(t) => Self::spec_parse(value@) == Some(t),
                Err(e) => Self::spec_parse(value@) is None && e == DmrValidationError::InvalidCallType,
            },
    {
        let t = trim_str(value);
        let lower = ascii_lower_vec(&t);
        if vec_eq_str(&lower, "group") {
            Ok(DmrCallType::Group)
        } else if vec_eq_str(&lower, "private") {
            Ok(DmrCallType::Private)
        } else {
            Err(DmrValidationError::InvalidCallType)
        }
    }
}

impl std::str::FromStr for DmrCallType {
    type Err = DmrValidationError;

    fn from_str(value: &str) -> (r: Result<Self, Self::Err>)
        ensures
            match r {
                Ok(t) => Self::spec_parse(value@) == Some(t),
                Err(e) => Self::spec_parse(value@) is None && e == DmrValidationError::InvalidCallType,
            },
    {
        DmrCallType::parse_text(value)
    }
}

impl DmrAccessType {
    pub open spec fn spec_as_str(self) -> Seq<char> {
        match self {
            DmrAccessType::Repeater => "repeater"@,
            DmrAccessType::Hotspot => "hotspot"@,
            DmrAccessType::Simplex => "simplex"@,
        }
    }

    pub fn as_str(self) -> (s: &'static str)
        ensures
            s@ == self.spec_as_str(),
    {
        match self {
            DmrAccessType::Repeater => "repeater",
            DmrAccessType::Hotspot => "hotspot",
            DmrAccessType::Simplex => "simplex",
        }
    }

    /// `repeater`, `hotspot` or `simplex`, trimmed, in any ASCII case.
    pub open spec fn spec_parse(value: Seq<char>) -> Option<DmrAccessType> {
        let t = ascii_lower_seq(trim(value));
        if t == "repeater"@ {
            Some(DmrAccessType::Repeater)
        } else if t == "hotspot"@ {
            Some(DmrAccessType::Hotspot)
        } else if t == "simplex"@ {
            Some(DmrAccessType::Simplex)
        } else {
            None
        }
    }

    pub fn parse_text(value: &str) -> (r: Result<DmrAccessType, DmrValidationError>)
        ensures
            match r {
                Ok(t) => Self::spec_parse(value@) == Some(t),
                Err(e) => Self::spec_parse(value@) is None && e
                    == DmrValidationError::InvalidAccessType,
            },
    {
        let t = trim_str(value);
        let lower = ascii_lower_vec(&t);
        if vec_eq_str(&lower, "repeater") {
            Ok(DmrAccessType::Repeater)
        } else if vec_eq_str(&lower, "hotspot") {
            Ok(DmrAccessType::Hotspot)
        } else if vec_eq_str(&lower, "simplex") {
            Ok(DmrAccessType::Simplex)
        } else {
            Err(DmrValidationError::InvalidAccessType)
        }
    }
}

impl std::str::FromStr for DmrAccessType {
    type Err = DmrValidationError;

    fn from_str(value: &str) -> (r: Result<Self, Self::Err>)
        ensures
            match r {
                Ok(t) => Self::spec_parse(value@) == Some(t),
                Err(e) => Self::spec_parse(value@) is None && e == DmrValidationError::InvalidAccessType,
            },
    {
        DmrAccessType::parse_text(value)
    }
}

impl DmrValidationError {
    pub open spec fn spec_message(self) -> Seq<char> {
        match self {
            DmrValidationError::InvalidDmrId => "DMR ID must be a positive integer"@,
            DmrValidationError::InvalidTalkgroup => "Talkgroup must be a positive integer"@,
            DmrValidationError::InvalidTimeslot => "Timeslot must be 1 or 2"@,
            DmrValidationError::InvalidColorCode => "Color code must be between 0 and 15"@,
            DmrValidationError::InvalidCallType => "Call type must be group or private"@,
            DmrValidationError::InvalidAccessType => "Access type must be repeater, hotspot or simplex"@,
            DmrValidationError::RepeaterCallsignRequired => "Repeater callsign is required for repeater access"@,
            DmrValidationError::HotspotRequired => "Hotspot is required for hotspot access"@,
            DmrValidationError::InvalidFrequency => "DMR RX/TX frequency must be greater than zero"@,
        }
    }

    /// The message shown to the operator.
    pub fn message(&self) -> (s: String)
        ensures
            s@ == self.spec_message(),
    {
        match self {
            DmrValidationError::InvalidDmrId => owned("DMR ID must be a positive integer"),
            DmrValidationError::InvalidTalkgroup => owned("Talkgroup must be a positive integer"),
            DmrValidationError::InvalidTimeslot => owned("Timeslot must be 1 or 2"),
            DmrValidationError::InvalidColorCode => owned("Color code must be between 0 and 15"),
            DmrValidationError::InvalidCallType => owned("Call type must be group or private"),
            DmrValidationError::InvalidAccessType => owned(
                "Access type must be repeater, hotspot or simplex",
            ),
            DmrValidationError::RepeaterCallsignRequired => owned(
                "Repeater callsign is required for repeater access",
            ),
            DmrValidationError::HotspotRequired => owned("Hotspot is required for hotspot access"),
            DmrValidationError::InvalidFrequency => owned(
                "DMR RX/TX frequency must be greater than zero",
            ),
        }
    }
}

/// Validated DMR metadata of a QSO.
#[derive(Debug, Clone, PartialEq, Eq)]
pub struct DmrMetadata {
    pub remote_dmr_id: Option<u32>,
    pub local_dmr_id: Option<u32>,
    pub talkgroup: Option<u32>,
    pub timeslot: Option<u8>,
    pub color_code: Option<u8>,
    pub network: Option<String>,
    pub call_type: DmrCallType,
    pub access_type: DmrAccessType,
    pub repeater_callsign: Option<String>,
    pub hotspot: Option<String>,
    pub rx_frequency_hz: Option<i64>,
    pub tx_frequency_hz: Option<i64>,
    pub notes: String,
}

/// DMR metadata as typed by the operator.
#[derive(Debug, Clone, Default, PartialEq, Eq)]
pub struct DmrMetadataInput {
    pub remote_dmr_id: String,
    pub local_dmr_id: String,
    pub talkgroup: String,
    pub timeslot: String,
    pub color_code: String,
    pub network: String,
    pub call_type: String,
    pub access_type: String,
    pub repeater_callsign: String,
    pub hotspot: String,
    pub rx_frequency_hz: Option<i64>,
    pub tx_frequency_hz: Option<i64>,
    pub notes: String,
}

/// The text of DMR metadata input.
pub struct DmrInputView {
    pub remote_dmr_id: Seq<char>,
    pub local_dmr_id: Seq<char>,
    pub talkgroup: Seq<char>,
    pub timeslot: Seq<char>,
    pub color_code: Seq<char>,
    pub network: Seq<char>,
    pub call_type: Seq<char>,
    pub access_type: Seq<char>,
    pub repeater_callsign: Seq<char>,
    pub hotspot: Seq<char>,
    pub rx_frequency_hz: Option<i64>,
    pub tx_frequency_hz: Option<i64>,
    pub notes: Seq<char>,
}

impl View for DmrMetadataInput {
    type V = DmrInputView;

    open spec fn view(&self) -> DmrInputView {
        DmrInputView {
            remote_dmr_id: self.remote_dmr_id@,
            local_dmr_id: self.local_dmr_id@,
            talkgroup: self.talkgroup@,
            timeslot: self.timeslot@,
            color_code: self.color_code@,
            network: self.network@,
            call_type: self.call_type@,
            access_type: self.access_type@,
            repeater_callsign: self.repeater_callsign@,
            hotspot: self.hotspot@,
            rx_frequency_hz: self.rx_frequency_hz,
            tx_frequency_hz: self.tx_frequency_hz,
            notes: self.notes@,
        }
    }
}

/// Validated DMR metadata as mathematical values.
pub struct DmrView {
    pub remote_dmr_id: Option<nat>,
    pub local_dmr_id: Option<nat>,
    pub talkgroup: Option<nat>,
    pub timeslot: Option<nat>,
    pub color_code: Option<nat>,
    pub network: Option<Seq<char>>,
    pub call_type: DmrCallType,
    pub access_type: DmrAccessType,
    pub repeater_callsign: Option<Seq<char>>,
    pub hotspot: Option<Seq<char>>,
    pub rx_frequency_hz: Option<i64>,
    pub tx_frequency_hz: Option<i64>,
    pub notes: Seq<char>,
}

impl View for DmrMetadata {
    type V = DmrView;

    open spec fn view(&self) -> DmrView {
        DmrView {
            remote_dmr_id: opt_u32_view(self.remote_dmr_id),
            local_dmr_id: opt_u32_view(self.local_dmr_id),
            talkgroup: opt_u32_view(self.talkgroup),
            timeslot: opt_u8_view(self.timeslot),
            color_code: opt_u8_view(self.color_code),
            network: opt_view(self.network),
            call_type: self.call_type,
            access_type: self.access_type,
            repeater_callsign: opt_view(self.repeater_callsign),
            hotspot: opt_view(self.hotspot),
            rx_frequency_hz: self.rx_frequency_hz,
            tx_frequency_hz: self.tx_frequency_hz,
            notes: self.notes@,
        }
    }
}

/// An optional positive 32-bit number: blank gives `Some(None)`, an
/// invalid or zero value gives `None`.
pub open spec fn positive_u32(s: Seq<char>) -> Option<Option<nat>> {
    match optional_number(s, u32::MAX as nat) {
        Some(Some(n)) => if n == 0 {
            None
        } else {
            Some(Some(n))
        },
        other => other,
    }
}

/// An optional 8-bit number within `minimum..=maximum`.
pub open spec fn ranged_u8(s: Seq<char>, minimum: nat, maximum: nat) -> Option<Option<nat>> {
    match optional_number(s, u8::MAX as nat) {
        Some(Some(n)) => if minimum <= n <= maximum {
            Some(Some(n))
        } else {
            None
        },
        other => other,
    }
}

pub open spec fn opt_u32_view(v: Option<u32>) -> Option<nat> {
    match v {
        Some(n) => Some(n as nat),
        None => None,
    }
}

pub open spec fn opt_u8_view(v: Option<u8>) -> Option<nat> {
    match v {
        Some(n) => Some(n as nat),
        None => None,
    }
}

/// An RX/TX frequency is absent or positive.
pub open spec fn frequency_ok(v: Option<i64>) -> bool {
    match v {
        Some(f) => f > 0,
        None => true,
    }
}

impl DmrMetadata {
    /// The first problem with the input, in the order the fields are
    /// checked, or `None` when it is valid.
    pub open spec fn input_error(input: DmrInputView) -> Option<DmrValidationError> {
        if DmrCallType::spec_parse(input.call_type) is None {
            Some(DmrValidationError::InvalidCallType)
        } else if DmrAccessType::spec_parse(input.access_type) is None {
            Some(DmrValidationError::InvalidAccessType)
        } else if DmrAccessType::spec_parse(input.access_type) == Some(DmrAccessType::Repeater)
            && optional_text(input.repeater_callsign) is None {
            Some(DmrValidationError::RepeaterCallsignRequired)
        } else if DmrAccessType::spec_parse(input.access_type) == Some(DmrAccessType::Hotspot)
            && optional_text(input.hotspot) is None {
            Some(DmrValidationError::HotspotRequired)
        } else if positive_u32(input.remote_dmr_id) is None {
            Some(DmrValidationError::InvalidDmrId)
        } else if positive_u32(input.local_dmr_id) is None {
            Some(DmrValidationError::InvalidDmrId)
        } else if positive_u32(input.talkgroup) is None {
            Some(DmrValidationError::InvalidTalkgroup)
        } else if ranged_u8(input.timeslot, 1, 2) is None {
            Some(DmrValidationError::InvalidTimeslot)
        } else if ranged_u8(input.color_code, 0, 15) is None {
            Some(DmrValidationError::InvalidColorCode)
        } else if !frequency_ok(input.rx_frequency_hz) || !frequency_ok(input.tx_frequency_hz) {
            Some(DmrValidationError::InvalidFrequency)
        } else {
            None
        }
    }

    /// What validation gives for the input: the first problem, or the
    /// normalized metadata.
    pub open spec fn spec_from_input(input: DmrInputView) -> Result<DmrView, DmrValidationError> {
        match Self::input_error(input) {
            Some(e) => Err(e),
            None => Ok(
                DmrView {
                    remote_dmr_id: positive_u32(input.remote_dmr_id)->0,
                    local_dmr_id: positive_u32(input.local_dmr_id)->0,
                    talkgroup: positive_u32(input.talkgroup)->0,
                    timeslot: ranged_u8(input.timeslot, 1, 2)->0,
                    color_code: ranged_u8(input.color_code, 0, 15)->0,
                    network: optional_text(input.network),
                    call_type: DmrCallType::spec_parse(input.call_type)->0,
                    access_type: DmrAccessType::spec_parse(input.access_type)->0,
                    repeater_callsign: optional_upper_text(input.repeater_callsign),
                    hotspot: optional_text(input.hotspot),
                    rx_frequency_hz: input.rx_frequency_hz,
                    tx_frequency_hz: input.tx_frequency_hz,
                    notes: trim(input.notes),
                },
            ),
        }
    }

    /// Validates and normalizes DMR metadata: numbers are parsed, the call
    /// and access types are read case-insensitively, the repeater callsign
    /// is uppercased, and text is trimmed (blank becomes `None`). Repeater
    /// access needs a repeater callsign, hotspot access a hotspot.
    pub fn from_input(input: DmrMetadataInput) -> (r: Result<Self, DmrValidationError>)
        ensures
            match r {
                Ok(m) => Self::spec_from_input(input@) == Ok::<DmrView, DmrValidationError>(m@),
                Err(e) => Self::spec_from_input(input@) == Err::<DmrView, DmrValidationError>(e),
            },
            r is Ok && optional_text(input@.repeater_callsign) is Some ==> ascii_uppercasing(
                trim(input@.repeater_callsign),
            ),
    {
        let call_type = DmrCallType::parse_text(input.call_type.as_str())?;
        let access_type = DmrAccessType::parse_text(input.access_type.as_str())?;
        let repeater_callsign = optional_uppercase(input.repeater_callsign.as_str());
        let hotspot = optional_string(input.hotspot.as_str());
        if access_type == DmrAccessType::Repeater && repeater_callsign.is_none() {
            return Err(DmrValidationError::RepeaterCallsignRequired);
        }
        if access_type == DmrAccessType::Hotspot && hotspot.is_none() {
            return Err(DmrValidationError::HotspotRequired);
        }
        let remote_dmr_id = optional_positive_u32(
            input.remote_dmr_id.as_str(),
            DmrValidationError::InvalidDmrId,
        )?;
        let local_dmr_id = optional_positive_u32(
            input.local_dmr_id.as_str(),
            DmrValidationError::InvalidDmrId,
        )?;
        let talkgroup = optional_positive_u32(
            input.talkgroup.as_str(),
            DmrValidationError::InvalidTalkgroup,
        )?;
        let timeslot = optional_ranged_u8(
            input.timeslot.as_str(),
            1,
            2,
            DmrValidationError::InvalidTimeslot,
        )?;
        let color_code = optional_ranged_u8(
            input.color_code.as_str(),
            0,
            15,
            DmrValidationError::InvalidColorCode,
        )?;
        let network = optional_string(input.network.as_str());
        let rx_frequency_hz = validate_frequency(input.rx_frequency_hz)?;
        let tx_frequency_hz = validate_frequency(input.tx_frequency_hz)?;
        Ok(DmrMetadata {
            remote_dmr_id,
            local_dmr_id,
            talkgroup,
            timeslot,
            color_code,
            network,
            call_type,
            access_type,
            repeater_callsign,
            hotspot,
            rx_frequency_hz,
            tx_frequency_hz,
            notes: trimmed_string(input.notes.as_str()),
        })
    }
}

fn optional_positive_u32(value: &str, error: DmrValidationError) -> (r: Result<
    Option<u32>,
    DmrValidationError,
>)
    ensures
        match r {
            Ok(v) => positive_u32(value@) == Some(opt_u32_view(v)),
            Err(e) => positive_u32(value@) is None && e == error,
        },
{
    match parse_optional_unsigned(value, u32::MAX as u64) {
        Some(Some(n)) => if n == 0 {
            Err(error)
        } else {
            Ok(Some(n as u32))
        },
        Some(None) => Ok(None),
        None => Err(error),
    }
}

fn optional_ranged_u8(value: &str, minimum: u8, maximum: u8, error: DmrValidationError) -> (r:
    Result<Option<u8>, DmrValidationError>)
    ensures
        match r {
            Ok(v) => ranged_u8(value@, minimum as nat, maximum as nat) == Some(opt_u8_view(v)),
            Err(e) => ranged_u8(value@, minimum as nat, maximum as nat) is None && e == error,
        },
{
    match parse_optional_unsigned(value, u8::MAX as u64) {
        Some(Some(n)) => if minimum as u64 <= n && n <= maximum as u64 {
            Ok(Some(n as u8))
        } else {
            Err(error)
        },
        Some(None) => Ok(None),
        None => Err(error),
    }
}

fn validate_frequency(value: Option<i64>) -> (r: Result<Option<i64>, DmrValidationError>)
    ensures
        match r {
            Ok(v) => frequency_ok(value) && v == value,
            Err(e) => !frequency_ok(value) && e == DmrValidationError::InvalidFrequency,
        },
{
    match value {
        Some(v) => if v <= 0 {
            Err(DmrValidationError::InvalidFrequency)
        } else {
            Ok(value)
        },
        None => Ok(value),
    }
}

fn optional_string(value: &str) -> (r: Option<String>)
    ensures
        opt_view(r) == optional_text(value@),
{
    optional_trimmed(value)
}

fn optional_uppercase(value: &str) -> (r: Option<String>)
    ensures
        opt_view(r) == optional_upper_text(value@),
        r is Some ==> ascii_uppercasing(trim(value@)),
{
    match optional_string(value) {
        Some(v) => {
            let u = to_uppercase(v.as_str());
            proof {
                reveal(ascii_uppercasing);
            }
            Some(u)
        },
        None => None,
    }
}

} // verus!
