//! YSF / System Fusion (C4FM) metadata: room, Wires-X node, repeater,
//! network, access type and DG-IDs.
use vstd::prelude::*;

use crate::text::{
    all_digit_chars, all_digits, any_control, ascii_lower_seq, ascii_uppercasing, ascii_lower_vec, chars_of,
    has_control, opt_view, owned, parse_unsigned, parse_unsigned_vec, std_to_uppercase,
    string_of, to_uppercase_vec, trim, trim_str, vec_eq_str,
};

verus! {

#[derive(Debug, Clone, Copy, Default, PartialEq, Eq, Structural)]
pub enum YsfAccessType {
    #[default]
    Simplex,
    Repeater,
    Hotspot,
}

#[derive(Debug, Clone, Copy, PartialEq, Eq, Structural)]
pub enum YsfValidationError {
    InvalidRoom,
    InvalidWiresXNode,
    InvalidRepeater,
    InvalidNetwork,
    InvalidAccessType,
    InvalidTxDgId,
    InvalidRxDgId,
    InvalidNotes,
    RepeaterRequired,
}

impl YsfValidationError {
    pub open spec fn spec_message(self) -> Seq<char> {
        match self {
            YsfValidationError::InvalidRoom => "YSF room must not contain control characters"@,
            YsfValidationError::InvalidWiresXNode => "YSF Wires-X node must not contain control characters"@,
            YsfValidationError::InvalidRepeater => "YSF repeater must not contain control characters"@,
            YsfValidationError::InvalidNetwork => "YSF network must not contain control characters"@,
            YsfValidationError::InvalidAccessType => "YSF access type must be simplex, repeater or hotspot"@,
            YsfValidationError::InvalidTxDgId => "YSF TX DG-ID must be between 00 and 99"@,
            YsfValidationError::InvalidRxDgId => "YSF RX DG-ID must be between 00 and 99"@,
            YsfValidationError::InvalidNotes => "YSF notes must not contain control characters"@,
            YsfValidationError::RepeaterRequired => "YSF repeater is required for repeater access"@,
        }
    }

    /// The message shown to the operator.
    pub fn message(&self) -> (s: String)
        ensures
            s@ == self.spec_message(),
    {
        match self {
            YsfValidationError::InvalidRoom => owned("YSF room must not contain control characters"),
            YsfValidationError::InvalidWiresXNode => owned(
                "YSF Wires-X node must not contain control characters",
            ),
            YsfValidationError::InvalidRepeater => owned(
                "YSF repeater must not contain control characters",
            ),
            YsfValidationError::InvalidNetwork => owned(
                "YSF network must not contain control characters",
            ),
            YsfValidationError::InvalidAccessType => owned(
                "YSF access type must be simplex, repeater or hotspot",
            ),
            YsfValidationError::InvalidTxDgId => owned("YSF TX DG-ID must be between 00 and 99"),
            YsfValidationError::InvalidRxDgId => owned("YSF RX DG-ID must be between 00 and 99"),
            YsfValidationError::InvalidNotes => owned("YSF notes must not contain control characters"),
            YsfValidationError::RepeaterRequired => owned(
                "YSF repeater is required for repeater access",
            ),
        }
    }
}

impl YsfAccessType {
    pub open spec fn spec_as_str(self) -> Seq<char> {
        match self {
            YsfAccessType::Simplex => "simplex"@,
            YsfAccessType::Repeater => "repeater"@,
            YsfAccessType::Hotspot => "hotspot"@,
        }
    }

    pub fn as_str(self) -> (s: &'static str)
        ensures
            s@ == self.spec_as_str(),
    {
        match self {
            YsfAccessType::Simplex => "simplex",
            YsfAccessType::Repeater => "repeater",
            YsfAccessType::Hotspot => "hotspot",
        }
    }

    /// No control characters; trimmed and read in any ASCII case; blank
    /// means simplex.
    pub open spec fn spec_parse(value: Seq<char>) -> Option<YsfAccessType> {
        let t = ascii_lower_seq(trim(value));
        if has_control(value) {
            None
        } else if t.len() == 0 || t == "simplex"@ {
            Some(YsfAccessType::Simplex)
        } else if t == "repeater"@ {
            Some(YsfAccessType::Repeater)
        } else if t == "hotspot"@ {
            Some(YsfAccessType::Hotspot)
        } else {
            None
        }
    }

    pub fn parse_text(value: &str) -> (r: Result<YsfAccessType, YsfValidationError>)
        ensures
            match r {
                Ok(t) => Self::spec_parse(value@) == Some(t),
                Err(e) => Self::spec_parse(value@) is None && e
                    == YsfValidationError::InvalidAccessType,
            },
    {
        let chars = chars_of(value);
        if any_control(&chars) {
            return Err(YsfValidationError::InvalidAccessType);
        }
        let t = trim_str(value);
        let lower = ascii_lower_vec(&t);
        if lower.len() == 0 || vec_eq_str(&lower, "simplex") {
            Ok(YsfAccessType::Simplex)
        } else if vec_eq_str(&lower, "repeater") {
            Ok(YsfAccessType::Repeater)
        } else if vec_eq_str(&lower, "hotspot") {
            Ok(YsfAccessType::Hotspot)
        } else {
            Err(YsfValidationError::InvalidAccessType)
        }
    }
}

impl std::str::FromStr for YsfAccessType {
    type Err = YsfValidationError;

    fn from_str(value: &str) -> (r: Result<Self, Self::Err>)
        ensures
            match r {
                Ok(t) => Self::spec_parse(value@) == Some(t),
                Err(e) => Self::spec_parse(value@) is None && e == YsfValidationError::InvalidAccessType,
            },
    {
        YsfAccessType::parse_text(value)
    }
}

#[derive(Debug, Clone, PartialEq, Eq)]
pub struct YsfMetadata {
    pub room: Option<String>,
    pub wires_x_node: Option<String>,
    pub repeater: Option<String>,
    pub network: Option<String>,
    pub access_type: YsfAccessType,
    pub tx_dg_id: Option<u8>,
    pub rx_dg_id: Option<u8>,
    pub notes: String,
}

#[derive(Debug, Clone, Default, PartialEq, Eq)]
pub struct YsfMetadataInput {
    pub room: String,
    pub wires_x_node: String,
    pub repeater: String,
    pub network: String,
    pub access_type: String,
    pub tx_dg_id: String,
    pub rx_dg_id: String,
    pub notes: String,
}

/// The text of System Fusion metadata input.
pub struct YsfInputView {
    pub room: Seq<char>,
    pub wires_x_node: Seq<char>,
    pub repeater: Seq<char>,
    pub network: Seq<char>,
    pub access_type: Seq<char>,
    pub tx_dg_id: Seq<char>,
    pub rx_dg_id: Seq<char>,
    pub notes: Seq<char>,
}

impl View for YsfMetadataInput {
    type V = YsfInputView;

    open spec fn view(&self) -> YsfInputView {
        YsfInputView {
            room: self.room@,
            wires_x_node: self.wires_x_node@,
            repeater: self.repeater@,
            network: self.network@,
            access_type: self.access_type@,
            tx_dg_id: self.tx_dg_id@,
            rx_dg_id: self.rx_dg_id@,
            notes: self.notes@,
        }
    }
}

/// Validated System Fusion metadata as mathematical values.
pub struct YsfView {
    pub room: Option<Seq<char>>,
    pub wires_x_node: Option<Seq<char>>,
    pub repeater: Option<Seq<char>>,
    pub network: Option<Seq<char>>,
    pub access_type: YsfAccessType,
    pub tx_dg_id: Option<nat>,
    pub rx_dg_id: Option<nat>,
    pub notes: Seq<char>,
}

impl View for YsfMetadata {
    type V = YsfView;

    open spec fn view(&self) -> YsfView {
        YsfView {
            room: opt_view(self.room),
            wires_x_node: opt_view(self.wires_x_node),
            repeater: opt_view(self.repeater),
            network: opt_view(self.network),
            access_type: self.access_type,
            tx_dg_id: opt_u8_view(self.tx_dg_id),
            rx_dg_id: opt_u8_view(self.rx_dg_id),
            notes: self.notes@,
        }
    }
}

/// Free text without control characters, trimmed; `None` when invalid.
pub open spec fn clean_text(s: Seq<char>) -> Option<Seq<char>> {
    if has_control(s) {
        None
    } else {
        Some(trim(s))
    }
}

/// Optional free text without control characters: trimmed, `None` when
/// blank, uppercased when `uppercase`. The outer `None` marks invalid text.
pub open spec fn optional_clean_text(s: Seq<char>, uppercase: bool) -> Option<Option<Seq<char>>> {
    match clean_text(s) {
        None => None,
        Some(t) => if t.len() == 0 {
            Some(None)
        } else if uppercase {
            Some(Some(std_to_uppercase(t)))
        } else {
            Some(Some(t))
        },
    }
}

/// An optional DG-ID: blank, or decimal digits worth at most 99.
pub open spec fn dg_id_value(s: Seq<char>) -> Option<Option<nat>> {
    let t = trim(s);
    if has_control(s) {
        None
    } else if t.len() == 0 {
        Some(None)
    } else if !all_digits(t) {
        None
    } else {
        match parse_unsigned(t, u8::MAX as nat) {
            Some(n) => if n <= 99 {
                Some(Some(n))
            } else {
                None
            },
            None => None,
        }
    }
}

pub open spec fn opt_u8_view(v: Option<u8>) -> Option<nat> {
    match v {
        Some(n) => Some(n as nat),
        None => None,
    }
}

impl YsfMetadata {
    /// The first problem with the input, in the order the fields are
    /// checked, or `None` when it is valid.
    pub open spec fn input_error(input: YsfInputView) -> Option<YsfValidationError> {
        if YsfAccessType::spec_parse(input.access_type) is None {
            Some(YsfValidationError::InvalidAccessType)
        } else if optional_clean_text(input.repeater, true) is None {
            Some(YsfValidationError::InvalidRepeater)
        } else if YsfAccessType::spec_parse(input.access_type) == Some(YsfAccessType::Repeater)
            && optional_clean_text(input.repeater, true) == Some(None::<Seq<char>>) {
            Some(YsfValidationError::RepeaterRequired)
        } else if optional_clean_text(input.room, false) is None {
            Some(YsfValidationError::InvalidRoom)
        } else if optional_clean_text(input.wires_x_node, false) is None {
            Some(YsfValidationError::InvalidWiresXNode)
        } else if optional_clean_text(input.network, false) is None {
            Some(YsfValidationError::InvalidNetwork)
        } else if dg_id_value(input.tx_dg_id) is None {
            Some(YsfValidationError::InvalidTxDgId)
        } else if dg_id_value(input.rx_dg_id) is None {
            Some(YsfValidationError::InvalidRxDgId)
        } else if clean_text(input.notes) is None {
            Some(YsfValidationError::InvalidNotes)
        } else {
            None
        }
    }

    /// What validation gives for the input: the first problem, or the
    /// normalized metadata.
    pub open spec fn spec_from_input(input: YsfInputView) -> Result<YsfView, YsfValidationError> {
        match Self::input_error(input) {
            Some(e) => Err(e),
            None => Ok(
                YsfView {
                    room: optional_clean_text(input.room, false)->0,
                    wires_x_node: optional_clean_text(input.wires_x_node, false)->0,
                    repeater: optional_clean_text(input.repeater, true)->0,
                    network: optional_clean_text(input.network, false)->0,
                    access_type: YsfAccessType::spec_parse(input.access_type)->0,
                    tx_dg_id: dg_id_value(input.tx_dg_id)->0,
                    rx_dg_id: dg_id_value(input.rx_dg_id)->0,
                    notes: clean_text(input.notes)->0,
                },
            ),
        }
    }

    /// Trims all text, preserves the spelling/case of open YSF names, and
    /// uppercases only the repeater callsign/routing identifier.
    pub fn from_input(input: YsfMetadataInput) -> (r: Result<Self, YsfValidationError>)
        ensures
            match r {
                Ok(m) => Self::spec_from_input(input@) == Ok::<YsfView, YsfValidationError>(m@),
                Err(e) => Self::spec_from_input(input@) == Err::<YsfView, YsfValidationError>(e),
            },
            (r is Ok && (optional_clean_text(input@.repeater, true) matches Some(Some(_))))
                ==> ascii_uppercasing(trim(input@.repeater)),
    {
        let access_type = YsfAccessType::parse_text(input.access_type.as_str())?;
        let repeater = optional_text(input.repeater.as_str(), YsfValidationError::InvalidRepeater, true)?;
        if access_type == YsfAccessType::Repeater && repeater.is_none() {
            return Err(YsfValidationError::RepeaterRequired);
        }
        let room = optional_text(input.room.as_str(), YsfValidationError::InvalidRoom, false)?;
        let wires_x_node = optional_text(
            input.wires_x_node.as_str(),
            YsfValidationError::InvalidWiresXNode,
            false,
        )?;
        let network = optional_text(input.network.as_str(), YsfValidationError::InvalidNetwork, false)?;
        let tx_dg_id = optional_dg_id(input.tx_dg_id.as_str(), YsfValidationError::InvalidTxDgId)?;
        let rx_dg_id = optional_dg_id(input.rx_dg_id.as_str(), YsfValidationError::InvalidRxDgId)?;
        let notes = required_text(input.notes.as_str(), YsfValidationError::InvalidNotes)?;
        Ok(YsfMetadata {
            room,
            wires_x_node,
            repeater,
            network,
            access_type,
            tx_dg_id,
            rx_dg_id,
            notes,
        })
    }
}

fn optional_text(value: &str, error: YsfValidationError, uppercase: bool) -> (r: Result<
    Option<String>,
    YsfValidationError,
>)
    ensures
        match r {
            Ok(v) => optional_clean_text(value@, uppercase) == Some(opt_view(v)),
            Err(e) => optional_clean_text(value@, uppercase) is None && e == error,
        },
        (uppercase && (r matches Ok(Some(_)))) ==> ascii_uppercasing(trim(value@)),
{
    let text = required_text(value, error)?;
    let chars = chars_of(text.as_str());
    if chars.len() == 0 {
        return Ok(None);
    }
    if uppercase {
        let upper = to_uppercase_vec(&chars);
        Ok(Some(string_of(&upper)))
    } else {
        Ok(Some(text))
    }
}

fn required_text(value: &str, error: YsfValidationError) -> (r: Result<String, YsfValidationError>)
    ensures
        match r {
            Ok(v) => clean_text(value@) == Some(v@),
            Err(e) => clean_text(value@) is None && e == error,
        },
{
    let chars = chars_of(value);
    if any_control(&chars) {
        return Err(error);
    }
    let t = trim_str(value);
    Ok(string_of(&t))
}

fn optional_dg_id(value: &str, error: YsfValidationError) -> (r: Result<Option<u8>, YsfValidationError>)
    ensures
        match r {
            Ok(v) => dg_id_value(value@) == Some(opt_u8_view(v)),
            Err(e) => dg_id_value(value@) is None && e == error,
        },
{
    let chars = chars_of(value);
    if any_control(&chars) {
        return Err(error);
    }
    let t = trim_str(value);
    if t.len() == 0 {
        return Ok(None);
    }
    if !all_digit_chars(&t) {
        return Err(error);
    }
    match parse_unsigned_vec(&t, u8::MAX as u64) {
        Some(n) => if n <= 99 {
            Ok(Some(n as u8))
        } else {
            Err(error)
        },
        None => Err(error),
    }
}

} // verus!
