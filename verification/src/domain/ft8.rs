//! FT8 metadata: signal reports, power, audio offset and software.
use vstd::prelude::*;

use crate::text::{
    opt_view, optional_number, optional_signed, optional_text, optional_trimmed, owned,
    parse_optional_signed, parse_optional_unsigned,
};

verus! {

#[derive(Debug, Clone, PartialEq, Eq)]
pub struct Ft8Metadata {
    pub snr_sent_db: Option<i16>,
    pub snr_received_db: Option<i16>,
    pub power_watts: Option<u32>,
    pub audio_frequency_hz: Option<u32>,
    pub source_software: Option<String>,
    pub protocol: Option<String>,
    pub final_message: Option<String>,
}

#[derive(Debug, Clone, Default, PartialEq, Eq)]
pub struct Ft8MetadataInput {
    pub snr_sent_db: String,
    pub snr_received_db: String,
    pub power_watts: String,
    pub audio_frequency_hz: String,
    pub source_software: String,
    pub protocol: String,
    pub final_message: String,
}

/// The text of Ft8MetadataInput.
pub struct Ft8InputView {
    pub snr_sent_db: Seq<char>,
    pub snr_received_db: Seq<char>,
    pub power_watts: Seq<char>,
    pub audio_frequency_hz: Seq<char>,
    pub source_software: Seq<char>,
    pub protocol: Seq<char>,
    pub final_message: Seq<char>,
}

impl View for Ft8MetadataInput {
    type V = Ft8InputView;

    open spec fn view(&self) -> Ft8InputView {
        Ft8InputView {
            snr_sent_db: self.snr_sent_db@,
            snr_received_db: self.snr_received_db@,
            power_watts: self.power_watts@,
            audio_frequency_hz: self.audio_frequency_hz@,
            source_software: self.source_software@,
            protocol: self.protocol@,
            final_message: self.final_message@,
        }
    }
}

/// Validated Ft8Metadata as mathematical values.
pub struct Ft8View {
    pub snr_sent_db: Option<int>,
    pub snr_received_db: Option<int>,
    pub power_watts: Option<nat>,
    pub audio_frequency_hz: Option<nat>,
    pub source_software: Option<Seq<char>>,
    pub protocol: Option<Seq<char>>,
    pub final_message: Option<Seq<char>>,
}

impl View for Ft8Metadata {
    type V = Ft8View;

    open spec fn view(&self) -> Ft8View {
        Ft8View {
            snr_sent_db: opt_i16_view(self.snr_sent_db),
            snr_received_db: opt_i16_view(self.snr_received_db),
            power_watts: opt_u32_view(self.power_watts),
            audio_frequency_hz: opt_u32_view(self.audio_frequency_hz),
            source_software: opt_view(self.source_software),
            protocol: opt_view(self.protocol),
            final_message: opt_view(self.final_message),
        }
    }
}

#[derive(Debug, Clone, Copy, PartialEq, Eq, Structural)]
pub enum Ft8ValidationError {
    InvalidSnr,
    InvalidPower,
    InvalidAudioFrequency,
}

impl Ft8ValidationError {
    pub open spec fn spec_message(self) -> Seq<char> {
        match self {
            Ft8ValidationError::InvalidSnr => "FT8 SNR must be between -50 and 50 dB"@,
            Ft8ValidationError::InvalidPower => "FT8 power must be a positive integer"@,
            Ft8ValidationError::InvalidAudioFrequency => "FT8 audio frequency must be a positive integer"@,
        }
    }

    /// The message shown to the operator.
    pub fn message(&self) -> (s: String)
        ensures
            s@ == self.spec_message(),
    {
        match self {
            Ft8ValidationError::InvalidSnr => owned("FT8 SNR must be between -50 and 50 dB"),
            Ft8ValidationError::InvalidPower => owned("FT8 power must be a positive integer"),
            Ft8ValidationError::InvalidAudioFrequency => owned(
                "FT8 audio frequency must be a positive integer",
            ),
        }
    }
}

/// An optional signal report in dB: a 16-bit integer within `-50..=50`.
pub open spec fn snr_value(s: Seq<char>) -> Option<Option<int>> {
    match optional_signed(s, 32768, 32767) {
        Some(Some(v)) => if -50 <= v <= 50 {
            Some(Some(v))
        } else {
            None
        },
        other => other,
    }
}

/// An optional positive 32-bit number.
pub open spec fn positive_value(s: Seq<char>) -> Option<Option<nat>> {
    match optional_number(s, u32::MAX as nat) {
        Some(Some(n)) => if n == 0 {
            None
        } else {
            Some(Some(n))
        },
        other => other,
    }
}

pub open spec fn opt_i16_view(v: Option<i16>) -> Option<int> {
    match v {
        Some(n) => Some(n as int),
        None => None,
    }
}

pub open spec fn opt_u32_view(v: Option<u32>) -> Option<nat> {
    match v {
        Some(n) => Some(n as nat),
        None => None,
    }
}

impl Ft8Metadata {
    /// The first problem with the input, in the order the fields are
    /// checked, or `None` when it is valid.
    pub open spec fn input_error(input: Ft8InputView) -> Option<Ft8ValidationError> {
        if snr_value(input.snr_sent_db) is None || snr_value(input.snr_received_db) is None {
            Some(Ft8ValidationError::InvalidSnr)
        } else if positive_value(input.power_watts) is None {
            Some(Ft8ValidationError::InvalidPower)
        } else if positive_value(input.audio_frequency_hz) is None {
            Some(Ft8ValidationError::InvalidAudioFrequency)
        } else {
            None
        }
    }

    /// What validation gives for the input: the first problem, or the
    /// normalized metadata.
    pub open spec fn spec_from_input(input: Ft8InputView) -> Result<Ft8View, Ft8ValidationError> {
        match Self::input_error(input) {
            Some(e) => Err(e),
            None => Ok(
                Ft8View {
                    snr_sent_db: snr_value(input.snr_sent_db)->0,
                    snr_received_db: snr_value(input.snr_received_db)->0,
                    power_watts: positive_value(input.power_watts)->0,
                    audio_frequency_hz: positive_value(input.audio_frequency_hz)->0,
                    source_software: optional_text(input.source_software),
                    protocol: optional_text(input.protocol),
                    final_message: optional_text(input.final_message),
                },
            ),
        }
    }

    /// Validates and normalizes FT8 metadata: reports within ±50 dB,
    /// positive power and audio frequency, trimmed text (blank is `None`).
    pub fn from_input(input: Ft8MetadataInput) -> (r: Result<Self, Ft8ValidationError>)
        ensures
            match r {
                Ok(m) => Self::spec_from_input(input@) == Ok::<Ft8View, Ft8ValidationError>(m@),
                Err(e) => Self::spec_from_input(input@) == Err::<Ft8View, Ft8ValidationError>(e),
            },
    {
        let snr_sent_db = optional_snr(input.snr_sent_db.as_str())?;
        let snr_received_db = optional_snr(input.snr_received_db.as_str())?;
        let power_watts = optional_positive_u32(
            input.power_watts.as_str(),
            Ft8ValidationError::InvalidPower,
        )?;
        let audio_frequency_hz = optional_positive_u32(
            input.audio_frequency_hz.as_str(),
            Ft8ValidationError::InvalidAudioFrequency,
        )?;
        Ok(Ft8Metadata {
            snr_sent_db,
            snr_received_db,
            power_watts,
            audio_frequency_hz,
            source_software: optional_string(input.source_software.as_str()),
            protocol: optional_string(input.protocol.as_str()),
            final_message: optional_string(input.final_message.as_str()),
        })
    }
}

fn optional_snr(value: &str) -> (r: Result<Option<i16>, Ft8ValidationError>)
    ensures
        match r {
            Ok(v) => snr_value(value@) == Some(opt_i16_view(v)),
            Err(e) => snr_value(value@) is None && e == Ft8ValidationError::InvalidSnr,
        },
{
    match parse_optional_signed(value, 32768, 32767) {
        Some(Some(n)) => if -50 <= n && n <= 50 {
            Ok(Some(n as i16))
        } else {
            Err(Ft8ValidationError::InvalidSnr)
        },
        Some(None) => Ok(None),
        None => Err(Ft8ValidationError::InvalidSnr),
    }
}

fn optional_positive_u32(value: &str, error: Ft8ValidationError) -> (r: Result<
    Option<u32>,
    Ft8ValidationError,
>)
    ensures
        match r {
            Ok(v) => positive_value(value@) == Some(opt_u32_view(v)),
            Err(e) => positive_value(value@) is None && e == error,
        },
{
    match parse_optional_unsigned(value, u32::MAX as u64) {
        Some(Some(n)) => if n == 0 {
            Err(error)
        } else {
            Ok(Some(n as u32))
        },
        Some(None) => Ok(None),
        None => Err(error),
    }
}

fn optional_string(value: &str) -> (r: Option<String>)
    ensures
        opt_view(r) == optional_text(value@),
{
    optional_trimmed(value)
}

} // verus!
