//! Search filters as the operator types them.
use vstd::prelude::*;

use crate::calendar::parsed_datetime_parts;
use crate::database::{DmrFilter, Ft8Filter};
use crate::logbook::datetime_frequency::{parse_utc_datetime, spec_parse_utc_datetime};
use crate::text::{
    opt_view, optional_text, optional_trimmed, owned, parse_signed, parse_signed_vec,
    parse_unsigned, parse_unsigned_vec, push_str, trim, trim_str,
};

verus! {

/// An optional positive 32-bit number: `Ok(None)` when blank.
pub open spec fn spec_optional_positive_u32(input: Seq<char>, field_name: Seq<char>) -> Result<
    Option<nat>,
    Seq<char>,
> {
    if trim(input).len() == 0 {
        Ok(None)
    } else {
        match parse_unsigned(trim(input), u32::MAX as nat) {
            Some(n) => if n == 0 {
                Err(field_name + " must be a positive integer"@)
            } else {
                Ok(Some(n))
            },
            None => Err(field_name + " must be a positive integer"@),
        }
    }
}

pub open spec fn opt_u32(v: Option<u32>) -> Option<nat> {
    match v {
        Some(n) => Some(n as nat),
        None => None,
    }
}

/// Reads an optional positive number for a filter field.
pub fn parse_optional_positive_u32(input: &str, field_name: &str) -> (r: Result<
    Option<u32>,
    String,
>)
    ensures
        match r {
            Ok(v) => spec_optional_positive_u32(input@, field_name@) == Ok::<_, Seq<char>>(
                opt_u32(v),
            ),
            Err(e) => spec_optional_positive_u32(input@, field_name@) == Err::<Option<nat>, _>(
                e@,
            ),
        },
{
    let t = trim_str(input);
    if t.len() == 0 {
        return Ok(None);
    }
    match parse_unsigned_vec(&t, u32::MAX as u64) {
        Some(n) => if n == 0 {
            Err(positive_message(field_name))
        } else {
            Ok(Some(n as u32))
        },
        None => Err(positive_message(field_name)),
    }
}

fn positive_message(field_name: &str) -> (s: String)
    ensures
        s@ == field_name@ + " must be a positive integer"@,
{
    let mut s = owned(field_name);
    push_str(&mut s, " must be a positive integer");
    s
}

/// An optional timeslot: 1 or 2, `Ok(None)` when blank.
pub open spec fn spec_optional_timeslot(input: Seq<char>) -> Result<Option<nat>, Seq<char>> {
    if trim(input).len() == 0 {
        Ok(None)
    } else {
        match parse_unsigned(trim(input), u8::MAX as nat) {
            Some(n) => if 1 <= n <= 2 {
                Ok(Some(n))
            } else {
                Err("Timeslot filter must be 1 or 2"@)
            },
            None => Err("Timeslot filter must be 1 or 2"@),
        }
    }
}

pub open spec fn opt_u8(v: Option<u8>) -> Option<nat> {
    match v {
        Some(n) => Some(n as nat),
        None => None,
    }
}

pub fn parse_optional_timeslot(input: &str) -> (r: Result<Option<u8>, String>)
    ensures
        match r {
            Ok(v) => spec_optional_timeslot(input@) == Ok::<_, Seq<char>>(opt_u8(v)),
            Err(e) => spec_optional_timeslot(input@) == Err::<Option<nat>, _>(e@),
        },
{
    let t = trim_str(input);
    if t.len() == 0 {
        return Ok(None);
    }
    match parse_unsigned_vec(&t, u8::MAX as u64) {
        Some(n) => if 1 <= n && n <= 2 {
            Ok(Some(n as u8))
        } else {
            Err(owned("Timeslot filter must be 1 or 2"))
        },
        None => Err(owned("Timeslot filter must be 1 or 2")),
    }
}

/// Filter text: trimmed, `None` when blank.
pub fn optional_filter_text(input: &str) -> (r: Option<String>)
    ensures
        opt_view(r) == optional_text(input@),
{
    optional_trimmed(input)
}

/// An optional received-report bound in dB: an `i16` within `-50..=50`.
pub open spec fn spec_optional_snr(input: Seq<char>) -> Result<Option<int>, Seq<char>> {
    if trim(input).len() == 0 {
        Ok(None)
    } else {
        match parse_signed(trim(input), 32768, 32767) {
            Some(n) => if -50 <= n <= 50 {
                Ok(Some(n))
            } else {
                Err("SNR filter must be between -50 and 50 dB"@)
            },
            None => Err("SNR filter must be an integer"@),
        }
    }
}

pub open spec fn opt_i16(v: Option<i16>) -> Option<int> {
    match v {
        Some(n) => Some(n as int),
        None => None,
    }
}

pub fn parse_optional_snr(input: &str) -> (r: Result<Option<i16>, String>)
    ensures
        match r {
            Ok(v) => spec_optional_snr(input@) == Ok::<_, Seq<char>>(opt_i16(v)),
            Err(e) => spec_optional_snr(input@) == Err::<Option<int>, _>(e@),
        },
{
    let t = trim_str(input);
    if t.len() == 0 {
        return Ok(None);
    }
    match parse_signed_vec(&t, 32768, 32767) {
        Some(n) => if -50 <= n && n <= 50 {
            Ok(Some(n as i16))
        } else {
            Err(owned("SNR filter must be between -50 and 50 dB"))
        },
        None => Err(owned("SNR filter must be an integer")),
    }
}

/// An optional period bound: `Ok(None)` when blank, else a UTC date/time.
pub open spec fn spec_optional_utc_datetime(input: Seq<char>) -> Result<Option<int>, Seq<char>> {
    if trim(input).len() == 0 {
        Ok(None)
    } else {
        match spec_parse_utc_datetime(input) {
            Ok(t) => Ok(Some(t)),
            Err(e) => Err(e),
        }
    }
}

pub open spec fn opt_i64(v: Option<i64>) -> Option<int> {
    match v {
        Some(n) => Some(n as int),
        None => None,
    }
}

pub fn parse_optional_utc_datetime(input: &str) -> (r: Result<Option<i64>, String>)
    ensures
        match r {
            Ok(v) => spec_optional_utc_datetime(input@) == Ok::<_, Seq<char>>(opt_i64(v)),
            Err(e) => spec_optional_utc_datetime(input@) == Err::<Option<int>, _>(e@),
        },
{
    let t = trim_str(input);
    if t.len() == 0 {
        return Ok(None);
    }
    match parse_utc_datetime(input) {
        Ok(v) => Ok(Some(v)),
        Err(e) => Err(e),
    }
}

/// The texts of the DMR filter form.
pub struct DmrFilterText {
    pub dmr_id: String,
    pub talkgroup: String,
    pub network: String,
    pub repeater: String,
    pub hotspot: String,
    pub timeslot: String,
}

/// Builds a DMR filter from the form: the numbers are checked in the order
/// of the form (DMR ID, talkgroup, timeslot) and the texts trimmed.
pub fn dmr_filter_from_text(form: &DmrFilterText) -> (r: Result<DmrFilter, String>)
    ensures
        match r {
            Ok(f) => {
                &&& spec_optional_positive_u32(form.dmr_id@, "DMR ID"@) == Ok::<_, Seq<char>>(
                    opt_u32(f.dmr_id),
                )
                &&& spec_optional_positive_u32(form.talkgroup@, "Talkgroup"@) == Ok::<
                    _,
                    Seq<char>,
                >(opt_u32(f.talkgroup))
                &&& opt_view(f.network) == optional_text(form.network@)
                &&& opt_view(f.repeater) == optional_text(form.repeater@)
                &&& opt_view(f.hotspot) == optional_text(form.hotspot@)
                &&& spec_optional_timeslot(form.timeslot@) == Ok::<_, Seq<char>>(
                    opt_u8(f.timeslot),
                )
            },
            Err(e) => match spec_optional_positive_u32(form.dmr_id@, "DMR ID"@) {
                Err(m) => m == e@,
                Ok(_) => match spec_optional_positive_u32(form.talkgroup@, "Talkgroup"@) {
                    Err(m) => m == e@,
                    Ok(_) => spec_optional_timeslot(form.timeslot@) == Err::<Option<nat>, _>(
                        e@,
                    ),
                },
            },
        },
{
    let dmr_id = parse_optional_positive_u32(form.dmr_id.as_str(), "DMR ID")?;
    let talkgroup = parse_optional_positive_u32(form.talkgroup.as_str(), "Talkgroup")?;
    let network = optional_filter_text(form.network.as_str());
    let repeater = optional_filter_text(form.repeater.as_str());
    let hotspot = optional_filter_text(form.hotspot.as_str());
    let timeslot = parse_optional_timeslot(form.timeslot.as_str())?;
    Ok(DmrFilter { dmr_id, talkgroup, network, repeater, hotspot, timeslot })
}

/// The texts of the FT8 filter form.
pub struct Ft8FilterText {
    pub callsign: String,
    pub grid: String,
    pub band: String,
    pub minimum_snr: String,
    pub maximum_snr: String,
    pub start: String,
    pub end: String,
}

/// Builds an FT8 filter from the form; a minimum report above the maximum
/// is refused.
pub fn ft8_filter_from_text(form: &Ft8FilterText) -> (r: Result<Ft8Filter, String>)
    ensures
        match r {
            Ok(f) => {
                &&& opt_view(f.callsign) == optional_text(form.callsign@)
                &&& opt_view(f.grid) == optional_text(form.grid@)
                &&& opt_view(f.band) == optional_text(form.band@)
                &&& spec_optional_snr(form.minimum_snr@) == Ok::<_, Seq<char>>(
                    opt_i16(f.minimum_snr_received_db),
                )
                &&& spec_optional_snr(form.maximum_snr@) == Ok::<_, Seq<char>>(
                    opt_i16(f.maximum_snr_received_db),
                )
                &&& spec_optional_utc_datetime(form.start@) == Ok::<_, Seq<char>>(
                    opt_i64(f.start_utc),
                )
                &&& spec_optional_utc_datetime(form.end@) == Ok::<_, Seq<char>>(
                    opt_i64(f.end_utc),
                )
                &&& !(f.minimum_snr_received_db is Some && f.maximum_snr_received_db is Some
                    && f.minimum_snr_received_db->0 > f.maximum_snr_received_db->0)
            },
            Err(e) => match spec_optional_snr(form.minimum_snr@) {
                Err(m) => m == e@,
                Ok(minimum) => match spec_optional_snr(form.maximum_snr@) {
                    Err(m) => m == e@,
                    Ok(maximum) => match spec_optional_utc_datetime(form.start@) {
                        Err(m) => m == e@,
                        Ok(_) => match spec_optional_utc_datetime(form.end@) {
                            Err(m) => m == e@,
                            Ok(_) => minimum is Some && maximum is Some && minimum->0
                                > maximum->0 && e@ == "Minimum SNR cannot exceed maximum SNR"@,
                        },
                    },
                },
            },
        },
{
    let callsign = optional_filter_text(form.callsign.as_str());
    let grid = optional_filter_text(form.grid.as_str());
    let band = optional_filter_text(form.band.as_str());
    let minimum_snr_received_db = parse_optional_snr(form.minimum_snr.as_str())?;
    let maximum_snr_received_db = parse_optional_snr(form.maximum_snr.as_str())?;
    let start_utc = parse_optional_utc_datetime(form.start.as_str())?;
    let end_utc = parse_optional_utc_datetime(form.end.as_str())?;
    if let (Some(minimum), Some(maximum)) = (minimum_snr_received_db, maximum_snr_received_db) {
        if minimum > maximum {
            return Err(owned("Minimum SNR cannot exceed maximum SNR"));
        }
    }
    Ok(
        Ft8Filter {
            callsign,
            grid,
            band,
            minimum_snr_received_db,
            maximum_snr_received_db,
            start_utc,
            end_utc,
        },
    )
}

} // verus!
