//! The logbook list: paging and the text of each row.
use vstd::prelude::*;

use crate::calendar::formatted_timestamp;
use crate::database::{QsoListItem, DEFAULT_PAGE_SIZE};
use crate::domain::dmr::DmrView;
use crate::domain::ft8::Ft8View;
use crate::domain::{DmrMetadata, Ft8Metadata, ModeMetadata};
use crate::frequency::mhz_text;
use crate::logbook::datetime_frequency::{format_frequency, format_frequency_input, format_utc_datetime};
use crate::text::{clone_string, decimal, int_decimal, opt_view, owned, push_signed, push_str, push_unsigned};

verus! {

/// The offset of the last page that holds results (0 when there is none).
pub open spec fn spec_clamp_page_offset(offset: int, total: int, limit: int) -> int {
    if total == 0 || limit == 0 {
        0
    } else {
        let last = (total - 1) / limit * limit;
        if offset < last {
            offset
        } else {
            last
        }
    }
}

/// Moves an offset back onto the last page when it points past the
/// results: the result never exceeds the offset, starts a page, and points
/// at a result when there is one.
pub fn clamp_page_offset(offset: usize, total: usize, limit: usize) -> (r: usize)
    ensures
        r == spec_clamp_page_offset(offset as int, total as int, limit as int),
        r <= offset,
        total > 0 && limit > 0 ==> r < total,
        total > 0 && limit > 0 && offset < total && offset % limit == 0 ==> r == offset,
        limit > 0 ==> r % limit == 0 || r == offset,
{
    if total == 0 || limit == 0 {
        0
    } else {
        let quotient = (total - 1) / limit;
        proof {
            let t = total as int - 1;
            let l = limit as int;
            vstd::arithmetic::div_mod::lemma_fundamental_div_mod(t, l);
            assert(quotient * l <= t) by (nonlinear_arith)
                requires
                    t == l * quotient + t % l,
                    0 <= t % l,
            ;
        }
        let last = quotient * limit;
        proof {
            let t = total as int - 1;
            let l = limit as int;
            let q = t / l;
            vstd::arithmetic::div_mod::lemma_fundamental_div_mod(t, l);
            assert(0 <= t % l < l);
            assert(q * l <= t);
            assert(last == q * l);
            vstd::arithmetic::div_mod::lemma_mod_multiples_basic(q, l);
            assert(last % limit == 0);
            if offset < total && offset % limit == 0 && offset >= last {
                let o = offset as int;
                vstd::arithmetic::div_mod::lemma_fundamental_div_mod(o, l);
                let p = o / l;
                assert(o == l * p);
                if p > q {
                    let r = t % l;
                    assert(false) by (nonlinear_arith)
                        requires
                            o == l * p,
                            o <= t,
                            p >= q + 1,
                            t == l * q + r,
                            r < l,
                            l > 0,
                    ;
                }
                assert(p <= q);
                vstd::arithmetic::mul::lemma_mul_inequality(p, q, l);
                assert(o <= last) by (nonlinear_arith)
                    requires
                        o == l * p,
                        p * l <= q * l,
                        last == q * l,
                ;
            }
        }
        if offset < last {
            offset
        } else {
            last
        }
    }
}

/// The number of pages that hold the results.
pub open spec fn spec_page_count(total: int, limit: int) -> int {
    if total == 0 || limit == 0 {
        0
    } else {
        1 + (total - 1) / limit
    }
}

/// How many pages the results fill, computed without overflow: every result
/// falls on one of them and none of them is empty.
pub fn page_count(total: usize, limit: usize) -> (r: usize)
    ensures
        r == spec_page_count(total as int, limit as int),
        limit > 0 ==> r * limit >= total,
        limit > 0 && r > 0 ==> (r - 1) * limit < total,
{
    if total == 0 || limit == 0 {
        0
    } else {
        let q = (total - 1) / limit;
        proof {
            let t = total as int - 1;
            let l = limit as int;
            vstd::arithmetic::div_mod::lemma_fundamental_div_mod(t, l);
            assert(q == t / l);
            assert(q * l <= t) by (nonlinear_arith)
                requires
                    t == l * q + t % l,
                    0 <= t % l,
            ;
            assert(t < (q + 1) * l) by (nonlinear_arith)
                requires
                    t == l * q + t % l,
                    t % l < l,
            ;
            assert(q <= t) by (nonlinear_arith)
                requires
                    q * l <= t,
                    l >= 1,
                    q >= 0,
            ;
        }
        1 + q
    }
}

/// A count as a Slint `int`: values past `i32::MAX` become `i32::MAX`.
pub fn saturating_i32(value: usize) -> (r: i32)
    ensures
        value <= i32::MAX ==> r == value,
        value > i32::MAX ==> r == i32::MAX,
{
    if value <= i32::MAX as usize {
        value as i32
    } else {
        i32::MAX
    }
}

/// The one-based number of the page an offset starts (0 when there are no
/// pages).
pub fn page_number(offset: usize, limit: usize, page_count: usize) -> (r: usize)
    requires
        page_count > 0 ==> limit > 0 && (offset as int) / (limit as int) < usize::MAX,
    ensures
        r == (if page_count == 0 {
            0
        } else {
            (offset as int) / (limit as int) + 1
        }),
{
    if page_count == 0 {
        0
    } else {
        offset / limit + 1
    }
}

/// The offset of the previous page.
pub fn previous_page_offset(offset: usize) -> (r: usize)
    ensures
        r == (if offset >= DEFAULT_PAGE_SIZE {
            offset - DEFAULT_PAGE_SIZE
        } else {
            0
        }),
{
    offset.saturating_sub(DEFAULT_PAGE_SIZE)
}

/// The offset of the next page.
pub fn next_page_offset(offset: usize) -> (r: usize)
    ensures
        r == (if offset + DEFAULT_PAGE_SIZE <= usize::MAX {
            offset + DEFAULT_PAGE_SIZE
        } else {
            usize::MAX as int
        }),
{
    offset.saturating_add(DEFAULT_PAGE_SIZE)
}

// ---------------------------------------------------------------------------
// Row text
// ---------------------------------------------------------------------------

/// An optional number in decimal, empty when absent.
pub open spec fn number_text(v: Option<int>) -> Seq<char> {
    match v {
        Some(n) => int_decimal(n),
        None => Seq::empty(),
    }
}

pub open spec fn text_or_empty(v: Option<Seq<char>>) -> Seq<char> {
    match v {
        Some(t) => t,
        None => Seq::empty(),
    }
}

/// Parts joined with a separator.
pub open spec fn joined(parts: Seq<Seq<char>>, separator: Seq<char>) -> Seq<char>
    decreases parts.len(),
{
    if parts.len() == 0 {
        Seq::empty()
    } else if parts.len() == 1 {
        parts[0]
    } else {
        joined(parts.drop_last(), separator) + separator + parts.last()
    }
}

/// The route of a DMR QSO: the repeater, else the hotspot, else the access
/// type; then the network and `TG n`, joined by ` → `.
pub open spec fn dmr_route_parts(m: DmrView) -> Seq<Seq<char>> {
    let access = match m.repeater_callsign {
        Some(r) => r,
        None => match m.hotspot {
            Some(h) => h,
            None => m.access_type.spec_as_str(),
        },
    };
    seq![access] + (match m.network {
        Some(n) => seq![n],
        None => Seq::empty(),
    }) + (match m.talkgroup {
        Some(t) => seq!["TG "@ + decimal(t)],
        None => Seq::empty(),
    })
}

pub open spec fn dmr_route_text(m: DmrView) -> Seq<char> {
    joined(dmr_route_parts(m), " → "@)
}

/// The summary of an FT8 QSO: `SNR n dB`, `n W` and the final message,
/// each when known, joined by ` · `.
pub open spec fn ft8_summary_parts(m: Ft8View) -> Seq<Seq<char>> {
    (match m.snr_received_db {
        Some(s) => seq!["SNR "@ + int_decimal(s) + " dB"@],
        None => Seq::empty(),
    }) + (match m.power_watts {
        Some(p) => seq![decimal(p) + " W"@],
        None => Seq::empty(),
    }) + (match m.final_message {
        Some(t) => seq![t],
        None => Seq::empty(),
    })
}

pub open spec fn ft8_summary_text(m: Ft8View) -> Seq<char> {
    joined(ft8_summary_parts(m), " · "@)
}

pub proof fn lemma_joined_push(parts: Seq<Seq<char>>, separator: Seq<char>, p: Seq<char>)
    ensures
        joined(parts.push(p), separator) == if parts.len() == 0 {
            p
        } else {
            joined(parts, separator) + separator + p
        },
{
    assert(parts.push(p).drop_last() =~= parts);
    if parts.len() == 0 {
        assert(parts.push(p) =~= seq![p]);
    }
}

/// Appends a part to a text being joined.
fn push_part(s: &mut String, first: bool, separator: &str, part: &String)
    ensures
        final(s)@ == if first {
            old(s)@ + part@
        } else {
            old(s)@ + separator@ + part@
        },
{
    if !first {
        push_str(s, separator);
    }
    push_str(s, part.as_str());
}

/// The route summary of a DMR QSO.
pub fn format_dmr_route(metadata: &DmrMetadata) -> (s: String)
    ensures
        s@ == dmr_route_text(metadata@),
{
    let access = match &metadata.repeater_callsign {
        Some(r) => clone_string(r),
        None => match &metadata.hotspot {
            Some(h) => clone_string(h),
            None => owned(metadata.access_type.as_str()),
        },
    };
    let ghost m = metadata@;
    let mut s = clone_string(&access);
    let ghost mut parts: Seq<Seq<char>> = seq![access@];
    proof {
        lemma_joined_push(Seq::empty(), " → "@, access@);
        assert(Seq::<Seq<char>>::empty().push(access@) =~= parts);
    }
    match &metadata.network {
        Some(n) => {
            push_part(&mut s, false, " → ", n);
            proof {
                lemma_joined_push(parts, " → "@, n@);
                parts = parts.push(n@);
            }
        },
        None => {},
    }
    match metadata.talkgroup {
        Some(t) => {
            let mut part = owned("TG ");
            push_unsigned(&mut part, t as u64);
            push_part(&mut s, false, " → ", &part);
            proof {
                lemma_joined_push(parts, " → "@, part@);
                parts = parts.push(part@);
            }
        },
        None => {},
    }
    assert(parts =~= dmr_route_parts(m));
    s
}

/// The summary of an FT8 QSO.
pub fn format_ft8_summary(metadata: &Ft8Metadata) -> (s: String)
    ensures
        s@ == ft8_summary_text(metadata@),
{
    let mut s = String::new();
    let mut first = true;
    let ghost mut parts: Seq<Seq<char>> = Seq::empty();
    match metadata.snr_received_db {
        Some(snr) => {
            let mut part = owned("SNR ");
            push_signed(&mut part, snr as i64);
            push_str(&mut part, " dB");
            push_part(&mut s, first, " · ", &part);
            proof {
                lemma_joined_push(parts, " · "@, part@);
                parts = parts.push(part@);
            }
            first = false;
        },
        None => {},
    }
    match metadata.power_watts {
        Some(power) => {
            let mut part = String::new();
            push_unsigned(&mut part, power as u64);
            push_str(&mut part, " W");
            push_part(&mut s, first, " · ", &part);
            proof {
                lemma_joined_push(parts, " · "@, part@);
                parts = parts.push(part@);
            }
            first = false;
        },
        None => {},
    }
    match &metadata.final_message {
        Some(message) => {
            push_part(&mut s, first, " · ", message);
            proof {
                lemma_joined_push(parts, " · "@, message@);
                parts = parts.push(message@);
            }
        },
        None => {},
    }
    assert(parts =~= ft8_summary_parts(metadata@));
    s
}

/// The text of one row of the logbook list.
#[derive(Debug, Clone, Default, PartialEq, Eq)]
pub struct QsoRowText {
    pub id: String,
    pub callsign: String,
    pub timestamp: String,
    pub datetime_input: String,
    pub frequency: String,
    pub frequency_input: String,
    pub band: String,
    pub rst_sent: String,
    pub rst_received: String,
    pub grid: String,
    pub name: String,
    pub qth: String,
    pub mode: String,
    pub notes: String,
    pub route_summary: String,
    pub dmr_remote_id: String,
    pub dmr_local_id: String,
    pub dmr_talkgroup: String,
    pub dmr_timeslot: String,
    pub dmr_color_code: String,
    pub dmr_network: String,
    pub dmr_repeater: String,
    pub dmr_hotspot: String,
    pub dmr_call_type: String,
    pub dmr_access_type: String,
    pub dmr_notes: String,
    pub ft8_snr_sent: String,
    pub ft8_snr_received: String,
    pub ft8_power: String,
    pub ft8_audio_frequency: String,
    pub ft8_source_software: String,
    pub ft8_protocol: String,
    pub ft8_final_message: String,
}

/// The DMR metadata of a list item, if it has one.
pub open spec fn item_dmr(item: QsoListItem) -> Option<DmrView> {
    match item.metadata {
        ModeMetadata::Dmr(m) => Some(m@),
        _ => None,
    }
}

/// The FT8 metadata of a list item, if it has one.
pub open spec fn item_ft8(item: QsoListItem) -> Option<Ft8View> {
    match item.metadata {
        ModeMetadata::Ft8(m) => Some(m@),
        _ => None,
    }
}

/// The route summary of a row: the DMR route, else the FT8 summary.
pub open spec fn route_summary_text(item: QsoListItem) -> Seq<char> {
    match item_dmr(item) {
        Some(d) => dmr_route_text(d),
        None => match item_ft8(item) {
            Some(f) => ft8_summary_text(f),
            None => Seq::empty(),
        },
    }
}

pub open spec fn nat_number(v: Option<nat>) -> Option<int> {
    match v {
        Some(n) => Some(n as int),
        None => None,
    }
}

fn optional_number(value: Option<i64>) -> (s: String)
    ensures
        s@ == number_text(match value {
            Some(n) => Some(n as int),
            None => None,
        }),
{
    let mut s = String::new();
    match value {
        Some(n) => {
            push_signed(&mut s, n);
            assert(s@ =~= int_decimal(n as int));
        },
        None => {},
    }
    s
}

fn optional_string(value: &Option<String>) -> (s: String)
    ensures
        s@ == text_or_empty(opt_view(*value)),
{
    match value {
        Some(v) => clone_string(v),
        None => String::new(),
    }
}

fn widen_u32(v: Option<u32>) -> (r: Option<i64>)
    ensures
        match r {
            Some(n) => v is Some && n == v->0,
            None => v is None,
        },
{
    match v {
        Some(n) => Some(n as i64),
        None => None,
    }
}

fn widen_u8(v: Option<u8>) -> (r: Option<i64>)
    ensures
        match r {
            Some(n) => v is Some && n == v->0,
            None => v is None,
        },
{
    match v {
        Some(n) => Some(n as i64),
        None => None,
    }
}

fn widen_i16(v: Option<i16>) -> (r: Option<i64>)
    ensures
        match r {
            Some(n) => v is Some && n == v->0,
            None => v is None,
        },
{
    match v {
        Some(n) => Some(n as i64),
        None => None,
    }
}

/// The text of a list row: the start as `YYYY-MM-DD HH:MM:SS UTC`, the
/// frequency in MHz, absent values as empty text, and the DMR or FT8
/// metadata when the QSO has it. Fails only when the start cannot be
/// written as a date.
pub fn row_text(item: &QsoListItem) -> (r: Result<QsoRowText, String>)
    ensures
        match r {
            Ok(row) => {
                let q = item.qso;
                let dmr = item_dmr(*item);
                let ft8 = item_ft8(*item);
                &&& row.id@ == int_decimal(q.id as int)
                &&& row.callsign@ == q.callsign@
                &&& formatted_timestamp(q.datetime_start_utc, "%Y-%m-%d %H:%M:%S UTC"@) == Some(
                    row.timestamp@,
                )
                &&& row.datetime_input@ == row.timestamp@
                &&& row.frequency@ == mhz_text(q.frequency_hz as int) + " MHz"@
                &&& row.frequency_input@ == mhz_text(q.frequency_hz as int)
                &&& row.band@ == text_or_empty(opt_view(q.band))
                &&& row.rst_sent@ == text_or_empty(opt_view(q.rst_sent))
                &&& row.rst_received@ == text_or_empty(opt_view(q.rst_received))
                &&& row.grid@ == text_or_empty(opt_view(q.grid_locator))
                &&& row.name@ == text_or_empty(opt_view(q.name))
                &&& row.qth@ == text_or_empty(opt_view(q.qth))
                &&& row.mode@ == q.mode@
                &&& row.notes@ == q.notes@
                &&& row.route_summary@ == route_summary_text(*item)
                &&& row.dmr_remote_id@ == number_text(match dmr { Some(d) => nat_number(d.remote_dmr_id), None => None })
                &&& row.dmr_local_id@ == number_text(match dmr { Some(d) => nat_number(d.local_dmr_id), None => None })
                &&& row.dmr_talkgroup@ == number_text(match dmr { Some(d) => nat_number(d.talkgroup), None => None })
                &&& row.dmr_timeslot@ == number_text(match dmr { Some(d) => nat_number(d.timeslot), None => None })
                &&& row.dmr_color_code@ == number_text(match dmr { Some(d) => nat_number(d.color_code), None => None })
                &&& row.dmr_network@ == text_or_empty(match dmr { Some(d) => d.network, None => None })
                &&& row.dmr_repeater@ == text_or_empty(match dmr { Some(d) => d.repeater_callsign, None => None })
                &&& row.dmr_hotspot@ == text_or_empty(match dmr { Some(d) => d.hotspot, None => None })
                &&& row.dmr_call_type@ == match dmr { Some(d) => d.call_type.spec_as_str(), None => Seq::empty() }
                &&& row.dmr_access_type@ == match dmr { Some(d) => d.access_type.spec_as_str(), None => Seq::empty() }
                &&& row.dmr_notes@ == match dmr { Some(d) => d.notes, None => Seq::empty() }
                &&& row.ft8_snr_sent@ == number_text(match ft8 { Some(f) => f.snr_sent_db, None => None })
                &&& row.ft8_snr_received@ == number_text(match ft8 { Some(f) => f.snr_received_db, None => None })
                &&& row.ft8_power@ == number_text(match ft8 { Some(f) => nat_number(f.power_watts), None => None })
                &&& row.ft8_audio_frequency@ == number_text(match ft8 { Some(f) => nat_number(f.audio_frequency_hz), None => None })
                &&& row.ft8_source_software@ == text_or_empty(match ft8 { Some(f) => f.source_software, None => None })
                &&& row.ft8_protocol@ == text_or_empty(match ft8 { Some(f) => f.protocol, None => None })
                &&& row.ft8_final_message@ == text_or_empty(match ft8 { Some(f) => f.final_message, None => None })
            },
            Err(e) => formatted_timestamp(item.qso.datetime_start_utc, "%Y-%m-%d %H:%M:%S UTC"@)
                is None && e@ == "UTC timestamp is out of range"@,
        },
{
    let q = &item.qso;
    let datetime = format_utc_datetime(q.datetime_start_utc)?;
    let mut id = String::new();
    push_signed(&mut id, q.id);
    let mut row = QsoRowText {
        id,
        callsign: clone_string(&q.callsign),
        timestamp: clone_string(&datetime),
        datetime_input: datetime,
        frequency: format_frequency(q.frequency_hz),
        frequency_input: format_frequency_input(q.frequency_hz),
        band: optional_string(&q.band),
        rst_sent: optional_string(&q.rst_sent),
        rst_received: optional_string(&q.rst_received),
        grid: optional_string(&q.grid_locator),
        name: optional_string(&q.name),
        qth: optional_string(&q.qth),
        mode: clone_string(&q.mode),
        notes: clone_string(&q.notes),
        route_summary: String::new(),
        dmr_remote_id: String::new(),
        dmr_local_id: String::new(),
        dmr_talkgroup: String::new(),
        dmr_timeslot: String::new(),
        dmr_color_code: String::new(),
        dmr_network: String::new(),
        dmr_repeater: String::new(),
        dmr_hotspot: String::new(),
        dmr_call_type: String::new(),
        dmr_access_type: String::new(),
        dmr_notes: String::new(),
        ft8_snr_sent: String::new(),
        ft8_snr_received: String::new(),
        ft8_power: String::new(),
        ft8_audio_frequency: String::new(),
        ft8_source_software: String::new(),
        ft8_protocol: String::new(),
        ft8_final_message: String::new(),
    };
    match &item.metadata {
        ModeMetadata::Dmr(d) => {
            row.route_summary = format_dmr_route(d);
            row.dmr_remote_id = optional_number(widen_u32(d.remote_dmr_id));
            row.dmr_local_id = optional_number(widen_u32(d.local_dmr_id));
            row.dmr_talkgroup = optional_number(widen_u32(d.talkgroup));
            row.dmr_timeslot = optional_number(widen_u8(d.timeslot));
            row.dmr_color_code = optional_number(widen_u8(d.color_code));
            row.dmr_network = optional_string(&d.network);
            row.dmr_repeater = optional_string(&d.repeater_callsign);
            row.dmr_hotspot = optional_string(&d.hotspot);
            row.dmr_call_type = owned(d.call_type.as_str());
            row.dmr_access_type = owned(d.access_type.as_str());
            row.dmr_notes = clone_string(&d.notes);
        },
        ModeMetadata::Ft8(f) => {
            row.route_summary = format_ft8_summary(f);
            row.ft8_snr_sent = optional_number(widen_i16(f.snr_sent_db));
            row.ft8_snr_received = optional_number(widen_i16(f.snr_received_db));
            row.ft8_power = optional_number(widen_u32(f.power_watts));
            row.ft8_audio_frequency = optional_number(widen_u32(f.audio_frequency_hz));
            row.ft8_source_software = optional_string(&f.source_software);
            row.ft8_protocol = optional_string(&f.protocol);
            row.ft8_final_message = optional_string(&f.final_message);
        },
        _ => {},
    }
    Ok(row)
}

} // verus!
