//! Saving the QSO editor: what the form asks to store, and where.
use vstd::prelude::*;

use crate::domain::dmr::DmrInputView;
use crate::domain::mode_metadata::ModeMetadataView;
use crate::domain::qso::{spec_new_qso, spec_with_common_fields, CommonFieldsView, NewQsoView};
use crate::domain::{
    CommonQsoFields, DStarMetadata, DStarMetadataInput, DmrMetadata, DmrMetadataInput, Ft8Metadata,
    Ft8MetadataInput, ModeMetadata, NewQso, YsfMetadata, YsfMetadataInput,
};
use crate::frequency::{parse_i64, parse_i64_text};
use crate::logbook::datetime_frequency::{
    parse_mhz_to_hz, parse_utc_datetime, spec_parse_mhz_to_hz, spec_parse_utc_datetime,
};
use crate::logbook::editor::{canonical_mode, spec_canonical_mode};
use crate::text::{chars_of, clone_string, owned, vec_eq_str};

verus! {

/// The texts of the QSO editor. The DMR form has no RX/TX frequencies, so
/// those of `dmr` are not read.
pub struct QsoForm {
    /// The identifier of the QSO being edited; empty for a new QSO.
    pub editing_id: String,
    pub callsign: String,
    pub datetime: String,
    pub mode: String,
    pub frequency: String,
    pub common: CommonQsoFields,
    pub dmr: DmrMetadataInput,
    pub ft8: Ft8MetadataInput,
    pub dstar: DStarMetadataInput,
    pub ysf: YsfMetadataInput,
}

/// Whether a save adds a QSO or replaces a stored one.
#[derive(Debug, Clone, Copy, PartialEq, Eq, Structural)]
pub enum SaveTarget {
    Insert,
    Update(i64),
}

/// What a save stores.
pub struct SavePlan {
    pub qso: NewQso,
    pub metadata: ModeMetadata,
    pub target: SaveTarget,
}

/// The DMR input of the form, without RX/TX frequencies.
pub open spec fn dmr_form_input(d: DmrInputView) -> DmrInputView {
    DmrInputView { rx_frequency_hz: None, tx_frequency_hz: None, ..d }
}

/// The metadata the form's mode asks for (`DMR`, `DSTAR` or `D-STAR`,
/// `C4FM`, `FT8`), validated; generic for any other mode.
pub open spec fn form_metadata(mode: Seq<char>, form: QsoForm) -> Result<ModeMetadataView, Seq<char>> {
    if mode == "DMR"@ {
        match DmrMetadata::spec_from_input(dmr_form_input(form.dmr@)) {
            Ok(m) => Ok(ModeMetadataView::Dmr(m)),
            Err(e) => Err(e.spec_message()),
        }
    } else if mode == "DSTAR"@ || mode == "D-STAR"@ {
        match DStarMetadata::spec_from_input(form.dstar@) {
            Ok(m) => Ok(ModeMetadataView::Dstar(m)),
            Err(e) => Err(e.spec_message()),
        }
    } else if mode == "C4FM"@ {
        match YsfMetadata::spec_from_input(form.ysf@) {
            Ok(m) => Ok(ModeMetadataView::Ysf(m)),
            Err(e) => Err(e.spec_message()),
        }
    } else if mode == "FT8"@ {
        match Ft8Metadata::spec_from_input(form.ft8@) {
            Ok(m) => Ok(ModeMetadataView::Ft8(m)),
            Err(e) => Err(e.spec_message()),
        }
    } else {
        Ok(ModeMetadataView::Generic)
    }
}

/// A new QSO when no QSO is being edited, else the stored one whose
/// identifier the text gives.
pub open spec fn save_target(editing_id: Seq<char>) -> Result<SaveTarget, Seq<char>> {
    if editing_id.len() == 0 {
        Ok(SaveTarget::Insert)
    } else {
        match parse_i64_text(editing_id) {
            Ok(id) => Ok(SaveTarget::Update(id as i64)),
            Err(k) => Err(k.spec_message()),
        }
    }
}

/// What saving the form stores, or the first problem: the date/time, the
/// frequency, the QSO (the System Fusion names become `C4FM`), its common
/// fields, the metadata of its mode, then the identifier being edited.
pub open spec fn spec_plan_save(form: QsoForm) -> Result<
    (NewQsoView, ModeMetadataView, SaveTarget),
    Seq<char>,
> {
    match spec_parse_utc_datetime(form.datetime@) {
        Err(m) => Err(m),
        Ok(start) => match spec_parse_mhz_to_hz(form.frequency@) {
            Err(m) => Err(m),
            Ok(frequency) => match spec_new_qso(
                form.callsign@,
                start as i64,
                frequency as i64,
                spec_canonical_mode(form.mode@),
            ) {
                Err(e) => Err(e.spec_message()),
                Ok(base) => match spec_with_common_fields(base, form.common@) {
                    Err(e) => Err(e.spec_message()),
                    Ok(qso) => match form_metadata(qso.mode, form) {
                        Err(m) => Err(m),
                        Ok(metadata) => match save_target(form.editing_id@) {
                            Err(m) => Err(m),
                            Ok(target) => Ok((qso, metadata, target)),
                        },
                    },
                },
            },
        },
    }
}

fn copy_dmr_input(d: &DmrMetadataInput) -> (r: DmrMetadataInput)
    ensures
        r@ == dmr_form_input(d@),
{
    DmrMetadataInput {
        remote_dmr_id: clone_string(&d.remote_dmr_id),
        local_dmr_id: clone_string(&d.local_dmr_id),
        talkgroup: clone_string(&d.talkgroup),
        timeslot: clone_string(&d.timeslot),
        color_code: clone_string(&d.color_code),
        network: clone_string(&d.network),
        call_type: clone_string(&d.call_type),
        access_type: clone_string(&d.access_type),
        repeater_callsign: clone_string(&d.repeater_callsign),
        hotspot: clone_string(&d.hotspot),
        rx_frequency_hz: None,
        tx_frequency_hz: None,
        notes: clone_string(&d.notes),
    }
}

fn copy_common(c: &CommonQsoFields) -> (r: CommonQsoFields)
    ensures
        r@ == c@,
{
    CommonQsoFields {
        band_override: clone_string(&c.band_override),
        rst_sent: clone_string(&c.rst_sent),
        rst_received: clone_string(&c.rst_received),
        grid_locator: clone_string(&c.grid_locator),
        name: clone_string(&c.name),
        qth: clone_string(&c.qth),
        notes: clone_string(&c.notes),
    }
}

fn copy_dstar_input(d: &DStarMetadataInput) -> (r: DStarMetadataInput)
    ensures
        r@ == d@,
{
    DStarMetadataInput {
        reflector: clone_string(&d.reflector),
        module: clone_string(&d.module),
        mycall: clone_string(&d.mycall),
        urcall: clone_string(&d.urcall),
        rpt1: clone_string(&d.rpt1),
        rpt2: clone_string(&d.rpt2),
        notes: clone_string(&d.notes),
    }
}

fn copy_ysf_input(d: &YsfMetadataInput) -> (r: YsfMetadataInput)
    ensures
        r@ == d@,
{
    YsfMetadataInput {
        room: clone_string(&d.room),
        wires_x_node: clone_string(&d.wires_x_node),
        repeater: clone_string(&d.repeater),
        network: clone_string(&d.network),
        access_type: clone_string(&d.access_type),
        tx_dg_id: clone_string(&d.tx_dg_id),
        rx_dg_id: clone_string(&d.rx_dg_id),
        notes: clone_string(&d.notes),
    }
}

fn copy_ft8_input(d: &Ft8MetadataInput) -> (r: Ft8MetadataInput)
    ensures
        r@ == d@,
{
    Ft8MetadataInput {
        snr_sent_db: clone_string(&d.snr_sent_db),
        snr_received_db: clone_string(&d.snr_received_db),
        power_watts: clone_string(&d.power_watts),
        audio_frequency_hz: clone_string(&d.audio_frequency_hz),
        source_software: clone_string(&d.source_software),
        protocol: clone_string(&d.protocol),
        final_message: clone_string(&d.final_message),
    }
}

fn metadata_of_form(mode: &Vec<char>, form: &QsoForm) -> (r: Result<ModeMetadata, String>)
    ensures
        match r {
            Ok(m) => form_metadata(mode@, *form) == Ok::<_, Seq<char>>(m@),
            Err(e) => form_metadata(mode@, *form) == Err::<ModeMetadataView, _>(e@),
        },
{
    if vec_eq_str(mode, "DMR") {
        match DmrMetadata::from_input(copy_dmr_input(&form.dmr)) {
            Ok(m) => Ok(ModeMetadata::Dmr(m)),
            Err(e) => Err(e.message()),
        }
    } else if vec_eq_str(mode, "DSTAR") || vec_eq_str(mode, "D-STAR") {
        match DStarMetadata::from_input(copy_dstar_input(&form.dstar)) {
            Ok(m) => Ok(ModeMetadata::Dstar(m)),
            Err(e) => Err(e.message()),
        }
    } else if vec_eq_str(mode, "C4FM") {
        match YsfMetadata::from_input(copy_ysf_input(&form.ysf)) {
            Ok(m) => Ok(ModeMetadata::Ysf(m)),
            Err(e) => Err(e.message()),
        }
    } else if vec_eq_str(mode, "FT8") {
        match Ft8Metadata::from_input(copy_ft8_input(&form.ft8)) {
            Ok(m) => Ok(ModeMetadata::Ft8(m)),
            Err(e) => Err(e.message()),
        }
    } else {
        Ok(ModeMetadata::Generic)
    }
}

fn target_of(editing_id: &str) -> (r: Result<SaveTarget, String>)
    ensures
        match r {
            Ok(t) => save_target(editing_id@) == Ok::<_, Seq<char>>(t),
            Err(e) => save_target(editing_id@) == Err::<SaveTarget, _>(e@),
        },
{
    let id = chars_of(editing_id);
    if id.len() == 0 {
        return Ok(SaveTarget::Insert);
    }
    match parse_i64(&id) {
        Ok(n) => Ok(SaveTarget::Update(n)),
        Err(k) => Err(k.message()),
    }
}

/// Reads the editor into what a save stores (see `spec_plan_save`); the
/// message of the first problem otherwise.
pub fn plan_save(form: &QsoForm) -> (r: Result<SavePlan, String>)
    ensures
        match r {
            Ok(plan) => spec_plan_save(*form) == Ok::<_, Seq<char>>(
                (plan.qso@, plan.metadata@, plan.target),
            ),
            Err(e) => spec_plan_save(*form) == Err::<(NewQsoView, ModeMetadataView, SaveTarget), _>(
                e@,
            ),
        },
{
    let start = parse_utc_datetime(form.datetime.as_str())?;
    let frequency = parse_mhz_to_hz(form.frequency.as_str())?;
    let mode = canonical_mode(form.mode.as_str());
    let base = match NewQso::new(form.callsign.as_str(), start, frequency, mode.as_str()) {
        Ok(q) => q,
        Err(e) => return Err(e.message()),
    };
    let qso = match base.with_common_fields(copy_common(&form.common)) {
        Ok(q) => q,
        Err(e) => return Err(e.message()),
    };
    let qso_mode = chars_of(qso.mode.as_str());
    let metadata = metadata_of_form(&qso_mode, form)?;
    let target = target_of(form.editing_id.as_str())?;
    Ok(SavePlan { qso, metadata, target })
}

/// The status after a save: a new QSO is saved; an update is reported, or
/// refused when the edited QSO no longer exists.
pub fn save_outcome(target: SaveTarget, updated: bool) -> (r: Result<&'static str, &'static str>)
    ensures
        r == (match target {
            SaveTarget::Insert => Ok::<&'static str, &'static str>("QSO saved"),
            SaveTarget::Update(_) => if updated {
                Ok("QSO updated")
            } else {
                Err("QSO no longer exists")
            },
        }),
{
    match target {
        SaveTarget::Insert => Ok("QSO saved"),
        SaveTarget::Update(_) => if updated {
            Ok("QSO updated")
        } else {
            Err("QSO no longer exists")
        },
    }
}

} // verus!
