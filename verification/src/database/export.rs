//! Writing stored QSOs as an ADIF document.
use vstd::prelude::*;

use super::page::QsoListItem;
use crate::adif::converter::{spec_domain_to_record, spec_record_to_domain, ImportedMetadataView, ImportedView};
use crate::adif::round_trip::exports_back;
use crate::adif::{
    domain_to_record, AdifConversionError, AdifDocument, AdifField, AdifRecord, FieldView,
    ImportedModeMetadata, ImportedQso,
};
use crate::domain::qso::NewQsoView;
use crate::domain::mode_metadata::ModeMetadataView;
use crate::domain::{ModeMetadata, NewQso, Qso};
use crate::text::{clone_opt_string, clone_string, opt_view, owned};

verus! {

/// The QSO part of a stored QSO.
pub open spec fn stored_qso_view(q: Qso) -> NewQsoView {
    NewQsoView {
        callsign: q.callsign@,
        datetime_start_utc: q.datetime_start_utc,
        frequency_hz: q.frequency_hz,
        band: opt_view(q.band),
        mode: q.mode@,
        rst_sent: opt_view(q.rst_sent),
        rst_received: opt_view(q.rst_received),
        grid_locator: opt_view(q.grid_locator),
        name: opt_view(q.name),
        qth: opt_view(q.qth),
        notes: q.notes@,
    }
}

/// A stored QSO as a new QSO (its identifier and times of writing left
/// out).
pub fn new_qso_from_stored(qso: &Qso) -> (q: NewQso)
    ensures
        q@ == stored_qso_view(*qso),
{
    NewQso {
        callsign: clone_string(&qso.callsign),
        datetime_start_utc: qso.datetime_start_utc,
        frequency_hz: qso.frequency_hz,
        band: clone_opt_string(&qso.band),
        mode: clone_string(&qso.mode),
        rst_sent: clone_opt_string(&qso.rst_sent),
        rst_received: clone_opt_string(&qso.rst_received),
        grid_locator: clone_opt_string(&qso.grid_locator),
        name: clone_opt_string(&qso.name),
        qth: clone_opt_string(&qso.qth),
        notes: clone_string(&qso.notes),
    }
}

/// The metadata ADIF carries for a stored QSO: DMR, D-STAR, FT8 and
/// System Fusion have their fields (System Fusion written as
/// `DIGITALVOICE` with the submode `C4FM`); any other mode has none.
pub open spec fn exported_metadata(m: ModeMetadata) -> ImportedMetadataView {
    match m {
        ModeMetadata::Dmr(d) => ImportedMetadataView::Dmr(d@),
        ModeMetadata::Dstar(d) => ImportedMetadataView::Dstar(d@),
        ModeMetadata::Ft8(f) => ImportedMetadataView::Ft8(f@),
        ModeMetadata::Ysf(y) => ImportedMetadataView::Ysf(y@),
        _ => ImportedMetadataView::Generic,
    }
}

/// A stored QSO with the fields its import kept, ready to be written.
pub open spec fn exported_view(item: QsoListItem, extra: Seq<FieldView>) -> ImportedView {
    ImportedView {
        qso: stored_qso_view(item.qso),
        mode_metadata: exported_metadata(item.metadata),
        extra_fields: extra,
    }
}

/// The header of an exported document.
pub open spec fn export_header(program_version: Seq<char>) -> Seq<FieldView> {
    seq![
        FieldView { name: "ADIF_VER"@, value: "3.1.4"@, data_type: None },
        FieldView { name: "PROGRAMID"@, value: "Digital Ham Radio Logbook"@, data_type: None },
        FieldView { name: "PROGRAMVERSION"@, value: program_version, data_type: None },
    ]
}

/// The records of the items written so far, or the first error.
pub open spec fn exported_records(items: Seq<(QsoListItem, Seq<FieldView>)>, n: nat) -> Result<
    Seq<Seq<FieldView>>,
    Seq<char>,
>
    decreases n,
{
    if n == 0 {
        Ok(Seq::empty())
    } else {
        match exported_records(items, (n - 1) as nat) {
            Err(e) => Err(e),
            Ok(records) => match spec_domain_to_record(
                exported_view(items[n - 1].0, items[n - 1].1),
            ) {
                Err(e) => Err(e),
                Ok(r) => Ok(records.push(r)),
            },
        }
    }
}

proof fn lemma_error_persists(items: Seq<(QsoListItem, Seq<FieldView>)>, k: nat, m: nat)
    requires
        k <= m,
        exported_records(items, k) is Err,
    ensures
        exported_records(items, m) == exported_records(items, k),
    decreases m - k,
{
    if k < m {
        lemma_error_persists(items, k, (m - 1) as nat);
    }
}

pub open spec fn items_view(items: Seq<(QsoListItem, Vec<AdifField>)>) -> Seq<
    (QsoListItem, Seq<FieldView>),
> {
    items.map_values(|item: (QsoListItem, Vec<AdifField>)| (item.0, crate::adif::fields_view(item.1@)))
}

fn field(name: &str, value: String) -> (f: AdifField)
    ensures
        f@ == (FieldView { name: name@, value: value@, data_type: None }),
{
    AdifField { name: owned(name), value, data_type: None }
}

/// Writes the selected QSOs as an ADIF document: a header naming the
/// program, then one record per QSO in the order given, each followed by
/// the fields its import kept. Fails on the first QSO whose start cannot be
/// written as a date.
/// The record of one stored QSO with the fields its import kept.
fn export_item(item: QsoListItem, extra: Vec<AdifField>) -> (r: Result<AdifRecord, AdifConversionError>)
    ensures
        match r {
            Ok(record) => spec_domain_to_record(exported_view(item, crate::adif::fields_view(extra@)))
                == Ok::<Seq<FieldView>, Seq<char>>(record@) && reads_back_as_item(
                record@,
                (item, crate::adif::fields_view(extra@)),
            ),
            Err(e) => spec_domain_to_record(exported_view(item, crate::adif::fields_view(extra@))) == Err::<
                Seq<FieldView>,
                Seq<char>,
            >(e.message@),
        },
{
    let ghost given = (item, crate::adif::fields_view(extra@));
    let mode_metadata = match item.metadata {
        ModeMetadata::Dmr(d) => ImportedModeMetadata::Dmr(d),
        ModeMetadata::Dstar(d) => ImportedModeMetadata::Dstar(d),
        ModeMetadata::Ft8(f) => ImportedModeMetadata::Ft8(f),
        ModeMetadata::Ysf(y) => ImportedModeMetadata::Ysf(y),
        _ => ImportedModeMetadata::Generic,
    };
    let imported = ImportedQso { qso: new_qso_from_stored(&item.qso), mode_metadata, extra_fields: extra };
    assert(imported@ == exported_view(given.0, given.1));
    let r = domain_to_record(&imported);
    if let Ok(record) = &r {
        proof {
            lemma_item_reads_back(record@, given);
        }
    }
    r
}

#[verifier::spinoff_prover]
#[verifier::rlimit(40)]
pub fn export_document(items: Vec<(QsoListItem, Vec<AdifField>)>, program_version: &str) -> (r:
    Result<AdifDocument, AdifConversionError>)
    ensures
        match r {
            Ok(document) => document@.header == Some(export_header(program_version@)) && exported_records(
                items_view(items@),
                items@.len(),
            ) == Ok::<_, Seq<char>>(document@.records),
            Err(e) => exported_records(items_view(items@), items@.len()) == Err::<
                Seq<Seq<FieldView>>,
                _,
            >(e.message@),
        },
        r is Ok ==> forall|k: int|
            0 <= k < items@.len() && exports_back(exported_view(items@[k].0, crate::adif::fields_view(items@[k].1@)))
                ==> spec_record_to_domain(#[trigger] r->Ok_0@.records[k]) == Ok::<ImportedView, Seq<char>>(
                exported_view(items@[k].0, crate::adif::fields_view(items@[k].1@)),
            ),
{
    let ghost all = items_view(items@);
    let ghost given = items@;
    let n = items.len();
    let mut records: Vec<AdifRecord> = Vec::new();
    let mut remaining = items;
    let mut i: usize = 0;
    assert(crate::adif::records_view(records@) =~= Seq::<Seq<FieldView>>::empty());
    assert(all.skip(0) =~= all);
    while i < n
        invariant
            n == all.len(),
            all == items_view(given),
            given == items@,
            i <= n,
            items_view(remaining@) == all.skip(i as int),
            exported_records(all, i as nat) == Ok::<_, Seq<char>>(
                crate::adif::records_view(records@),
            ),
            records@.len() == i,
            forall|k: int|
                0 <= k < i ==> reads_back_as_item(#[trigger] crate::adif::records_view(records@)[k], all[k]),
        decreases n - i,
    {
        assert(items_view(remaining@).len() == remaining@.len());
        let ghost before = remaining@;
        let (item, extra) = remaining.remove(0);
        assert(items_view(before)[0] == all[i as int]);
        assert(items_view(before)[0] == (before[0].0, crate::adif::fields_view(before[0].1@)));
        assert forall|k: int| 0 <= k < remaining@.len() implies #[trigger] items_view(
            remaining@,
        )[k] == all.skip(i + 1)[k] by {
            assert(remaining@[k] == before[k + 1]);
            assert(items_view(before)[k + 1] == all.skip(i as int)[k + 1]);
        }
        assert(items_view(remaining@) =~= all.skip(i + 1));
        let record = match export_item(item, extra) {
            Ok(record) => record,
            Err(e) => {
                proof {
                    assert(exported_records(all, (i + 1) as nat) == Err::<Seq<Seq<FieldView>>, Seq<char>>(
                        e.message@,
                    ));
                    lemma_error_persists(all, (i + 1) as nat, n as nat);
                }
                return Err(e);
            },
        };
        let ghost before_records = records@;
        records.push(record);
        assert(crate::adif::records_view(records@) =~= crate::adif::records_view(before_records).push(
            record@,
        ));
        proof {
            lemma_push_reads_back(crate::adif::records_view(before_records), record@, all, i as int);
        }
        i = i + 1;
    }
    let header = AdifRecord {
        fields: vec![
            field("ADIF_VER", owned("3.1.4")),
            field("PROGRAMID", owned("Digital Ham Radio Logbook")),
            field("PROGRAMVERSION", owned(program_version)),
        ],
    };
    assert(header@ =~= export_header(program_version@));
    let ghost records_kept = records@;
    let document = AdifDocument { header: Some(header), records };
    assert forall|k: int|
        0 <= k < given.len() && exports_back(exported_view(given[k].0, crate::adif::fields_view(given[k].1@)))
            implies spec_record_to_domain(#[trigger] document@.records[k]) == Ok::<ImportedView, Seq<char>>(
        exported_view(given[k].0, crate::adif::fields_view(given[k].1@)),
    ) by {
        assert(all[k] == (given[k].0, crate::adif::fields_view(given[k].1@)));
        assert(crate::adif::records_view(document.records@)[k] == document@.records[k]);
        assert(reads_back_as_item(crate::adif::records_view(records_kept)[k], all[k]));
        reveal(reads_back_as_item);
    }
    Ok(document)
}


/// A record that imports back as the item it was written for, where that
/// item is in the form an export writes back as itself.
#[verifier::opaque]
pub open spec fn reads_back_as_item(record: Seq<FieldView>, item: (QsoListItem, Seq<FieldView>)) -> bool {
    exports_back(exported_view(item.0, item.1)) ==> spec_record_to_domain(record) == Ok::<ImportedView, Seq<char>>(
        exported_view(item.0, item.1),
    )
}

proof fn lemma_push_reads_back(
    before: Seq<Seq<FieldView>>,
    record: Seq<FieldView>,
    all: Seq<(QsoListItem, Seq<FieldView>)>,
    i: int,
)
    requires
        before.len() == i,
        0 <= i < all.len(),
        forall|k: int| 0 <= k < i ==> reads_back_as_item(#[trigger] before[k], all[k]),
        reads_back_as_item(record, all[i]),
    ensures
        forall|k: int| 0 <= k < i + 1 ==> reads_back_as_item(#[trigger] before.push(record)[k], all[k]),
{
    assert forall|k: int| 0 <= k < i + 1 implies reads_back_as_item(#[trigger] before.push(record)[k], all[k]) by {
        if k < i {
            assert(before.push(record)[k] == before[k]);
        }
    }
}

proof fn lemma_item_reads_back(record: Seq<FieldView>, item: (QsoListItem, Seq<FieldView>))
    requires
        exports_back(exported_view(item.0, item.1)) ==> spec_record_to_domain(record) == Ok::<
            ImportedView,
            Seq<char>,
        >(exported_view(item.0, item.1)),
    ensures
        reads_back_as_item(record, item),
{
    reveal(reads_back_as_item);
}

/// A stored QSO's metadata and the metadata written for it are of the same
/// kind and hold the same values.
pub open spec fn same_metadata(m: ModeMetadataView, v: ImportedMetadataView) -> bool {
    match (m, v) {
        (ModeMetadataView::Generic, ImportedMetadataView::Generic) => true,
        (ModeMetadataView::Dmr(a), ImportedMetadataView::Dmr(b)) => a == b,
        (ModeMetadataView::Ft8(a), ImportedMetadataView::Ft8(b)) => a == b,
        (ModeMetadataView::Dstar(a), ImportedMetadataView::Dstar(b)) => a == b,
        (ModeMetadataView::Ysf(a), ImportedMetadataView::Ysf(b)) => a == b,
        _ => false,
    }
}

/// Each exported record is the record of the item's own QSO, with the
/// item's own metadata (same kind, same values) and the fields its import
/// kept, in the order of the items.
pub proof fn law_export_keeps_each_item(items: Seq<(QsoListItem, Seq<FieldView>)>, n: nat, k: int)
    requires
        n <= items.len(),
        exported_records(items, n) is Ok,
        0 <= k < n,
    ensures
        exported_records(items, n)->Ok_0.len() == n,
        spec_domain_to_record(exported_view(items[k].0, items[k].1)) == Ok::<Seq<FieldView>, Seq<char>>(
            exported_records(items, n)->Ok_0[k],
        ),
        exported_view(items[k].0, items[k].1).qso == stored_qso_view(items[k].0.qso),
        exported_view(items[k].0, items[k].1).extra_fields == items[k].1,
        same_metadata(items[k].0.metadata@, exported_view(items[k].0, items[k].1).mode_metadata),
    decreases n,
{
    let m = (n - 1) as nat;
    if exported_records(items, m) is Err {
        lemma_error_persists(items, m, n);
    }
    if k < m {
        law_export_keeps_each_item(items, m, k);
    } else if m > 0 {
        law_export_keeps_each_item(items, m, 0);
    }
}

} // verus!
