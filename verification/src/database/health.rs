//! The health of a logbook database file: what its integrity checks,
//! schema and metadata say, read without changing it.
use vstd::prelude::*;

use crate::database::tally::{entries_view, in_key_order, insert_count, keyed_counts, law_counts_in_key_order, tallies};
use crate::text::{chars_of, clone_string, decimal, eq_ignore_case, eq_ignore_case_str, int_decimal, owned, push_str, push_signed, push_unsigned, vec_eq};

verus! {

/// The schema version this library writes.
pub const CURRENT_SCHEMA_VERSION: i64 = 4;

/// What a health check concluded.
#[derive(Debug, Clone, Copy, PartialEq, Eq, Structural)]
pub enum HealthStatus {
    HealthyCurrent,
    HealthyMigratableOld,
    FutureIncompatible,
    InvalidOrCorrupt,
    Unreadable,
}

impl HealthStatus {
    pub open spec fn spec_name(self) -> Seq<char> {
        match self {
            HealthStatus::HealthyCurrent => "HealthyCurrent"@,
            HealthStatus::HealthyMigratableOld => "HealthyMigratableOld"@,
            HealthStatus::FutureIncompatible => "FutureIncompatible"@,
            HealthStatus::InvalidOrCorrupt => "InvalidOrCorrupt"@,
            HealthStatus::Unreadable => "Unreadable"@,
        }
    }

    /// The status as the diagnostic text names it.
    pub fn name(&self) -> (s: &'static str)
        ensures
            s@ == self.spec_name(),
    {
        match self {
            HealthStatus::HealthyCurrent => "HealthyCurrent",
            HealthStatus::HealthyMigratableOld => "HealthyMigratableOld",
            HealthStatus::FutureIncompatible => "FutureIncompatible",
            HealthStatus::InvalidOrCorrupt => "InvalidOrCorrupt",
            HealthStatus::Unreadable => "Unreadable",
        }
    }
}

/// One problem found, with a short code.
#[derive(Debug, Clone, PartialEq, Eq)]
pub struct HealthFinding {
    pub code: &'static str,
    pub message: String,
}

pub struct FindingView {
    pub code: Seq<char>,
    pub message: Seq<char>,
}

impl View for HealthFinding {
    type V = FindingView;

    open spec fn view(&self) -> FindingView {
        FindingView { code: self.code@, message: self.message@ }
    }
}

pub open spec fn findings_view(f: Seq<HealthFinding>) -> Seq<FindingView> {
    f.map_values(|x: HealthFinding| x@)
}

/// What a health check found.
#[derive(Debug, Clone, PartialEq, Eq)]
pub struct HealthReport {
    pub path: Option<String>,
    pub status: HealthStatus,
    pub file_size: Option<u64>,
    pub schema_version: Option<i64>,
    pub migration_versions: Vec<i64>,
    pub quick_check_messages: Vec<String>,
    pub foreign_key_violations: Option<u64>,
    pub qso_count: Option<u64>,
    pub adif_extra_count: Option<u64>,
    /// QSOs per mode, each mode once, in key order (see `keyed_counts`).
    pub counts_by_mode: Vec<(String, u64)>,
    pub findings: Vec<HealthFinding>,
}

fn finding(code: &'static str, message: String) -> (f: HealthFinding)
    ensures
        f@ == (FindingView { code: code@, message: message@ }),
{
    HealthFinding { code, message }
}

fn joined_message(prefix: &str, detail: &str) -> (s: String)
    ensures
        s@ == prefix@ + detail@,
{
    let mut s = owned(prefix);
    push_str(&mut s, detail);
    s
}

impl HealthReport {
    /// The QSO counts name each mode once, in key order.
    pub open spec fn modes_in_key_order(&self) -> bool {
        in_key_order(counts_view(self.counts_by_mode@))
    }

    /// A report that has found nothing yet; its status is `Unreadable`
    /// until a check completes.
    pub fn new(path: Option<String>, file_size: Option<u64>) -> (r: HealthReport)
        ensures
            r.modes_in_key_order(),
            r.path == path,
            r.file_size == file_size,
            r.status == HealthStatus::Unreadable,
            r.schema_version is None,
            r.migration_versions@.len() == 0,
            r.quick_check_messages@.len() == 0,
            r.foreign_key_violations is None,
            r.qso_count is None,
            r.adif_extra_count is None,
            r.counts_by_mode@.len() == 0,
            r.findings@.len() == 0,
    {
        HealthReport {
            path,
            status: HealthStatus::Unreadable,
            file_size,
            schema_version: None,
            migration_versions: Vec::new(),
            quick_check_messages: Vec::new(),
            foreign_key_violations: None,
            qso_count: None,
            adif_extra_count: None,
            counts_by_mode: Vec::new(),
            findings: Vec::new(),
        }
    }

    /// Records that the database could not be opened for reading (or set to
    /// read only): an `unreadable` finding.
    pub fn record_unreadable(&mut self, opening: bool, error: &str)
        ensures
            final(self).findings@.len() == old(self).findings@.len() + 1,
            findings_view(final(self).findings@) == findings_view(old(self).findings@).push(
                FindingView {
                    code: "unreadable"@,
                    message: if opening {
                        "Could not open database: "@ + error@
                    } else {
                        "Could not enable query-only mode: "@ + error@
                    },
                },
            ),
            final(self).status == old(self).status,
            final(self).path == old(self).path,
            final(self).file_size == old(self).file_size,
            final(self).schema_version == old(self).schema_version,
            final(self).migration_versions@ == old(self).migration_versions@,
            final(self).quick_check_messages@ == old(self).quick_check_messages@,
            final(self).foreign_key_violations == old(self).foreign_key_violations,
            final(self).qso_count == old(self).qso_count,
            final(self).adif_extra_count == old(self).adif_extra_count,
            final(self).counts_by_mode@ == old(self).counts_by_mode@,
    {
        let message = if opening {
            joined_message("Could not open database: ", error)
        } else {
            joined_message("Could not enable query-only mode: ", error)
        };
        let ghost before = self.findings@;
        self.findings.push(finding("unreadable", message));
        assert(findings_view(self.findings@) =~= findings_view(before).push(
            self.findings@[before.len() as int]@,
        ));
    }
}

/// The schema objects (`type:name`) each version of the schema has.
pub open spec fn spec_expected_objects(version: i64) -> Seq<Seq<char>> {
    if version == 1 {
        v1_objects()
    } else if version == 2 {
        v2_objects()
    } else if version == 3 {
        v3_objects()
    } else if version == 4 {
        v4_objects()
    } else if version == 5 {
        v5_objects()
    } else if version == 6 {
        v5_objects() + v6_objects()
    } else {
        v5_objects() + v6_objects() + v7_objects()
    }
}

pub open spec fn v1_objects() -> Seq<Seq<char>> {
    seq![
        "table:schema_migrations"@,
        "table:qsos"@,
        "index:idx_qsos_callsign"@,
        "index:idx_qsos_datetime_start"@,
        "index:idx_qsos_mode"@,
    ]
}

pub open spec fn v2_objects() -> Seq<Seq<char>> {
    seq![
        "table:schema_migrations"@,
        "table:qsos"@,
        "table:digital_routes"@,
        "table:dmr_metadata"@,
        "index:idx_qsos_callsign"@,
        "index:idx_qsos_datetime_start"@,
        "index:idx_qsos_mode"@,
        "index:idx_dmr_metadata_remote_id"@,
        "index:idx_dmr_metadata_talkgroup"@,
    ]
}

pub open spec fn v3_objects() -> Seq<Seq<char>> {
    seq![
        "table:schema_migrations"@,
        "table:qsos"@,
        "table:digital_routes"@,
        "table:dmr_metadata"@,
        "table:ft8_metadata"@,
        "index:idx_qsos_callsign"@,
        "index:idx_qsos_datetime_start"@,
        "index:idx_qsos_mode"@,
        "index:idx_dmr_metadata_remote_id"@,
        "index:idx_dmr_metadata_talkgroup"@,
        "index:idx_ft8_metadata_snr_received"@,
    ]
}

pub open spec fn v4_objects() -> Seq<Seq<char>> {
    seq![
        "table:schema_migrations"@,
        "table:qsos"@,
        "table:digital_routes"@,
        "table:dmr_metadata"@,
        "table:ft8_metadata"@,
        "table:adif_extra_fields"@,
        "index:idx_qsos_callsign"@,
        "index:idx_qsos_datetime_start"@,
        "index:idx_qsos_mode"@,
        "index:idx_dmr_metadata_remote_id"@,
        "index:idx_dmr_metadata_talkgroup"@,
        "index:idx_ft8_metadata_snr_received"@,
    ]
}

pub open spec fn v5_objects() -> Seq<Seq<char>> {
    v4_objects() + seq![
        "index:idx_qsos_datetime_start_id_desc"@,
        "index:idx_qsos_mode_datetime_start_id_desc"@,
        "index:idx_qsos_callsign_nocase"@,
        "index:idx_qsos_grid_locator_nocase"@,
        "index:idx_qsos_band_nocase"@,
        "index:idx_dmr_metadata_local_id"@,
        "index:idx_dmr_metadata_timeslot"@,
        "index:idx_digital_routes_network_nocase"@,
        "index:idx_digital_routes_repeater_nocase"@,
        "index:idx_digital_routes_hotspot_nocase"@,
    ]
}

pub open spec fn v6_objects() -> Seq<Seq<char>> {
    seq![
        "table:dstar_metadata"@,
        "index:idx_dstar_metadata_reflector_nocase"@,
        "index:idx_dstar_metadata_module_nocase"@,
        "index:idx_dstar_metadata_rpt1_nocase"@,
    ]
}

pub open spec fn v7_objects() -> Seq<Seq<char>> {
    seq![
        "table:ysf_metadata"@,
        "index:idx_ysf_metadata_tx_dg_id"@,
        "index:idx_ysf_metadata_rx_dg_id"@,
    ]
}

pub open spec fn static_strs_view(v: Seq<&'static str>) -> Seq<Seq<char>> {
    v.map_values(|s: &'static str| s@)
}

fn push_all(v: &mut Vec<&'static str>, items: &[&'static str])
    ensures
        static_strs_view(final(v)@) == static_strs_view(old(v)@) + static_strs_view(items@),
{
    let ghost start = v@;
    let mut i: usize = 0;
    while i < items.len()
        invariant
            i <= items@.len(),
            static_strs_view(v@) == static_strs_view(start) + static_strs_view(items@.take(i as int)),
        decreases items@.len() - i,
    {
        let ghost before = v@;
        v.push(items[i]);
        assert(static_strs_view(v@) =~= static_strs_view(before).push(items@[i as int]@));
        assert(static_strs_view(items@.take(i + 1)) =~= static_strs_view(items@.take(i as int)).push(
            items@[i as int]@,
        ));
        assert(static_strs_view(start) + static_strs_view(items@.take(i + 1)) =~= (static_strs_view(
            start,
        ) + static_strs_view(items@.take(i as int))).push(items@[i as int]@));
        i = i + 1;
    }
    assert(items@.take(items@.len() as int) =~= items@);
}

/// The schema objects a database of this version must have.
pub fn expected_objects(version: i64) -> (r: Vec<&'static str>)
    ensures
        static_strs_view(r@) == spec_expected_objects(version),
{
    let mut r: Vec<&'static str> = Vec::new();
    let v1 = ["table:schema_migrations", "table:qsos", "index:idx_qsos_callsign", "index:idx_qsos_datetime_start", "index:idx_qsos_mode"];
    let v2 = ["table:schema_migrations", "table:qsos", "table:digital_routes", "table:dmr_metadata", "index:idx_qsos_callsign", "index:idx_qsos_datetime_start", "index:idx_qsos_mode", "index:idx_dmr_metadata_remote_id", "index:idx_dmr_metadata_talkgroup"];
    let v3 = ["table:schema_migrations", "table:qsos", "table:digital_routes", "table:dmr_metadata", "table:ft8_metadata", "index:idx_qsos_callsign", "index:idx_qsos_datetime_start", "index:idx_qsos_mode", "index:idx_dmr_metadata_remote_id", "index:idx_dmr_metadata_talkgroup", "index:idx_ft8_metadata_snr_received"];
    let v4 = ["table:schema_migrations", "table:qsos", "table:digital_routes", "table:dmr_metadata", "table:ft8_metadata", "table:adif_extra_fields", "index:idx_qsos_callsign", "index:idx_qsos_datetime_start", "index:idx_qsos_mode", "index:idx_dmr_metadata_remote_id", "index:idx_dmr_metadata_talkgroup", "index:idx_ft8_metadata_snr_received"];
    let v5 = ["index:idx_qsos_datetime_start_id_desc", "index:idx_qsos_mode_datetime_start_id_desc", "index:idx_qsos_callsign_nocase", "index:idx_qsos_grid_locator_nocase", "index:idx_qsos_band_nocase", "index:idx_dmr_metadata_local_id", "index:idx_dmr_metadata_timeslot", "index:idx_digital_routes_network_nocase", "index:idx_digital_routes_repeater_nocase", "index:idx_digital_routes_hotspot_nocase"];
    let v6 = ["table:dstar_metadata", "index:idx_dstar_metadata_reflector_nocase", "index:idx_dstar_metadata_module_nocase", "index:idx_dstar_metadata_rpt1_nocase"];
    let v7 = ["table:ysf_metadata", "index:idx_ysf_metadata_tx_dg_id", "index:idx_ysf_metadata_rx_dg_id"];
    assert(static_strs_view(r@) =~= Seq::<Seq<char>>::empty());
    assert(static_strs_view(v1@) =~= v1_objects());
    assert(static_strs_view(v2@) =~= v2_objects());
    assert(static_strs_view(v3@) =~= v3_objects());
    assert(static_strs_view(v4@) =~= v4_objects());
    assert(static_strs_view(v6@) =~= v6_objects());
    assert(static_strs_view(v7@) =~= v7_objects());
    assert(v4_objects() + static_strs_view(v5@) =~= v5_objects());
    if version == 1 {
        push_all(&mut r, &v1);
        assert(static_strs_view(r@) =~= v1_objects());
    } else if version == 2 {
        push_all(&mut r, &v2);
        assert(static_strs_view(r@) =~= v2_objects());
    } else if version == 3 {
        push_all(&mut r, &v3);
        assert(static_strs_view(r@) =~= v3_objects());
    } else if version == 4 {
        push_all(&mut r, &v4);
        assert(static_strs_view(r@) =~= v4_objects());
    } else {
        push_all(&mut r, &v4);
        push_all(&mut r, &v5);
        assert(static_strs_view(r@) =~= v5_objects());
        if version != 5 {
            push_all(&mut r, &v6);
            if version != 6 {
                push_all(&mut r, &v7);
            }
        }
    }
    r
}

// ---------------------------------------------------------------------------
// Metadata invariants
// ---------------------------------------------------------------------------

/// A query whose count, when above zero, means a problem.
#[derive(Debug, Clone, PartialEq, Eq)]
pub struct MetadataCheck {
    pub sql: String,
    pub code: &'static str,
    pub message: String,
}

pub struct CheckView {
    pub sql: Seq<char>,
    pub code: Seq<char>,
    pub message: Seq<char>,
}

impl View for MetadataCheck {
    type V = CheckView;

    open spec fn view(&self) -> CheckView {
        CheckView { sql: self.sql@, code: self.code@, message: self.message@ }
    }
}

pub open spec fn checks_view(c: Seq<MetadataCheck>) -> Seq<CheckView> {
    c.map_values(|x: MetadataCheck| x@)
}

pub open spec fn table_object(table: Seq<char>) -> Seq<char> {
    "table:"@ + table
}

pub open spec fn table_if(
    objects: Seq<Seq<char>>,
    table: Seq<char>,
    mode: Seq<char>,
) -> Seq<(Seq<char>, Seq<char>)> {
    if objects.contains(table_object(table)) {
        seq![(table, mode)]
    } else {
        Seq::empty()
    }
}

/// The metadata tables the schema has, in a fixed order, with their modes.
pub open spec fn available_tables(objects: Seq<Seq<char>>) -> Seq<(Seq<char>, Seq<char>)> {
    table_if(objects, "dmr_metadata"@, "DMR"@) + table_if(objects, "ft8_metadata"@, "FT8"@)
        + table_if(objects, "dstar_metadata"@, "DSTAR"@) + table_if(
        objects,
        "ysf_metadata"@,
        "C4FM"@,
    )
}

/// How many rows of a metadata table belong to the QSO `q`.
pub open spec fn count_expr(table: Seq<char>) -> Seq<char> {
    "(SELECT COUNT(*) FROM "@ + table + " m WHERE m.qso_id = q.id)"@
}

pub open spec fn count_exprs(tables: Seq<(Seq<char>, Seq<char>)>) -> Seq<Seq<char>> {
    tables.map_values(|t: (Seq<char>, Seq<char>)| count_expr(t.0))
}

/// The query for the QSOs of a mode whose metadata is missing, repeated,
/// accompanied by another mode's metadata, or (for DMR) without exactly one
/// route.
pub open spec fn mode_check_sql(
    available: Seq<(Seq<char>, Seq<char>)>,
    i: int,
    routes: bool,
) -> Seq<char> {
    let table = available[i].0;
    let mode = available[i].1;
    let others = count_exprs(available.remove(i));
    let no_others = if others.len() == 0 {
        Seq::empty()
    } else {
        " AND ("@ + crate::logbook::qso_list::joined(others, " + "@) + ") = 0"@
    };
    let route = if mode == "DMR"@ && routes {
        " AND (SELECT COUNT(*) FROM digital_routes r WHERE r.qso_id = q.id) = 1"@
    } else {
        Seq::empty()
    };
    "SELECT COUNT(*) FROM qsos q WHERE UPPER(q.mode) = '"@ + mode + "' AND NOT ("@ + count_expr(
        table,
    ) + " = 1"@ + no_others + route + ")"@
}

pub open spec fn mode_checks(available: Seq<(Seq<char>, Seq<char>)>, routes: bool) -> Seq<CheckView> {
    Seq::new(
        available.len(),
        |i: int|
            CheckView {
                sql: mode_check_sql(available, i, routes),
                code: "metadata"@,
                message: available[i].1 + " metadata is missing, wrong, or multiple"@,
            },
    )
}

pub open spec fn generic_check(available: Seq<(Seq<char>, Seq<char>)>) -> Seq<CheckView> {
    if available.len() == 0 {
        Seq::empty()
    } else {
        seq![
            CheckView {
                sql: "SELECT COUNT(*) FROM qsos q WHERE UPPER(q.mode) NOT IN ('DMR','FT8','DSTAR','C4FM') AND ("@
                    + crate::logbook::qso_list::joined(count_exprs(available), " + "@) + ") <> 0"@,
                code: "metadata"@,
                message: "Generic-mode QSOs have specialized metadata"@,
            },
        ]
    }
}

pub open spec fn route_checks(objects: Seq<Seq<char>>) -> Seq<CheckView> {
    if objects.contains("table:digital_routes"@) {
        seq![
            CheckView {
                sql: "SELECT COUNT(*) FROM qsos q WHERE UPPER(q.mode) <> 'DMR' AND EXISTS (SELECT 1 FROM digital_routes r WHERE r.qso_id = q.id)"@,
                code: "dmr-route"@,
                message: "A non-DMR QSO has a DMR route"@,
            },
        ] + if objects.contains("table:dmr_metadata"@) {
            seq![
                CheckView {
                    sql: "SELECT COUNT(*) FROM qsos q WHERE UPPER(q.mode) = 'DMR' AND ((SELECT COUNT(*) FROM dmr_metadata m WHERE m.qso_id = q.id) <> (SELECT COUNT(*) FROM digital_routes r WHERE r.qso_id = q.id))"@,
                    code: "dmr-route"@,
                    message: "DMR metadata and route counts do not match"@,
                },
            ]
        } else {
            Seq::empty()
        }
    } else {
        Seq::empty()
    }
}

/// The queries that check that QSOs carry exactly the metadata of their
/// mode, for the tables the schema has.
pub open spec fn spec_metadata_checks(objects: Seq<Seq<char>>) -> Seq<CheckView> {
    let available = available_tables(objects);
    mode_checks(available, objects.contains("table:digital_routes"@)) + generic_check(available)
        + route_checks(objects)
}

pub open spec fn strings_view(v: Seq<String>) -> Seq<Seq<char>> {
    v.map_values(|s: String| s@)
}

pub open spec fn pairs_view(v: Seq<(&'static str, &'static str)>) -> Seq<(Seq<char>, Seq<char>)> {
    v.map_values(|p: (&'static str, &'static str)| (p.0@, p.1@))
}

/// Whether the schema has the object.
pub fn contains_object(objects: &Vec<String>, name: &str) -> (r: bool)
    ensures
        r == strings_view(objects@).contains(name@),
{
    let wanted = chars_of(name);
    let mut i: usize = 0;
    while i < objects.len()
        invariant
            i <= objects@.len(),
            wanted@ == name@,
            forall|k: int| 0 <= k < i ==> strings_view(objects@)[k] != name@,
        decreases objects@.len() - i,
    {
        if vec_eq(&chars_of(objects[i].as_str()), &wanted) {
            assert(strings_view(objects@)[i as int] == name@);
            return true;
        }
        i = i + 1;
    }
    false
}

/// Joins texts with a separator.
pub fn join(parts: &Vec<String>, separator: &str) -> (s: String)
    ensures
        s@ == crate::logbook::qso_list::joined(strings_view(parts@), separator@),
{
    let mut s = String::new();
    let mut i: usize = 0;
    assert(strings_view(parts@).take(0) =~= Seq::<Seq<char>>::empty());
    while i < parts.len()
        invariant
            i <= parts@.len(),
            s@ == crate::logbook::qso_list::joined(strings_view(parts@).take(i as int), separator@),
        decreases parts@.len() - i,
    {
        proof {
            crate::logbook::qso_list::lemma_joined_push(
                strings_view(parts@).take(i as int),
                separator@,
                parts@[i as int]@,
            );
            assert(strings_view(parts@).take(i + 1) =~= strings_view(parts@).take(i as int).push(
                parts@[i as int]@,
            ));
        }
        if i > 0 {
            push_str(&mut s, separator);
        }
        push_str(&mut s, parts[i].as_str());
        i = i + 1;
    }
    assert(strings_view(parts@).take(parts@.len() as int) =~= strings_view(parts@));
    s
}

fn count_expr_of(table: &str) -> (s: String)
    ensures
        s@ == count_expr(table@),
{
    let mut s = owned("(SELECT COUNT(*) FROM ");
    push_str(&mut s, table);
    push_str(&mut s, " m WHERE m.qso_id = q.id)");
    s
}

fn count_exprs_of(tables: &Vec<(&'static str, &'static str)>) -> (r: Vec<String>)
    ensures
        strings_view(r@) == count_exprs(pairs_view(tables@)),
{
    let mut r: Vec<String> = Vec::new();
    let mut i: usize = 0;
    while i < tables.len()
        invariant
            i <= tables@.len(),
            strings_view(r@) == count_exprs(pairs_view(tables@).take(i as int)),
        decreases tables@.len() - i,
    {
        let ghost before = r@;
        let e = count_expr_of(tables[i].0);
        r.push(e);
        assert(pairs_view(tables@).take(i + 1) =~= pairs_view(tables@).take(i as int).push(
            (tables@[i as int].0@, tables@[i as int].1@),
        ));
        assert(count_exprs(pairs_view(tables@).take(i + 1)) =~= count_exprs(
            pairs_view(tables@).take(i as int),
        ).push(count_expr(tables@[i as int].0@)));
        assert(strings_view(r@) =~= strings_view(before).push(e@));
        i = i + 1;
    }
    assert(pairs_view(tables@).take(tables@.len() as int) =~= pairs_view(tables@));
    r
}

fn push_check(checks: &mut Vec<MetadataCheck>, sql: String, code: &'static str, message: String)
    ensures
        checks_view(final(checks)@) == checks_view(old(checks)@).push(
            CheckView { sql: sql@, code: code@, message: message@ },
        ),
{
    let ghost before = checks@;
    checks.push(MetadataCheck { sql, code, message });
    assert(checks_view(checks@) =~= checks_view(before).push(
        CheckView { sql: sql@, code: code@, message: message@ },
    ));
}

fn available_of(objects: &Vec<String>) -> (r: Vec<(&'static str, &'static str)>)
    ensures
        pairs_view(r@) == available_tables(strings_view(objects@)),
{
    let mut r: Vec<(&'static str, &'static str)> = Vec::new();
    let ghost o = strings_view(objects@);
    assert(pairs_view(r@) =~= Seq::<(Seq<char>, Seq<char>)>::empty());
    if contains_object(objects, "table:dmr_metadata") {
        r.push(("dmr_metadata", "DMR"));
    }
    assert(pairs_view(r@) =~= table_if(o, "dmr_metadata"@, "DMR"@)) by {
        reveal_strlit("table:");
        reveal_strlit("dmr_metadata");
        reveal_strlit("table:dmr_metadata");
        assert(table_object("dmr_metadata"@) =~= "table:dmr_metadata"@);
    }
    let ghost p1 = pairs_view(r@);
    if contains_object(objects, "table:ft8_metadata") {
        r.push(("ft8_metadata", "FT8"));
    }
    assert(pairs_view(r@) =~= p1 + table_if(o, "ft8_metadata"@, "FT8"@)) by {
        reveal_strlit("table:");
        reveal_strlit("ft8_metadata");
        reveal_strlit("table:ft8_metadata");
        assert(table_object("ft8_metadata"@) =~= "table:ft8_metadata"@);
    }
    let ghost p2 = pairs_view(r@);
    if contains_object(objects, "table:dstar_metadata") {
        r.push(("dstar_metadata", "DSTAR"));
    }
    assert(pairs_view(r@) =~= p2 + table_if(o, "dstar_metadata"@, "DSTAR"@)) by {
        reveal_strlit("table:");
        reveal_strlit("dstar_metadata");
        reveal_strlit("table:dstar_metadata");
        assert(table_object("dstar_metadata"@) =~= "table:dstar_metadata"@);
    }
    let ghost p3 = pairs_view(r@);
    if contains_object(objects, "table:ysf_metadata") {
        r.push(("ysf_metadata", "C4FM"));
    }
    assert(pairs_view(r@) =~= p3 + table_if(o, "ysf_metadata"@, "C4FM"@)) by {
        reveal_strlit("table:");
        reveal_strlit("ysf_metadata");
        reveal_strlit("table:ysf_metadata");
        assert(table_object("ysf_metadata"@) =~= "table:ysf_metadata"@);
    }
    r
}

fn mode_check_sql_of(available: &Vec<(&'static str, &'static str)>, i: usize, routes: bool) -> (s: String)
    requires
        i < available@.len(),
    ensures
        s@ == mode_check_sql(pairs_view(available@), i as int, routes),
{
    let mut others: Vec<(&'static str, &'static str)> = Vec::new();
    let mut k: usize = 0;
    while k < available.len()
        invariant
            k <= available@.len(),
            others@ == available@.take(k as int),
        decreases available@.len() - k,
    {
        others.push(available[k]);
        assert(others@ =~= available@.take(k + 1));
        k = k + 1;
    }
    assert(others@ =~= available@);
    others.remove(i);
    assert(pairs_view(others@) =~= pairs_view(available@).remove(i as int));
    let exprs = count_exprs_of(&others);
    let (table, mode) = available[i];
    let mut s = owned("SELECT COUNT(*) FROM qsos q WHERE UPPER(q.mode) = '");
    push_str(&mut s, mode);
    push_str(&mut s, "' AND NOT (");
    push_str(&mut s, count_expr_of(table).as_str());
    push_str(&mut s, " = 1");
    if exprs.len() > 0 {
        push_str(&mut s, " AND (");
        push_str(&mut s, join(&exprs, " + ").as_str());
        push_str(&mut s, ") = 0");
    }
    let ghost before_route = s@;
    if crate::text::str_eq(mode, "DMR") && routes {
        push_str(&mut s, " AND (SELECT COUNT(*) FROM digital_routes r WHERE r.qso_id = q.id) = 1");
    }
    push_str(&mut s, ")");
    assert(s@ =~= mode_check_sql(pairs_view(available@), i as int, routes));
    s
}

/// The metadata checks for a schema with these objects.
pub fn metadata_checks(objects: &Vec<String>) -> (r: Vec<MetadataCheck>)
    ensures
        checks_view(r@) == spec_metadata_checks(strings_view(objects@)),
{
    let ghost o = strings_view(objects@);
    let available = available_of(objects);
    let routes = contains_object(objects, "table:digital_routes");
    let mut checks: Vec<MetadataCheck> = Vec::new();
    let mut i: usize = 0;
    assert(checks_view(checks@) =~= Seq::<CheckView>::empty());
    while i < available.len()
        invariant
            i <= available@.len(),
            checks_view(checks@) == mode_checks(pairs_view(available@), routes).take(i as int),
        decreases available@.len() - i,
    {
        let sql = mode_check_sql_of(&available, i, routes);
        let mut message = owned(available[i].1);
        push_str(&mut message, " metadata is missing, wrong, or multiple");
        push_check(&mut checks, sql, "metadata", message);
        assert(checks_view(checks@) =~= mode_checks(pairs_view(available@), routes).take(i + 1));
        i = i + 1;
    }
    assert(mode_checks(pairs_view(available@), routes).take(available@.len() as int) =~= mode_checks(
        pairs_view(available@),
        routes,
    ));
    let ghost after_modes = checks_view(checks@);
    if available.len() > 0 {
        let exprs = count_exprs_of(&available);
        let mut sql = owned(
            "SELECT COUNT(*) FROM qsos q WHERE UPPER(q.mode) NOT IN ('DMR','FT8','DSTAR','C4FM') AND (",
        );
        push_str(&mut sql, join(&exprs, " + ").as_str());
        push_str(&mut sql, ") <> 0");
        push_check(&mut checks, sql, "metadata", owned("Generic-mode QSOs have specialized metadata"));
    }
    assert(checks_view(checks@) =~= after_modes + generic_check(pairs_view(available@)));
    let ghost after_generic = checks_view(checks@);
    if routes {
        push_check(
            &mut checks,
            owned(
                "SELECT COUNT(*) FROM qsos q WHERE UPPER(q.mode) <> 'DMR' AND EXISTS (SELECT 1 FROM digital_routes r WHERE r.qso_id = q.id)",
            ),
            "dmr-route",
            owned("A non-DMR QSO has a DMR route"),
        );
        if contains_object(objects, "table:dmr_metadata") {
            push_check(
                &mut checks,
                owned(
                    "SELECT COUNT(*) FROM qsos q WHERE UPPER(q.mode) = 'DMR' AND ((SELECT COUNT(*) FROM dmr_metadata m WHERE m.qso_id = q.id) <> (SELECT COUNT(*) FROM digital_routes r WHERE r.qso_id = q.id))",
                ),
                "dmr-route",
                owned("DMR metadata and route counts do not match"),
            );
        }
    }
    assert(checks_view(checks@) =~= after_generic + route_checks(o));
    checks
}

// ---------------------------------------------------------------------------
// Assessing what the database answered
// ---------------------------------------------------------------------------

/// What the database answered to the health queries (errors as text).
pub struct HealthEvidence {
    /// `PRAGMA quick_check`.
    pub quick_check: Result<Vec<String>, String>,
    /// The tables and indexes of the schema, as `type:name`.
    pub objects: Result<Vec<String>, String>,
    /// The applied migrations, in order.
    pub migration_versions: Result<Vec<i64>, String>,
    /// `pragma_foreign_key_check`'s count, when it could be read.
    pub foreign_key_violations: Option<u64>,
    pub qso_count: Option<u64>,
    /// QSOs per mode, as the database gives them; a mode given again
    /// replaces its earlier count.
    pub counts_by_mode: Vec<(String, u64)>,
    /// The count of each query of `metadata_checks(objects)`, in order,
    /// when it could be read.
    pub metadata_counts: Vec<Option<u64>>,
    pub adif_extra_count: Option<u64>,
}

/// The parts of a report the assessment fills.
pub struct AssessedView {
    pub status: HealthStatus,
    pub schema_version: Option<i64>,
    pub migration_versions: Seq<i64>,
    pub quick_check_messages: Seq<Seq<char>>,
    pub foreign_key_violations: Option<u64>,
    pub qso_count: Option<u64>,
    pub adif_extra_count: Option<u64>,
    pub counts_by_mode: Seq<(Seq<char>, u64)>,
    pub findings: Seq<FindingView>,
}

pub open spec fn counts_view(v: Seq<(String, u64)>) -> Seq<(Seq<char>, u64)> {
    v.map_values(|p: (String, u64)| (p.0@, p.1))
}

impl HealthReport {
    pub open spec fn assessed_view(&self) -> AssessedView {
        AssessedView {
            status: self.status,
            schema_version: self.schema_version,
            migration_versions: self.migration_versions@,
            quick_check_messages: strings_view(self.quick_check_messages@),
            foreign_key_violations: self.foreign_key_violations,
            qso_count: self.qso_count,
            adif_extra_count: self.adif_extra_count,
            counts_by_mode: counts_view(self.counts_by_mode@),
            findings: findings_view(self.findings@),
        }
    }
}

pub open spec fn finding_of(code: Seq<char>, message: Seq<char>) -> FindingView {
    FindingView { code, message }
}

/// The migrations are exactly 1, 2, …, the last one.
pub open spec fn migration_sequence_ok(versions: Seq<i64>) -> bool {
    versions.len() > 0 && versions.last() >= 1 && versions.len() == versions.last() && forall|i: int|
        0 <= i < versions.len() ==> #[trigger] versions[i] == i + 1
}

/// A finding for each expected object the schema lacks, in order.
pub open spec fn missing_object_findings(expected: Seq<Seq<char>>, objects: Seq<Seq<char>>) -> Seq<
    FindingView,
>
    decreases expected.len(),
{
    if expected.len() == 0 {
        Seq::empty()
    } else {
        missing_object_findings(expected.drop_last(), objects) + if objects.contains(
            expected.last(),
        ) {
            Seq::empty()
        } else {
            seq![
                finding_of(
                    "missing-object"@,
                    "Expected schema object is missing: "@ + expected.last(),
                ),
            ]
        }
    }
}

/// A finding for each check whose count is known and above zero.
pub open spec fn check_findings(checks: Seq<CheckView>, counts: Seq<Option<u64>>) -> Seq<FindingView>
    decreases checks.len(),
{
    if checks.len() == 0 {
        Seq::empty()
    } else {
        let i = checks.len() - 1;
        check_findings(checks.drop_last(), counts) + if i < counts.len() && counts[i] is Some
            && counts[i]->0 > 0 {
            seq![finding_of(checks[i].code, checks[i].message)]
        } else {
            Seq::empty()
        }
    }
}

/// The codes of findings that make a database invalid.
pub open spec fn is_invalidating(code: Seq<char>) -> bool {
    code == "missing-object"@ || code == "foreign-key"@ || code == "metadata"@ || code == "dmr-route"@
}

pub open spec fn clamp_version(v: i64) -> i64 {
    if v < 1 {
        1
    } else if v > CURRENT_SCHEMA_VERSION {
        CURRENT_SCHEMA_VERSION
    } else {
        v
    }
}

/// The conclusion from the findings and the schema version.
pub open spec fn concluded_status(
    quick_ok: bool,
    sequence_ok: bool,
    findings: Seq<FindingView>,
    version: Option<i64>,
) -> HealthStatus {
    if !quick_ok || !sequence_ok || exists|i: int| 0 <= i < findings.len() && is_invalidating(
        #[trigger] findings[i].code,
    ) {
        HealthStatus::InvalidOrCorrupt
    } else if version is Some && version->0 > CURRENT_SCHEMA_VERSION {
        HealthStatus::FutureIncompatible
    } else if version is Some && version->0 < CURRENT_SCHEMA_VERSION {
        HealthStatus::HealthyMigratableOld
    } else {
        HealthStatus::HealthyCurrent
    }
}

pub open spec fn evidence_strings(r: Result<Vec<String>, String>) -> Result<Seq<Seq<char>>, Seq<char>> {
    match r {
        Ok(v) => Ok(strings_view(v@)),
        Err(e) => Err(e@),
    }
}

/// The assessment once the schema could be read: migrations, expected
/// objects, foreign keys, counts, metadata invariants, then the status.
pub open spec fn assessed_schema(
    r: AssessedView,
    quick_ok: bool,
    objects: Seq<Seq<char>>,
    versions: Seq<i64>,
    e: HealthEvidence,
) -> AssessedView {
    let version = if versions.len() > 0 {
        Some(versions.last())
    } else {
        None
    };
    let sequence_ok = migration_sequence_ok(versions);
    let f1 = r.findings + if sequence_ok {
        Seq::empty()
    } else {
        seq![
            finding_of(
                "migration-sequence"@,
                "Migration versions are missing, duplicated, or out of sequence"@,
            ),
        ]
    };
    let f2 = f1 + match version {
        Some(v) => missing_object_findings(spec_expected_objects(clamp_version(v)), objects),
        None => Seq::empty(),
    };
    let f3 = f2 + if e.foreign_key_violations is Some && e.foreign_key_violations->0 > 0 {
        seq![finding_of("foreign-key"@, "Foreign key violations were found"@)]
    } else {
        Seq::empty()
    };
    let has_qsos = objects.contains("table:qsos"@);
    let f4 = f3 + if has_qsos {
        check_findings(spec_metadata_checks(objects), e.metadata_counts@)
    } else {
        Seq::empty()
    };
    AssessedView {
        status: concluded_status(quick_ok, sequence_ok, f4, version),
        schema_version: version,
        migration_versions: versions,
        foreign_key_violations: e.foreign_key_violations,
        qso_count: if has_qsos {
            e.qso_count
        } else {
            r.qso_count
        },
        counts_by_mode: if has_qsos {
            keyed_counts(counts_view(e.counts_by_mode@))
        } else {
            r.counts_by_mode
        },
        adif_extra_count: if objects.contains("table:adif_extra_fields"@) {
            e.adif_extra_count
        } else {
            r.adif_extra_count
        },
        findings: f4,
        ..r
    }
}

/// What a health check concludes from the database's answers: a failed
/// quick check, an unreadable schema, missing migration metadata or an
/// unreadable migration list stop the check (invalid or corrupt); otherwise
/// every problem found is listed and the status follows from them and the
/// schema version.
pub open spec fn spec_assessed(r: AssessedView, e: HealthEvidence) -> AssessedView {
    match evidence_strings(e.quick_check) {
        Err(m) => AssessedView {
            status: HealthStatus::InvalidOrCorrupt,
            findings: r.findings.push(finding_of("quick-check-failed"@, "Quick check could not run: "@ + m)),
            ..r
        },
        Ok(messages) => {
            let quick_ok = messages.len() == 1 && eq_ignore_case(messages[0], "ok"@);
            let r1 = AssessedView {
                quick_check_messages: messages,
                findings: if quick_ok {
                    r.findings
                } else {
                    r.findings.push(
                        finding_of("quick-check"@, "SQLite quick check reported a problem"@),
                    )
                },
                ..r
            };
            match evidence_strings(e.objects) {
                Err(m) => AssessedView {
                    status: HealthStatus::InvalidOrCorrupt,
                    findings: r1.findings.push(
                        finding_of("schema-unreadable"@, "Schema could not be read: "@ + m),
                    ),
                    ..r1
                },
                Ok(objects) => if !objects.contains("table:schema_migrations"@) {
                    AssessedView {
                        status: HealthStatus::InvalidOrCorrupt,
                        findings: r1.findings.push(
                            finding_of(
                                "missing-migrations"@,
                                "Migration metadata table is missing"@,
                            ),
                        ),
                        ..r1
                    }
                } else {
                    match e.migration_versions {
                        Err(m) => AssessedView {
                            status: HealthStatus::InvalidOrCorrupt,
                            findings: r1.findings.push(
                                finding_of(
                                    "migration-unreadable"@,
                                    "Migration metadata is invalid: "@ + m@,
                                ),
                            ),
                            ..r1
                        },
                        Ok(versions) => assessed_schema(r1, quick_ok, objects, versions@, e),
                    }
                },
            }
        },
    }
}

fn add_finding(report: &mut HealthReport, code: &'static str, message: String)
    ensures
        final(report).assessed_view() == (AssessedView {
            findings: old(report).assessed_view().findings.push(finding_of(code@, message@)),
            ..old(report).assessed_view()
        }),
        final(report).path == old(report).path,
        final(report).file_size == old(report).file_size,
{
    let ghost before = report.findings@;
    report.findings.push(finding(code, message));
    assert(findings_view(report.findings@) =~= findings_view(before).push(finding_of(code@, message@)));
}

fn migration_sequence_is_ok(versions: &Vec<i64>) -> (r: bool)
    ensures
        r == migration_sequence_ok(versions@),
{
    let n = versions.len();
    if n == 0 {
        return false;
    }
    let last = versions[n - 1];
    if last < 1 || (n as i128) != (last as i128) {
        return false;
    }
    let mut i: usize = 0;
    while i < n
        invariant
            n == versions@.len(),
            i <= n,
            forall|k: int| 0 <= k < i ==> #[trigger] versions@[k] == k + 1,
        decreases n - i,
    {
        if (versions[i] as i128) != (i as i128) + 1 {
            return false;
        }
        i = i + 1;
    }
    true
}

fn report_missing_objects(report: &mut HealthReport, version: i64, objects: &Vec<String>)
    ensures
        final(report).assessed_view() == (AssessedView {
            findings: old(report).assessed_view().findings + missing_object_findings(
                spec_expected_objects(clamp_version(version)),
                strings_view(objects@),
            ),
            ..old(report).assessed_view()
        }),
        final(report).path == old(report).path,
        final(report).file_size == old(report).file_size,
{
    let expected_version = if version < 1 {
        1
    } else if version > CURRENT_SCHEMA_VERSION {
        CURRENT_SCHEMA_VERSION
    } else {
        version
    };
    let expected = expected_objects(expected_version);
    let ghost ex = static_strs_view(expected@);
    let ghost start = report.assessed_view();
    let mut i: usize = 0;
    assert(ex.take(0) =~= Seq::<Seq<char>>::empty());
    assert(start.findings + Seq::<FindingView>::empty() =~= start.findings);
    while i < expected.len()
        invariant
            i <= expected@.len(),
            ex == static_strs_view(expected@),
            report.assessed_view() == (AssessedView {
                findings: start.findings + missing_object_findings(ex.take(i as int), strings_view(objects@)),
                ..start
            }),
            report.path == old(report).path,
            report.file_size == old(report).file_size,
        decreases expected@.len() - i,
    {
        let ghost before = report.assessed_view();
        assert(ex.take(i + 1).drop_last() =~= ex.take(i as int));
        assert(ex.take(i + 1).last() == expected@[i as int]@);
        if !contains_object(objects, expected[i]) {
            let mut message = owned("Expected schema object is missing: ");
            push_str(&mut message, expected[i]);
            add_finding(report, "missing-object", message);
        }
        assert(report.assessed_view().findings =~= start.findings + missing_object_findings(
            ex.take(i + 1),
            strings_view(objects@),
        ));
        i = i + 1;
    }
    assert(ex.take(expected@.len() as int) =~= ex);
}

fn report_check_findings(report: &mut HealthReport, objects: &Vec<String>, counts: &Vec<Option<u64>>)
    ensures
        final(report).assessed_view() == (AssessedView {
            findings: old(report).assessed_view().findings + check_findings(
                spec_metadata_checks(strings_view(objects@)),
                counts@,
            ),
            ..old(report).assessed_view()
        }),
        final(report).path == old(report).path,
        final(report).file_size == old(report).file_size,
{
    let checks = metadata_checks(objects);
    let ghost cv = checks_view(checks@);
    let ghost start = report.assessed_view();
    let mut i: usize = 0;
    assert(cv.take(0) =~= Seq::<CheckView>::empty());
    assert(start.findings + Seq::<FindingView>::empty() =~= start.findings);
    while i < checks.len()
        invariant
            i <= checks@.len(),
            cv == checks_view(checks@),
            report.assessed_view() == (AssessedView {
                findings: start.findings + check_findings(cv.take(i as int), counts@),
                ..start
            }),
            report.path == old(report).path,
            report.file_size == old(report).file_size,
        decreases checks@.len() - i,
    {
        assert(cv.take(i + 1).drop_last() =~= cv.take(i as int));
        assert(cv.take(i + 1).last() == checks@[i as int]@);
        if i < counts.len() {
            match counts[i] {
                Some(c) => if c > 0 {
                    add_finding(report, checks[i].code, clone_string(&checks[i].message));
                },
                None => {},
            }
        }
        assert(report.assessed_view().findings =~= start.findings + check_findings(
            cv.take(i + 1),
            counts@,
        ));
        i = i + 1;
    }
    assert(cv.take(checks@.len() as int) =~= cv);
}

fn has_invalidating_finding(findings: &Vec<HealthFinding>) -> (r: bool)
    ensures
        r == exists|i: int| 0 <= i < findings_view(findings@).len() && is_invalidating(
            #[trigger] findings_view(findings@)[i].code,
        ),
{
    let mut i: usize = 0;
    while i < findings.len()
        invariant
            i <= findings@.len(),
            forall|k: int| 0 <= k < i ==> !is_invalidating(#[trigger] findings_view(findings@)[k].code),
        decreases findings@.len() - i,
    {
        let code = chars_of(findings[i].code);
        assert(findings_view(findings@)[i as int].code == code@);
        if crate::text::vec_eq_str(&code, "missing-object") || crate::text::vec_eq_str(&code, "foreign-key")
            || crate::text::vec_eq_str(&code, "metadata") || crate::text::vec_eq_str(&code, "dmr-route") {
            return true;
        }
        i = i + 1;
    }
    false
}

fn quick_check_passed(messages: &Vec<String>) -> (r: bool)
    ensures
        r == (strings_view(messages@).len() == 1 && eq_ignore_case(strings_view(messages@)[0], "ok"@)),
{
    messages.len() == 1 && eq_ignore_case_str(&chars_of(messages[0].as_str()), "ok")
}

/// The counts of the rows, each mode once, in key order.
fn counts_in_key_order(rows: Vec<(String, u64)>) -> (r: Vec<(String, u64)>)
    ensures
        counts_view(r@) == keyed_counts(counts_view(rows@)),
{
    let mut counts: Vec<(String, u64)> = Vec::new();
    let mut i: usize = 0;
    while i < rows.len()
        invariant
            i <= rows@.len(),
            counts_view(counts@) == keyed_counts(counts_view(rows@).take(i as int)),
        decreases rows@.len() - i,
    {
        proof {
            let v = counts_view(rows@);
            assert(v.take(i + 1).drop_last() =~= v.take(i as int));
            assert(v.take(i + 1).last() == v[i as int]);
        }
        insert_count(&mut counts, clone_string(&rows[i].0), rows[i].1);
        i = i + 1;
    }
    assert(counts_view(rows@).take(rows@.len() as int) =~= counts_view(rows@));
    counts
}

/// Assesses the database's answers into the report (see `spec_assessed`).
pub fn assess_health(report: &mut HealthReport, evidence: HealthEvidence)
    ensures
        final(report).assessed_view() == spec_assessed(old(report).assessed_view(), evidence),
        final(report).path == old(report).path,
        final(report).file_size == old(report).file_size,
        old(report).modes_in_key_order() ==> final(report).modes_in_key_order(),
{
    let ghost e = evidence;
    proof {
        law_counts_in_key_order(counts_view(evidence.counts_by_mode@));
    }
    let HealthEvidence {
        quick_check,
        objects,
        migration_versions,
        foreign_key_violations,
        qso_count,
        counts_by_mode,
        metadata_counts,
        adif_extra_count,
    } = evidence;
    let messages = match quick_check {
        Err(m) => {
            report.status = HealthStatus::InvalidOrCorrupt;
            add_finding(report, "quick-check-failed", joined_message("Quick check could not run: ", m.as_str()));
            return;
        },
        Ok(messages) => messages,
    };
    let quick_ok = quick_check_passed(&messages);
    report.quick_check_messages = messages;
    if !quick_ok {
        add_finding(report, "quick-check", owned("SQLite quick check reported a problem"));
    }
    let objects = match objects {
        Err(m) => {
            report.status = HealthStatus::InvalidOrCorrupt;
            add_finding(report, "schema-unreadable", joined_message("Schema could not be read: ", m.as_str()));
            return;
        },
        Ok(objects) => objects,
    };
    if !contains_object(&objects, "table:schema_migrations") {
        report.status = HealthStatus::InvalidOrCorrupt;
        add_finding(report, "missing-migrations", owned("Migration metadata table is missing"));
        return;
    }
    let versions = match migration_versions {
        Err(m) => {
            add_finding(report, "migration-unreadable", joined_message("Migration metadata is invalid: ", m.as_str()));
            report.status = HealthStatus::InvalidOrCorrupt;
            return;
        },
        Ok(versions) => versions,
    };
    let ghost r1 = report.assessed_view();
    let version = if versions.len() > 0 {
        Some(versions[versions.len() - 1])
    } else {
        None
    };
    let sequence_ok = migration_sequence_is_ok(&versions);
    report.schema_version = version;
    report.migration_versions = versions;
    if !sequence_ok {
        add_finding(
            report,
            "migration-sequence",
            owned("Migration versions are missing, duplicated, or out of sequence"),
        );
    }
    match version {
        Some(v) => report_missing_objects(report, v, &objects),
        None => {},
    }
    report.foreign_key_violations = foreign_key_violations;
    match foreign_key_violations {
        Some(c) => if c > 0 {
            add_finding(report, "foreign-key", owned("Foreign key violations were found"));
        },
        None => {},
    }
    if contains_object(&objects, "table:qsos") {
        report.qso_count = qso_count;
        report.counts_by_mode = counts_in_key_order(counts_by_mode);
        report_check_findings(report, &objects, &metadata_counts);
    }
    if contains_object(&objects, "table:adif_extra_fields") {
        report.adif_extra_count = adif_extra_count;
    }
    let invalid = !quick_ok || !sequence_ok || has_invalidating_finding(&report.findings);
    report.status = if invalid {
        HealthStatus::InvalidOrCorrupt
    } else {
        match version {
            Some(v) => if v > CURRENT_SCHEMA_VERSION {
                HealthStatus::FutureIncompatible
            } else if v < CURRENT_SCHEMA_VERSION {
                HealthStatus::HealthyMigratableOld
            } else {
                HealthStatus::HealthyCurrent
            },
            None => HealthStatus::HealthyCurrent,
        }
    };
    proof {
        let s = spec_assessed(old(report).assessed_view(), e);
        assert(report.assessed_view().findings =~= s.findings);
        assert(report.assessed_view() == s);
    }
}

// ---------------------------------------------------------------------------
// Diagnostic text
// ---------------------------------------------------------------------------

pub open spec fn optional_line(prefix: Seq<char>, value: Option<u64>, suffix: Seq<char>) -> Seq<Seq<char>> {
    match value {
        Some(v) => seq![prefix + decimal(v as nat) + suffix],
        None => Seq::empty(),
    }
}

pub open spec fn mode_count_texts(counts: Seq<(Seq<char>, u64)>) -> Seq<Seq<char>> {
    counts.map_values(|c: (Seq<char>, u64)| c.0 + "="@ + decimal(c.1 as nat))
}

pub open spec fn finding_lines(findings: Seq<FindingView>) -> Seq<Seq<char>> {
    findings.map_values(|f: FindingView| "["@ + f.code + "] "@ + f.message)
}

/// The lines of the diagnostic text: the status and the database's name,
/// then each fact that is known, then one line per finding.
pub open spec fn diagnostic_lines(r: AssessedView, file_size: Option<u64>, database: Seq<char>) -> Seq<
    Seq<char>,
> {
    seq!["Database health: "@ + r.status.spec_name() + " ("@ + database + ")"@] + optional_line(
        "File size: "@,
        file_size,
        " bytes"@,
    ) + match r.schema_version {
        Some(v) => seq!["Schema version: "@ + int_decimal(v as int) + " (supported: 4)"@],
        None => Seq::empty(),
    } + optional_line("QSOs: "@, r.qso_count, Seq::empty()) + optional_line(
        "ADIF extra fields: "@,
        r.adif_extra_count,
        Seq::empty(),
    ) + if r.counts_by_mode.len() == 0 {
        Seq::empty()
    } else {
        seq!["Modes: "@ + crate::logbook::qso_list::joined(mode_count_texts(r.counts_by_mode), ", "@)]
    } + finding_lines(r.findings)
}

pub open spec fn spec_diagnostic_text(r: AssessedView, file_size: Option<u64>, database: Seq<char>) -> Seq<
    char,
> {
    crate::logbook::qso_list::joined(diagnostic_lines(r, file_size, database), "\n"@)
}

/// Calls `std::path::Path::file_name` and converts the name to UTF-8
/// (`None` when the path ends in `..`, has no name, or the name is not
/// UTF-8). Which component is the name depends on the platform's
/// separators, so the contract states nothing of the result.
#[verifier::external_body]
fn path_file_name(path: &str) -> Option<String> {
    match std::path::Path::new(path).file_name() {
        Some(name) => match name.to_str() {
            Some(text) => Some(text.to_owned()),
            None => None,
        },
        None => None,
    }
}

fn push_line(lines: &mut Vec<String>, line: String)
    ensures
        strings_view(final(lines)@) == strings_view(old(lines)@).push(line@),
{
    let ghost before = lines@;
    lines.push(line);
    assert(strings_view(lines@) =~= strings_view(before).push(line@));
}

fn push_optional_line(lines: &mut Vec<String>, prefix: &str, value: Option<u64>, suffix: &str)
    ensures
        strings_view(final(lines)@) == strings_view(old(lines)@) + optional_line(prefix@, value, suffix@),
{
    let ghost before = strings_view(lines@);
    match value {
        Some(v) => {
            let mut line = owned(prefix);
            push_unsigned(&mut line, v);
            push_str(&mut line, suffix);
            push_line(lines, line);
            assert(strings_view(lines@) =~= before + optional_line(prefix@, value, suffix@));
        },
        None => {
            assert(strings_view(lines@) =~= before + optional_line(prefix@, value, suffix@));
        },
    }
}

impl HealthReport {
    /// The report as text, naming the database as given.
    pub fn diagnostic_text_for(&self, database: &str) -> (s: String)
        ensures
            s@ == spec_diagnostic_text(self.assessed_view(), self.file_size, database@),
    {
        let ghost r = self.assessed_view();
        let mut lines: Vec<String> = Vec::new();
        let mut first = owned("Database health: ");
        push_str(&mut first, self.status.name());
        push_str(&mut first, " (");
        push_str(&mut first, database);
        push_str(&mut first, ")");
        push_line(&mut lines, first);
        assert(strings_view(lines@) =~= seq!["Database health: "@ + r.status.spec_name() + " ("@ + database@ + ")"@]);
        push_optional_line(&mut lines, "File size: ", self.file_size, " bytes");
        let ghost l2 = strings_view(lines@);
        match self.schema_version {
            Some(v) => {
                let mut line = owned("Schema version: ");
                push_signed(&mut line, v);
                push_str(&mut line, " (supported: 4)");
                push_line(&mut lines, line);
            },
            None => {},
        }
        assert(strings_view(lines@) =~= l2 + match r.schema_version {
            Some(v) => seq!["Schema version: "@ + int_decimal(v as int) + " (supported: 4)"@],
            None => Seq::<Seq<char>>::empty(),
        });
        push_optional_line(&mut lines, "QSOs: ", self.qso_count, "");
        push_optional_line(&mut lines, "ADIF extra fields: ", self.adif_extra_count, "");
        assert(""@ =~= Seq::<char>::empty()) by {
            reveal_strlit("");
        }
        let ghost l5 = strings_view(lines@);
        if self.counts_by_mode.len() > 0 {
            let mut parts: Vec<String> = Vec::new();
            let mut i: usize = 0;
            while i < self.counts_by_mode.len()
                invariant
                    i <= self.counts_by_mode@.len(),
                    strings_view(parts@) == mode_count_texts(counts_view(self.counts_by_mode@)).take(i as int),
                decreases self.counts_by_mode@.len() - i,
            {
                let mut part = clone_string(&self.counts_by_mode[i].0);
                push_str(&mut part, "=");
                push_unsigned(&mut part, self.counts_by_mode[i].1);
                push_line(&mut parts, part);
                assert(strings_view(parts@) =~= mode_count_texts(counts_view(self.counts_by_mode@)).take(i + 1));
                i = i + 1;
            }
            assert(mode_count_texts(counts_view(self.counts_by_mode@)).take(self.counts_by_mode@.len() as int)
                =~= mode_count_texts(counts_view(self.counts_by_mode@)));
            let mut line = owned("Modes: ");
            push_str(&mut line, join(&parts, ", ").as_str());
            push_line(&mut lines, line);
        }
        assert(strings_view(lines@) =~= l5 + if r.counts_by_mode.len() == 0 {
            Seq::<Seq<char>>::empty()
        } else {
            seq!["Modes: "@ + crate::logbook::qso_list::joined(mode_count_texts(r.counts_by_mode), ", "@)]
        });
        let ghost l6 = strings_view(lines@);
        let mut k: usize = 0;
        while k < self.findings.len()
            invariant
                k <= self.findings@.len(),
                strings_view(lines@) == l6 + finding_lines(findings_view(self.findings@)).take(k as int),
            decreases self.findings@.len() - k,
        {
            let mut line = owned("[");
            push_str(&mut line, self.findings[k].code);
            push_str(&mut line, "] ");
            push_str(&mut line, self.findings[k].message.as_str());
            push_line(&mut lines, line);
            assert(strings_view(lines@) =~= l6 + finding_lines(findings_view(self.findings@)).take(k + 1));
            k = k + 1;
        }
        assert(finding_lines(findings_view(self.findings@)).take(self.findings@.len() as int) =~= finding_lines(
            findings_view(self.findings@),
        ));
        assert(strings_view(lines@) =~= diagnostic_lines(r, self.file_size, database@));
        join(&lines, "\n")
    }

    /// The report as text, naming the database by its file name (or
    /// `database` when there is none).
    pub fn diagnostic_text(&self) -> (s: String)
        ensures
            self.path is None ==> s@ == spec_diagnostic_text(self.assessed_view(), self.file_size, "database"@),
            exists|name: Seq<char>| s@ == spec_diagnostic_text(self.assessed_view(), self.file_size, name),
    {
        let name = match &self.path {
            Some(path) => match path_file_name(path.as_str()) {
                Some(name) => name,
                None => owned("database"),
            },
            None => owned("database"),
        };
        let s = self.diagnostic_text_for(name.as_str());
        assert(s@ == spec_diagnostic_text(self.assessed_view(), self.file_size, name@));
        s
    }
}


/// Some object the schema's version expects is missing from it.
pub open spec fn lacks_expected_object(expected: Seq<Seq<char>>, objects: Seq<Seq<char>>) -> bool {
    exists|k: int| 0 <= k < expected.len() && !objects.contains(#[trigger] expected[k])
}

/// A missing expected object is reported as a missing object.
proof fn lemma_missing_object_reported(expected: Seq<Seq<char>>, objects: Seq<Seq<char>>, k: int)
    requires
        0 <= k < expected.len(),
        !objects.contains(expected[k]),
    ensures
        exists|j: int|
            0 <= j < missing_object_findings(expected, objects).len()
                && #[trigger] missing_object_findings(expected, objects)[j].code == "missing-object"@,
    decreases expected.len(),
{
    let prefix = missing_object_findings(expected.drop_last(), objects);
    if k == expected.len() - 1 {
        assert(missing_object_findings(expected, objects)[prefix.len() as int].code == "missing-object"@);
    } else {
        lemma_missing_object_reported(expected.drop_last(), objects, k);
        let j = choose|j: int| 0 <= j < prefix.len() && #[trigger] prefix[j].code == "missing-object"@;
        assert(missing_object_findings(expected, objects)[j] == prefix[j]);
    }
}

/// Some metadata check counted at least one QSO.
pub open spec fn flags_some_check(checks: Seq<CheckView>, counts: Seq<Option<u64>>) -> bool {
    exists|i: int| 0 <= i < checks.len() && i < counts.len() && (#[trigger] counts[i] matches Some(n) && n > 0)
}

/// Every metadata check reports a `metadata` or `dmr-route` finding.
proof fn lemma_check_codes(objects: Seq<Seq<char>>, i: int)
    requires
        0 <= i < spec_metadata_checks(objects).len(),
    ensures
        spec_metadata_checks(objects)[i].code == "metadata"@ || spec_metadata_checks(objects)[i].code
            == "dmr-route"@,
{
    let available = available_tables(objects);
    let a = mode_checks(available, objects.contains("table:digital_routes"@));
    let b = generic_check(available);
    let c = route_checks(objects);
    assert(spec_metadata_checks(objects) == a + b + c);
    if i < a.len() {
        assert((a + b + c)[i] == a[i]);
    } else if i < a.len() + b.len() {
        assert((a + b + c)[i] == b[i - a.len()]);
    } else {
        assert((a + b + c)[i] == c[i - a.len() - b.len()]);
    }
}

/// A check that counted QSOs is reported with its own code.
proof fn lemma_check_reported(checks: Seq<CheckView>, counts: Seq<Option<u64>>, i: int)
    requires
        0 <= i < checks.len(),
        i < counts.len(),
        counts[i] matches Some(n) && n > 0,
    ensures
        exists|j: int|
            0 <= j < check_findings(checks, counts).len() && #[trigger] check_findings(checks, counts)[j].code
                == checks[i].code,
    decreases checks.len(),
{
    let prefix = check_findings(checks.drop_last(), counts);
    if i == checks.len() - 1 {
        assert(check_findings(checks, counts)[prefix.len() as int].code == checks[i].code);
    } else {
        lemma_check_reported(checks.drop_last(), counts, i);
        let j = choose|j: int| 0 <= j < prefix.len() && #[trigger] prefix[j].code == checks.drop_last()[i].code;
        assert(check_findings(checks, counts)[j] == prefix[j]);
    }
}

/// A finding with an invalidating code among the findings makes the status
/// invalid or corrupt.
proof fn lemma_invalidating_found(quick_ok: bool, sequence_ok: bool, findings: Seq<FindingView>, version: Option<i64>, j: int)
    requires
        0 <= j < findings.len(),
        findings[j].code == "missing-object"@ || findings[j].code == "foreign-key"@ || findings[j].code
            == "metadata"@ || findings[j].code == "dmr-route"@,
    ensures
        concluded_status(quick_ok, sequence_ok, findings, version) == HealthStatus::InvalidOrCorrupt,
{
    assert(is_invalidating(findings[j].code));
}

/// A database is invalid or corrupt when its quick check does not answer
/// exactly `ok` (in any case), when its schema or migrations cannot be read,
/// when its migration table is missing or its migrations are out of
/// sequence, when an object its schema version expects is missing, or when
/// foreign keys are violated, or when a metadata check of a schema holding
/// QSOs counts any QSO.
pub proof fn law_broken_databases_are_invalid(r: AssessedView, e: HealthEvidence)
    ensures
        (e.foreign_key_violations matches Some(n) && n > 0) ==> spec_assessed(r, e).status
            == HealthStatus::InvalidOrCorrupt,
        !(e.quick_check matches Ok(m) && m@.len() == 1 && eq_ignore_case(m@[0]@, "ok"@))
            ==> spec_assessed(r, e).status == HealthStatus::InvalidOrCorrupt,
        e.objects is Err ==> spec_assessed(r, e).status == HealthStatus::InvalidOrCorrupt,
        e.migration_versions is Err ==> spec_assessed(r, e).status == HealthStatus::InvalidOrCorrupt,
        (e.objects matches Ok(o) && !strings_view(o@).contains("table:schema_migrations"@))
            ==> spec_assessed(r, e).status == HealthStatus::InvalidOrCorrupt,
        (e.migration_versions matches Ok(v) && !migration_sequence_ok(v@)) ==> spec_assessed(r, e).status
            == HealthStatus::InvalidOrCorrupt,
        (e.objects matches Ok(o) && e.migration_versions matches Ok(v) && v@.len() > 0
            && lacks_expected_object(spec_expected_objects(clamp_version(v@.last())), strings_view(o@)))
            ==> spec_assessed(r, e).status == HealthStatus::InvalidOrCorrupt,
        (e.objects matches Ok(o) && strings_view(o@).contains("table:qsos"@) && flags_some_check(
            spec_metadata_checks(strings_view(o@)),
            e.metadata_counts@,
        )) ==> spec_assessed(r, e).status == HealthStatus::InvalidOrCorrupt,
{
    if let Ok(m) = e.quick_check {
        let messages = strings_view(m@);
        let quick_ok = messages.len() == 1 && eq_ignore_case(messages[0], "ok"@);
        if let Ok(o) = e.objects {
            let objects = strings_view(o@);
            if objects.contains("table:schema_migrations"@) {
                if let Ok(v) = e.migration_versions {
                    let versions = v@;
                    let r1 = AssessedView {
                        quick_check_messages: messages,
                        findings: if quick_ok {
                            r.findings
                        } else {
                            r.findings.push(finding_of("quick-check"@, "SQLite quick check reported a problem"@))
                        },
                        ..r
                    };
                    assert(spec_assessed(r, e) == assessed_schema(r1, quick_ok, objects, versions, e));
                    let version = if versions.len() > 0 {
                        Some(versions.last())
                    } else {
                        None
                    };
                    let sequence_ok = migration_sequence_ok(versions);
                    let f1 = r1.findings + if sequence_ok {
                        Seq::empty()
                    } else {
                        seq![
                            finding_of(
                                "migration-sequence"@,
                                "Migration versions are missing, duplicated, or out of sequence"@,
                            ),
                        ]
                    };
                    let missing = match version {
                        Some(x) => missing_object_findings(spec_expected_objects(clamp_version(x)), objects),
                        None => Seq::empty(),
                    };
                    let f2 = f1 + missing;
                    let fk = if e.foreign_key_violations is Some && e.foreign_key_violations->0 > 0 {
                        seq![finding_of("foreign-key"@, "Foreign key violations were found"@)]
                    } else {
                        Seq::empty()
                    };
                    let f3 = f2 + fk;
                    let checks = if objects.contains("table:qsos"@) {
                        check_findings(spec_metadata_checks(objects), e.metadata_counts@)
                    } else {
                        Seq::empty()
                    };
                    let f4 = f3 + checks;
                    assert(spec_assessed(r, e).status == concluded_status(quick_ok, sequence_ok, f4, version));
                    if e.foreign_key_violations matches Some(n) && n > 0 {
                        assert(f4[f2.len() as int] == fk[0]);
                        lemma_invalidating_found(quick_ok, sequence_ok, f4, version, f2.len() as int);
                    }
                    if versions.len() > 0 && lacks_expected_object(
                        spec_expected_objects(clamp_version(versions.last())),
                        objects,
                    ) {
                        let expected = spec_expected_objects(clamp_version(versions.last()));
                        let k = choose|k: int| 0 <= k < expected.len() && !objects.contains(#[trigger] expected[k]);
                        lemma_missing_object_reported(expected, objects, k);
                        let j = choose|j: int| 0 <= j < missing.len() && #[trigger] missing[j].code == "missing-object"@;
                        assert(f4[f1.len() + j] == missing[j]);
                        lemma_invalidating_found(quick_ok, sequence_ok, f4, version, f1.len() + j);
                    }
                    if objects.contains("table:qsos"@) && flags_some_check(
                        spec_metadata_checks(objects),
                        e.metadata_counts@,
                    ) {
                        let cs = spec_metadata_checks(objects);
                        let counts = e.metadata_counts@;
                        let i = choose|i: int|
                            0 <= i < cs.len() && i < counts.len() && (#[trigger] counts[i] matches Some(n) && n > 0);
                        lemma_check_codes(objects, i);
                        lemma_check_reported(cs, counts, i);
                        let j = choose|j: int| 0 <= j < checks.len() && #[trigger] checks[j].code == cs[i].code;
                        assert(f4[f3.len() + j] == checks[j]);
                        lemma_invalidating_found(quick_ok, sequence_ok, f4, version, f3.len() + j);
                    }
                }
            }
        }
    }
}


/// A database that is not invalid has a migration history of exactly
/// versions 1 to its schema version, and its status follows that version:
/// newer than supported is future-incompatible, older is healthy but
/// migratable, the supported one is healthy and current.
pub proof fn law_status_follows_schema_version(r: AssessedView, e: HealthEvidence)
    ensures
        spec_assessed(r, e).status != HealthStatus::InvalidOrCorrupt ==> {
            &&& spec_assessed(r, e).schema_version is Some
            &&& migration_sequence_ok(spec_assessed(r, e).migration_versions)
            &&& spec_assessed(r, e).schema_version->0 == spec_assessed(r, e).migration_versions.last()
            &&& spec_assessed(r, e).schema_version->0 > CURRENT_SCHEMA_VERSION ==> spec_assessed(r, e).status
                == HealthStatus::FutureIncompatible
            &&& spec_assessed(r, e).schema_version->0 < CURRENT_SCHEMA_VERSION ==> spec_assessed(r, e).status
                == HealthStatus::HealthyMigratableOld
            &&& spec_assessed(r, e).schema_version->0 == CURRENT_SCHEMA_VERSION ==> spec_assessed(r, e).status
                == HealthStatus::HealthyCurrent
        },
{
}

} // verus!
