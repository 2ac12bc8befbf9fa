//! Planning an ADIF import: which records are valid, which repeat a QSO
//! that is already in the logbook (or earlier in the file), and the preview
//! shown before anything is written.
use vstd::prelude::*;

use super::tally::{count_of, entries_view, tallies, tally_add};
use crate::adif::converter::{spec_record_to_domain, ImportedView};
use crate::adif::{record_to_domain, AdifDocument, AdifRecord, FieldView, ImportedQso};
use crate::domain::qso::NewQsoView;
use crate::domain::NewQso;
use crate::text::{clone_string, decimal, owned, push_str, push_unsigned, std_to_uppercase, trim, vec_eq};

verus! {

/// What makes two QSOs the same contact.
#[derive(Debug, Clone, PartialEq, Eq)]
pub struct QsoIdentity {
    pub callsign: String,
    pub datetime_start_utc: i64,
    pub frequency_hz: i64,
    pub mode: String,
}

pub struct IdentityView {
    pub callsign: Seq<char>,
    pub datetime_start_utc: i64,
    pub frequency_hz: i64,
    pub mode: Seq<char>,
}

impl View for QsoIdentity {
    type V = IdentityView;

    open spec fn view(&self) -> IdentityView {
        IdentityView {
            callsign: self.callsign@,
            datetime_start_utc: self.datetime_start_utc,
            frequency_hz: self.frequency_hz,
            mode: self.mode@,
        }
    }
}

pub open spec fn identity_of(q: NewQsoView) -> IdentityView {
    IdentityView {
        callsign: q.callsign,
        datetime_start_utc: q.datetime_start_utc,
        frequency_hz: q.frequency_hz,
        mode: q.mode,
    }
}

impl QsoIdentity {
    /// The identity of a validated QSO (already normalized).
    pub fn of_qso(qso: &NewQso) -> (i: QsoIdentity)
        ensures
            i@ == identity_of(qso@),
    {
        QsoIdentity {
            callsign: clone_string(&qso.callsign),
            datetime_start_utc: qso.datetime_start_utc,
            frequency_hz: qso.frequency_hz,
            mode: clone_string(&qso.mode),
        }
    }

    /// The identity of a stored QSO: callsign and mode trimmed and
    /// uppercased as a new QSO would have them.
    pub fn from_stored(callsign: &str, datetime_start_utc: i64, frequency_hz: i64, mode: &str) -> (i:
        QsoIdentity)
        ensures
            i@.callsign == std_to_uppercase(trim(callsign@)),
            i@.mode == std_to_uppercase(trim(mode@)),
            i@.datetime_start_utc == datetime_start_utc,
            i@.frequency_hz == frequency_hz,
    {
        let c = crate::text::trim_str(callsign);
        let m = crate::text::trim_str(mode);
        QsoIdentity {
            callsign: crate::text::string_of(&crate::text::to_uppercase_vec(&c)),
            datetime_start_utc,
            frequency_hz,
            mode: crate::text::string_of(&crate::text::to_uppercase_vec(&m)),
        }
    }
}

fn same_identity(a: &QsoIdentity, b: &QsoIdentity) -> (r: bool)
    ensures
        r == (a@ == b@),
{
    a.datetime_start_utc == b.datetime_start_utc && a.frequency_hz == b.frequency_hz && vec_eq(
        &crate::text::chars_of(a.callsign.as_str()),
        &crate::text::chars_of(b.callsign.as_str()),
    ) && vec_eq(&crate::text::chars_of(a.mode.as_str()), &crate::text::chars_of(b.mode.as_str()))
}

pub open spec fn identities_view(ids: Seq<QsoIdentity>) -> Seq<IdentityView> {
    ids.map_values(|i: QsoIdentity| i@)
}

fn contains_identity(ids: &Vec<QsoIdentity>, id: &QsoIdentity) -> (r: bool)
    ensures
        r == identities_view(ids@).contains(id@),
{
    let mut i: usize = 0;
    while i < ids.len()
        invariant
            i <= ids@.len(),
            forall|k: int| 0 <= k < i ==> identities_view(ids@)[k] != id@,
        decreases ids@.len() - i,
    {
        if same_identity(&ids[i], id) {
            assert(identities_view(ids@)[i as int] == id@);
            return true;
        }
        i = i + 1;
    }
    false
}

/// What an import wrote.
#[derive(Debug, Clone, Copy, Default, PartialEq, Eq)]
pub struct AdifImportReport {
    pub imported: usize,
    pub duplicates_skipped: usize,
}

/// What an import would do, shown before it is confirmed.
#[derive(Debug, Clone, Default, PartialEq, Eq)]
pub struct AdifImportPreview {
    pub total: usize,
    pub new_qsos: usize,
    pub duplicates: usize,
    pub invalid: usize,
    /// Valid records per mode, in mode order.
    pub modes: Vec<(String, usize)>,
    /// Valid records per band (`Unknown` without one), in band order.
    pub bands: Vec<(String, usize)>,
    pub earliest_utc: Option<i64>,
    pub latest_utc: Option<i64>,
    /// Why records were refused: at most twenty, then a line for the rest.
    pub invalid_details: Vec<String>,
}

/// A prepared import: the preview and the QSOs that would be written.
pub struct AdifImportPlan {
    preview: AdifImportPreview,
    qsos: Vec<ImportedQso>,
}

/// The records of a document processed so far.
pub struct PlanState {
    pub new_qsos: nat,
    pub duplicates: nat,
    pub invalid: nat,
    pub qsos: Seq<ImportedView>,
    pub identities: Seq<IdentityView>,
    pub modes: Seq<Seq<char>>,
    pub bands: Seq<Seq<char>>,
    pub earliest: Option<i64>,
    pub latest: Option<i64>,
    pub invalid_messages: Seq<Seq<char>>,
}

pub open spec fn band_key(band: Option<Seq<char>>) -> Seq<char> {
    match band {
        Some(b) => b,
        None => "Unknown"@,
    }
}

pub open spec fn invalid_message(index: nat, message: Seq<char>) -> Seq<char> {
    "Record "@ + decimal(index + 1) + " — "@ + message
}

pub open spec fn min_start(current: Option<i64>, t: i64) -> Option<i64> {
    match current {
        Some(c) => Some(
            if t < c {
                t
            } else {
                c
            },
        ),
        None => Some(t),
    }
}

pub open spec fn max_start(current: Option<i64>, t: i64) -> Option<i64> {
    match current {
        Some(c) => Some(
            if t > c {
                t
            } else {
                c
            },
        ),
        None => Some(t),
    }
}

/// The plan after the first `n` records: an invalid record is counted with
/// its message; a valid one is tallied, then it is a duplicate when its
/// identity is already known (stored, or an earlier new record), else new.
pub open spec fn plan_prefix(
    records: Seq<Seq<FieldView>>,
    existing: Seq<IdentityView>,
    n: nat,
) -> PlanState
    decreases n,
{
    if n == 0 {
        PlanState {
            new_qsos: 0,
            duplicates: 0,
            invalid: 0,
            qsos: Seq::empty(),
            identities: existing,
            modes: Seq::empty(),
            bands: Seq::empty(),
            earliest: None,
            latest: None,
            invalid_messages: Seq::empty(),
        }
    } else {
        plan_step(plan_prefix(records, existing, (n - 1) as nat), (n - 1) as nat, records[n - 1])
    }
}

/// At most twenty refusal messages, then how many more were left out.
pub open spec fn shown_details(messages: Seq<Seq<char>>) -> Seq<Seq<char>> {
    if messages.len() <= 20 {
        messages
    } else {
        messages.take(20).push(
            "… "@ + decimal((messages.len() - 20) as nat) + " additional invalid record(s) omitted"@,
        )
    }
}

/// Every record is new, a duplicate or invalid.
pub proof fn lemma_plan_counts(records: Seq<Seq<FieldView>>, existing: Seq<IdentityView>, n: nat)
    ensures
        plan_prefix(records, existing, n).new_qsos + plan_prefix(records, existing, n).duplicates
            + plan_prefix(records, existing, n).invalid == n,
        plan_prefix(records, existing, n).invalid == plan_prefix(records, existing, n).invalid_messages.len(),
        plan_prefix(records, existing, n).new_qsos == plan_prefix(records, existing, n).qsos.len(),
        plan_prefix(records, existing, n).modes.len() == plan_prefix(records, existing, n).new_qsos
            + plan_prefix(records, existing, n).duplicates,
        plan_prefix(records, existing, n).bands.len() == plan_prefix(records, existing, n).modes.len(),
    decreases n,
{
    if n > 0 {
        lemma_plan_counts(records, existing, (n - 1) as nat);
    }
}

pub open spec fn imported_views(qsos: Seq<ImportedQso>) -> Seq<ImportedView> {
    qsos.map_values(|q: ImportedQso| q@)
}

pub open spec fn strings_view(v: Seq<String>) -> Seq<Seq<char>> {
    v.map_values(|s: String| s@)
}

/// The preview agrees with the plan of all the records.
pub open spec fn preview_matches(
    preview: AdifImportPreview,
    records: Seq<Seq<FieldView>>,
    existing: Seq<IdentityView>,
) -> bool {
    let s = plan_prefix(records, existing, records.len());
    &&& preview.total == records.len()
    &&& preview.new_qsos == s.new_qsos
    &&& preview.duplicates == s.duplicates
    &&& preview.invalid == s.invalid
    &&& tallies(entries_view(preview.modes@), s.modes)
    &&& tallies(entries_view(preview.bands@), s.bands)
    &&& preview.earliest_utc == s.earliest
    &&& preview.latest_utc == s.latest
    &&& strings_view(preview.invalid_details@) == shown_details(s.invalid_messages)
}

impl AdifImportPlan {
    /// The preview of the import.
    pub fn preview(&self) -> (p: &AdifImportPreview)
        ensures
            *p == self.spec_preview(),
    {
        &self.preview
    }

    /// The QSOs the import would write, in file order.
    pub fn qsos(&self) -> (q: &Vec<ImportedQso>)
        ensures
            imported_views(q@) == self.spec_qsos(),
    {
        &self.qsos
    }

    /// The plan never holds more QSOs than its preview counts as new, so
    /// the counts of a confirmation fit.
    #[verifier::type_invariant]
    spec fn counts_fit(&self) -> bool {
        &&& self.preview.duplicates + self.qsos@.len() <= usize::MAX
        &&& self.preview.new_qsos == self.qsos@.len()
    }

    pub closed spec fn spec_preview(&self) -> AdifImportPreview {
        self.preview
    }

    pub closed spec fn spec_qsos(&self) -> Seq<ImportedView> {
        imported_views(self.qsos@)
    }
}

fn record_message(index: usize, message: &String) -> (s: String)
    requires
        index < usize::MAX,
    ensures
        s@ == invalid_message(index as nat, message@),
{
    let mut s = owned("Record ");
    push_unsigned(&mut s, (index + 1) as u64);
    push_str(&mut s, " — ");
    push_str(&mut s, message.as_str());
    s
}

proof fn lemma_count_bounded(keys: Seq<Seq<char>>, k: Seq<char>)
    ensures
        count_of(keys, k) <= keys.len(),
    decreases keys.len(),
{
    if keys.len() > 0 {
        lemma_count_bounded(keys.drop_last(), k);
    }
}

pub open spec fn detail_count(n: nat) -> nat {
    if n < 20 {
        n
    } else {
        20
    }
}

struct Accumulator {
    identities: Vec<QsoIdentity>,
    qsos: Vec<ImportedQso>,
    modes: Vec<(String, usize)>,
    bands: Vec<(String, usize)>,
    details: Vec<String>,
    new_qsos: usize,
    duplicates: usize,
    invalid: usize,
    earliest: Option<i64>,
    latest: Option<i64>,
}

impl Accumulator {
    spec fn matches(&self, s: PlanState) -> bool {
        &&& self.new_qsos == s.new_qsos
        &&& self.duplicates == s.duplicates
        &&& self.invalid == s.invalid
        &&& imported_views(self.qsos@) == s.qsos
        &&& identities_view(self.identities@) == s.identities
        &&& tallies(entries_view(self.modes@), s.modes)
        &&& tallies(entries_view(self.bands@), s.bands)
        &&& self.earliest == s.earliest
        &&& self.latest == s.latest
        &&& strings_view(self.details@) == s.invalid_messages.take(
            detail_count(s.invalid_messages.len()) as int,
        )
    }
}

/// The plan after one more record.
pub open spec fn plan_step(s: PlanState, index: nat, record: Seq<FieldView>) -> PlanState {
    match spec_record_to_domain(record) {
        Err(m) => PlanState {
            invalid: s.invalid + 1,
            invalid_messages: s.invalid_messages.push(invalid_message(index, m)),
            ..s
        },
        Ok(imported) => valid_step(s, imported),
    }
}

pub open spec fn valid_step(s: PlanState, imported: ImportedView) -> PlanState {
    let q = imported.qso;
    let id = identity_of(q);
    if s.identities.contains(id) {
        PlanState {
            duplicates: s.duplicates + 1,
            modes: s.modes.push(q.mode),
            bands: s.bands.push(band_key(q.band)),
            earliest: min_start(s.earliest, q.datetime_start_utc),
            latest: max_start(s.latest, q.datetime_start_utc),
            ..s
        }
    } else {
        PlanState {
            new_qsos: s.new_qsos + 1,
            qsos: s.qsos.push(imported),
            identities: s.identities.push(id),
            modes: s.modes.push(q.mode),
            bands: s.bands.push(band_key(q.band)),
            earliest: min_start(s.earliest, q.datetime_start_utc),
            latest: max_start(s.latest, q.datetime_start_utc),
            ..s
        }
    }
}

proof fn lemma_plan_prefix_step(records: Seq<Seq<FieldView>>, existing: Seq<IdentityView>, i: nat)
    requires
        i < records.len(),
    ensures
        plan_prefix(records, existing, i + 1) == plan_step(plan_prefix(records, existing, i), i, records[i as int]),
{
}

fn add_invalid(acc: &mut Accumulator, index: usize, message: &String, Ghost(s): Ghost<PlanState>)
    requires
        old(acc).matches(s),
        index < usize::MAX,
        s.invalid < usize::MAX,
    ensures
        final(acc).matches(PlanState {
            invalid: s.invalid + 1,
            invalid_messages: s.invalid_messages.push(invalid_message(index as nat, message@)),
            ..s
        }),
{
    let ghost msgs = s.invalid_messages;
    let ghost next = msgs.push(invalid_message(index as nat, message@));
    assert(strings_view(acc.details@).len() == acc.details@.len());
    assert(acc.details@.len() == detail_count(msgs.len()));
    if acc.details.len() < 20 {
        let ghost before = acc.details@;
        let line = record_message(index, message);
        acc.details.push(line);
        assert(msgs.take(detail_count(msgs.len()) as int) =~= msgs);
        assert(strings_view(acc.details@) =~= strings_view(before).push(invalid_message(index as nat, message@)));
        assert(strings_view(acc.details@) =~= next.take(detail_count(next.len()) as int));
    } else {
        assert(msgs.len() >= 20);
        assert(next.take(20) =~= msgs.take(20));
        assert(strings_view(acc.details@) =~= next.take(detail_count(next.len()) as int));
    }
    acc.invalid = acc.invalid + 1;
}

fn add_valid(acc: &mut Accumulator, imported: ImportedQso, Ghost(s): Ghost<PlanState>)
    requires
        old(acc).matches(s),
        s.modes.len() < usize::MAX,
        s.bands.len() < usize::MAX,
        s.new_qsos < usize::MAX,
        s.duplicates < usize::MAX,
    ensures
        final(acc).matches(valid_step(s, imported@)),
{
    proof {
        lemma_count_bounded(s.modes, imported.qso@.mode);
        lemma_count_bounded(s.bands, band_key(imported.qso@.band));
    }
    let mode = clone_string(&imported.qso.mode);
    tally_add(&mut acc.modes, mode, Ghost(s.modes));
    let band = match &imported.qso.band {
        Some(b) => clone_string(b),
        None => owned("Unknown"),
    };
    tally_add(&mut acc.bands, band, Ghost(s.bands));
    let t = imported.qso.datetime_start_utc;
    acc.earliest = Some(
        match acc.earliest {
            Some(c) => if t < c {
                t
            } else {
                c
            },
            None => t,
        },
    );
    acc.latest = Some(
        match acc.latest {
            Some(c) => if t > c {
                t
            } else {
                c
            },
            None => t,
        },
    );
    let id = QsoIdentity::of_qso(&imported.qso);
    if contains_identity(&acc.identities, &id) {
        acc.duplicates = acc.duplicates + 1;
    } else {
        let ghost before_ids = acc.identities@;
        let ghost before_qsos = acc.qsos@;
        let ghost v = imported@;
        acc.identities.push(id);
        acc.qsos.push(imported);
        assert(identities_view(acc.identities@) =~= identities_view(before_ids).push(
            identity_of(v.qso),
        ));
        assert(imported_views(acc.qsos@) =~= imported_views(before_qsos).push(v));
        acc.new_qsos = acc.new_qsos + 1;
    }
}

/// Plans the import of a document into a logbook that already holds the
/// `existing` identities: each record is converted; invalid ones are
/// counted with a message, valid ones tallied by mode and band, and kept
/// unless their identity is already known (in the logbook, or earlier in
/// the file). Nothing is written.
#[verifier::spinoff_prover]
#[verifier::rlimit(40)]
pub fn plan_adif_import(document: &AdifDocument, existing: Vec<QsoIdentity>) -> (plan: AdifImportPlan)
    ensures
        preview_matches(
            plan.spec_preview(),
            crate::adif::records_view(document.records@),
            identities_view(existing@),
        ),
        plan.spec_qsos() == plan_prefix(
            crate::adif::records_view(document.records@),
            identities_view(existing@),
            document.records@.len(),
        ).qsos,
{
    let ghost records = crate::adif::records_view(document.records@);
    let ghost known = identities_view(existing@);
    let n = document.records.len();
    let mut acc = Accumulator {
        identities: existing,
        qsos: Vec::new(),
        modes: Vec::new(),
        bands: Vec::new(),
        details: Vec::new(),
        new_qsos: 0,
        duplicates: 0,
        invalid: 0,
        earliest: None,
        latest: None,
    };
    assert(entries_view(acc.modes@) =~= Seq::<(Seq<char>, nat)>::empty());
    assert(entries_view(acc.bands@) =~= Seq::<(Seq<char>, nat)>::empty());
    assert(imported_views(acc.qsos@) =~= Seq::<ImportedView>::empty());
    assert(strings_view(acc.details@) =~= Seq::<Seq<char>>::empty());
    let mut i: usize = 0;
    proof {
        let s0 = plan_prefix(records, known, 0);
        assert(s0.invalid_messages.take(0) =~= Seq::<Seq<char>>::empty());
        assert(identities_view(acc.identities@) == s0.identities);
        assert(tallies(entries_view(acc.modes@), s0.modes));
        assert(tallies(entries_view(acc.bands@), s0.bands));
        assert(acc.matches(s0));
    }
    while i < n
        invariant
            n == document.records@.len(),
            records == crate::adif::records_view(document.records@),
            known == identities_view(existing@),
            i <= n,
            acc.matches(plan_prefix(records, known, i as nat)),
        decreases n - i,
    {
        let ghost s = plan_prefix(records, known, i as nat);
        proof {
            lemma_plan_counts(records, known, i as nat);
            lemma_plan_prefix_step(records, known, i as nat);
        }
        assert(document.records@[i as int]@ == records[i as int]);
        match record_to_domain(&document.records[i]) {
            Err(e) => add_invalid(&mut acc, i, &e.message, Ghost(s)),
            Ok(imported) => add_valid(&mut acc, imported, Ghost(s)),
        }
        i = i + 1;
    }
    let ghost s = plan_prefix(records, known, n as nat);
    proof {
        lemma_plan_counts(records, known, n as nat);
    }
    assert(strings_view(acc.details@) == s.invalid_messages.take(
        detail_count(s.invalid_messages.len()) as int,
    ));
    assert(acc.invalid == s.invalid_messages.len());
    let mut details = acc.details;
    assert(strings_view(details@).len() == details@.len());
    if acc.invalid > details.len() {
        let mut line = owned("… ");
        push_unsigned(&mut line, (acc.invalid - details.len()) as u64);
        push_str(&mut line, " additional invalid record(s) omitted");
        details.push(line);
    }
    assert(strings_view(details@) =~= shown_details(s.invalid_messages));
    assert(acc.qsos@.len() == s.new_qsos) by {
        assert(imported_views(acc.qsos@).len() == acc.qsos@.len());
    }
    AdifImportPlan {
        preview: AdifImportPreview {
            total: n,
            new_qsos: acc.new_qsos,
            duplicates: acc.duplicates,
            invalid: acc.invalid,
            modes: acc.modes,
            bands: acc.bands,
            earliest_utc: acc.earliest,
            latest_utc: acc.latest,
            invalid_details: details,
        },
        qsos: acc.qsos,
    }
}

pub open spec fn qso_identities(qsos: Seq<ImportedView>) -> Seq<IdentityView> {
    qsos.map_values(|q: ImportedView| identity_of(q.qso))
}

/// The known identities are the stored ones followed by those of the
/// planned QSOs; the planned QSOs are all different from each other and
/// from the stored ones.
pub proof fn lemma_plan_identities(records: Seq<Seq<FieldView>>, existing: Seq<IdentityView>, n: nat)
    requires
        n <= records.len(),
    ensures
        plan_prefix(records, existing, n).identities == existing + qso_identities(
            plan_prefix(records, existing, n).qsos,
        ),
        forall|i: int, j: int|
            0 <= i < j < plan_prefix(records, existing, n).qsos.len() ==> identity_of(
                #[trigger] plan_prefix(records, existing, n).qsos[i].qso,
            ) != identity_of(#[trigger] plan_prefix(records, existing, n).qsos[j].qso),
        forall|i: int|
            0 <= i < plan_prefix(records, existing, n).qsos.len() ==> !existing.contains(
                identity_of(#[trigger] plan_prefix(records, existing, n).qsos[i].qso),
            ),
    decreases n,
{
    let s = plan_prefix(records, existing, n);
    if n == 0 {
        assert(qso_identities(s.qsos) =~= Seq::<IdentityView>::empty());
        assert(existing + Seq::<IdentityView>::empty() =~= existing);
    } else {
        lemma_plan_identities(records, existing, (n - 1) as nat);
        let p = plan_prefix(records, existing, (n - 1) as nat);
        lemma_plan_prefix_step(records, existing, (n - 1) as nat);
        match spec_record_to_domain(records[n - 1]) {
            Err(_) => {},
            Ok(imported) => {
                let id = identity_of(imported.qso);
                if !p.identities.contains(id) {
                    assert(qso_identities(s.qsos) =~= qso_identities(p.qsos).push(id));
                    assert(s.identities =~= existing + qso_identities(s.qsos));
                    assert forall|i: int, j: int|
                        0 <= i < j < s.qsos.len() implies identity_of(#[trigger] s.qsos[i].qso)
                        != identity_of(#[trigger] s.qsos[j].qso) by {
                        if j == s.qsos.len() - 1 {
                            assert(p.identities[existing.len() + i] == identity_of(p.qsos[i].qso));
                        }
                    }
                    assert forall|i: int| 0 <= i < s.qsos.len() implies !existing.contains(
                        identity_of(#[trigger] s.qsos[i].qso),
                    ) by {
                        if i == s.qsos.len() - 1 {
                            if existing.contains(id) {
                                let k = choose|k: int| 0 <= k < existing.len() && existing[k] == id;
                                assert(p.identities[k] == id);
                            }
                        }
                    }
                }
            },
        }
    }
}

/// An import preview accounts for every record of the document: each is
/// new, a duplicate, or invalid.
pub proof fn law_preview_accounts_for_every_record(
    preview: AdifImportPreview,
    records: Seq<Seq<FieldView>>,
    existing: Seq<IdentityView>,
)
    requires
        preview_matches(preview, records, existing),
    ensures
        preview.new_qsos + preview.duplicates + preview.invalid == preview.total,
{
    lemma_plan_counts(records, existing, records.len());
}

/// An import never plans a QSO that the logbook already holds, nor the same
/// QSO twice.
pub proof fn law_planned_qsos_are_new(records: Seq<Seq<FieldView>>, existing: Seq<IdentityView>)
    ensures
        forall|i: int, j: int|
            0 <= i < j < plan_prefix(records, existing, records.len()).qsos.len() ==> identity_of(
                #[trigger] plan_prefix(records, existing, records.len()).qsos[i].qso,
            ) != identity_of(#[trigger] plan_prefix(records, existing, records.len()).qsos[j].qso),
        forall|i: int|
            0 <= i < plan_prefix(records, existing, records.len()).qsos.len() ==> !existing.contains(
                identity_of(#[trigger] plan_prefix(records, existing, records.len()).qsos[i].qso),
            ),
{
    lemma_plan_identities(records, existing, records.len());
}

/// Which planned QSOs a confirmation writes: those whose identity is not
/// known by then (checked in order, each written one becoming known), and
/// how many were skipped.
pub open spec fn confirm_prefix(qsos: Seq<ImportedView>, known: Seq<IdentityView>, n: nat) -> (
    Seq<ImportedView>,
    Seq<IdentityView>,
    nat,
)
    decreases n,
{
    if n == 0 {
        (Seq::empty(), known, 0)
    } else {
        let (kept, ids, skipped) = confirm_prefix(qsos, known, (n - 1) as nat);
        let id = identity_of(qsos[n - 1].qso);
        if ids.contains(id) {
            (kept, ids, skipped + 1)
        } else {
            (kept.push(qsos[n - 1]), ids.push(id), skipped)
        }
    }
}

proof fn lemma_confirm_counts(qsos: Seq<ImportedView>, known: Seq<IdentityView>, n: nat)
    ensures
        confirm_prefix(qsos, known, n).0.len() + confirm_prefix(qsos, known, n).2 == n,
    decreases n,
{
    if n > 0 {
        lemma_confirm_counts(qsos, known, (n - 1) as nat);
    }
}

proof fn lemma_confirm_identities(qsos: Seq<ImportedView>, known: Seq<IdentityView>, n: nat)
    requires
        n <= qsos.len(),
    ensures
        confirm_prefix(qsos, known, n).1 == known + confirm_prefix(qsos, known, n).0.map_values(
            |q: ImportedView| identity_of(q.qso),
        ),
        forall|i: int|
            0 <= i < confirm_prefix(qsos, known, n).0.len() ==> !known.contains(
                identity_of(#[trigger] confirm_prefix(qsos, known, n).0[i].qso),
            ),
        forall|i: int, j: int|
            0 <= i < j < confirm_prefix(qsos, known, n).0.len() ==> identity_of(
                #[trigger] confirm_prefix(qsos, known, n).0[i].qso,
            ) != identity_of(#[trigger] confirm_prefix(qsos, known, n).0[j].qso),
    decreases n,
{
    if n == 0 {
        assert(known + Seq::<ImportedView>::empty().map_values(|q: ImportedView| identity_of(q.qso))
            =~= known);
    } else {
        lemma_confirm_identities(qsos, known, (n - 1) as nat);
        let (kept, ids, skipped) = confirm_prefix(qsos, known, (n - 1) as nat);
        let q = qsos[n - 1];
        let id = identity_of(q.qso);
        if !ids.contains(id) {
            let kept2 = kept.push(q);
            assert(kept2.map_values(|x: ImportedView| identity_of(x.qso)) =~= kept.map_values(
                |x: ImportedView| identity_of(x.qso),
            ).push(id));
            assert(ids.push(id) =~= known + kept2.map_values(|x: ImportedView| identity_of(x.qso)));
            assert forall|i: int| 0 <= i < kept.len() implies #[trigger] identity_of(kept[i].qso)
                != id by {
                assert(ids[known.len() + i] == identity_of(kept[i].qso));
            }
            assert forall|k: int| 0 <= k < known.len() implies known[k] != id by {
                assert(ids[k] == known[k]);
            }
            assert forall|i: int| 0 <= i < kept2.len() implies !known.contains(
                identity_of(#[trigger] kept2[i].qso),
            ) by {
                if i == kept.len() {
                    assert(kept2[i] == q);
                } else {
                    assert(kept2[i] == kept[i]);
                }
            }
            assert forall|i: int, j: int| 0 <= i < j < kept2.len() implies identity_of(
                #[trigger] kept2[i].qso,
            ) != identity_of(#[trigger] kept2[j].qso) by {
                assert(kept2[i] == kept[i]);
                if j == kept.len() {
                    assert(kept2[j] == q);
                } else {
                    assert(kept2[j] == kept[j]);
                }
            }
        }
    }
}

/// A confirmation accounts for every planned QSO (written or skipped), and
/// writes no QSO whose identity the logbook holds at that moment, nor two
/// with the same identity.
pub proof fn law_confirmation_writes_only_new(qsos: Seq<ImportedView>, known: Seq<IdentityView>)
    ensures
        confirm_prefix(qsos, known, qsos.len()).0.len() + confirm_prefix(qsos, known, qsos.len()).2
            == qsos.len(),
        forall|i: int|
            0 <= i < confirm_prefix(qsos, known, qsos.len()).0.len() ==> !known.contains(
                identity_of(#[trigger] confirm_prefix(qsos, known, qsos.len()).0[i].qso),
            ),
        forall|i: int, j: int|
            0 <= i < j < confirm_prefix(qsos, known, qsos.len()).0.len() ==> identity_of(
                #[trigger] confirm_prefix(qsos, known, qsos.len()).0[i].qso,
            ) != identity_of(#[trigger] confirm_prefix(qsos, known, qsos.len()).0[j].qso),
{
    lemma_confirm_counts(qsos, known, qsos.len());
    lemma_confirm_identities(qsos, known, qsos.len());
}

/// Confirms a plan against the identities the logbook holds now (another
/// import may have written some of the QSOs since the preview): the QSOs
/// to write, in order, and the report of the import once they are written.
pub fn confirm_import(plan: AdifImportPlan, current: Vec<QsoIdentity>) -> (r: (
    Vec<ImportedQso>,
    AdifImportReport,
))
    ensures
        imported_views(r.0@) == confirm_prefix(
            plan.spec_qsos(),
            identities_view(current@),
            plan.spec_qsos().len(),
        ).0,
        r.1.imported == r.0@.len(),
        r.1.imported + r.1.duplicates_skipped == plan.spec_preview().new_qsos
            + plan.spec_preview().duplicates,
        r.1.duplicates_skipped == plan.spec_preview().duplicates + confirm_prefix(
            plan.spec_qsos(),
            identities_view(current@),
            plan.spec_qsos().len(),
        ).2,
{
    proof {
        use_type_invariant(&plan);
    }
    let ghost all = plan.spec_qsos();
    let ghost known = identities_view(current@);
    let AdifImportPlan { preview, qsos } = plan;
    let n = qsos.len();
    let mut identities = current;
    let mut kept: Vec<ImportedQso> = Vec::new();
    let mut skipped: usize = 0;
    let mut remaining = qsos;
    assert(imported_views(kept@) =~= Seq::<ImportedView>::empty());
    assert(all.skip(0) =~= all);
    let mut i: usize = 0;
    while i < n
        invariant
            n == all.len(),
            preview.duplicates + n <= usize::MAX,
            i <= n,
            imported_views(remaining@) == all.skip(i as int),
            ({
                let c = confirm_prefix(all, known, i as nat);
                &&& imported_views(kept@) == c.0
                &&& identities_view(identities@) == c.1
                &&& skipped == c.2
            }),
        decreases n - i,
    {
        proof {
            lemma_confirm_counts(all, known, i as nat);
        }
        assert(imported_views(remaining@).len() == remaining@.len());
        let ghost before_remaining = remaining@;
        let q = remaining.remove(0);
        assert(q == before_remaining[0int]);
        assert(imported_views(before_remaining)[0] == all[i as int]);
        assert(imported_views(before_remaining)[0] == before_remaining[0]@);
        assert(q@ == before_remaining[0]@);
        assert(q@ == all[i as int]);
        assert forall|k: int| 0 <= k < remaining@.len() implies #[trigger] imported_views(
            remaining@,
        )[k] == all.skip(i + 1)[k] by {
            assert(remaining@[k] == before_remaining[k + 1]);
            assert(imported_views(before_remaining)[k + 1] == all.skip(i as int)[k + 1]);
        }
        assert(imported_views(remaining@) =~= all.skip(i + 1));
        let id = QsoIdentity::of_qso(&q.qso);
        if contains_identity(&identities, &id) {
            skipped = skipped + 1;
        } else {
            let ghost before_ids = identities@;
            let ghost before_kept = kept@;
            identities.push(id);
            kept.push(q);
            assert(identities_view(identities@) =~= identities_view(before_ids).push(
                identity_of(all[i as int].qso),
            ));
            assert(imported_views(kept@) =~= imported_views(before_kept).push(all[i as int]));
        }
        i = i + 1;
    }
    proof {
        lemma_confirm_counts(all, known, n as nat);
    }
    assert(imported_views(kept@).len() == kept@.len());
    let report = AdifImportReport { imported: kept.len(), duplicates_skipped: preview.duplicates + skipped };
    (kept, report)
}


/// The start time of record `i` when it converts to a QSO, else none.
#[verifier::opaque]
pub open spec fn valid_start(records: Seq<Seq<FieldView>>, i: int) -> Option<i64> {
    match spec_record_to_domain(records[i]) {
        Ok(v) => Some(v.qso.datetime_start_utc),
        Err(_) => None,
    }
}

/// `l` is the latest start time among the first `n` records that convert.
pub open spec fn is_latest_start(records: Seq<Seq<FieldView>>, n: int, l: i64) -> bool {
    &&& forall|i: int| 0 <= i < n ==> (#[trigger] valid_start(records, i) matches Some(t) ==> t <= l)
    &&& exists|i: int| 0 <= i < n && #[trigger] valid_start(records, i) == Some(l)
}

/// `e` is the earliest start time among the first `n` records that convert.
pub open spec fn is_earliest_start(records: Seq<Seq<FieldView>>, n: int, e: i64) -> bool {
    &&& forall|i: int| 0 <= i < n ==> (#[trigger] valid_start(records, i) matches Some(t) ==> e <= t)
    &&& exists|i: int| 0 <= i < n && #[trigger] valid_start(records, i) == Some(e)
}

/// None of the first `n` records converts.
pub open spec fn none_valid(records: Seq<Seq<FieldView>>, n: int) -> bool {
    forall|i: int| 0 <= i < n ==> #[trigger] valid_start(records, i) is None
}

/// One more record keeps the date range: one that does not convert leaves
/// it, one that does widens it to its start time.
proof fn lemma_range_step(
    records: Seq<Seq<FieldView>>,
    k: int,
    e0: Option<i64>,
    l0: Option<i64>,
    e1: Option<i64>,
    l1: Option<i64>,
)
    requires
        0 <= k,
        e0 is None <==> none_valid(records, k),
        l0 is None <==> none_valid(records, k),
        l0 matches Some(l) ==> is_latest_start(records, k, l),
        e0 matches Some(e) ==> is_earliest_start(records, k, e),
        valid_start(records, k) is None ==> e1 == e0 && l1 == l0,
        valid_start(records, k) matches Some(t) ==> e1 == min_start(e0, t) && l1 == max_start(l0, t),
    ensures
        e1 is None <==> none_valid(records, k + 1),
        l1 is None <==> none_valid(records, k + 1),
        l1 matches Some(l) ==> is_latest_start(records, k + 1, l),
        e1 matches Some(e) ==> is_earliest_start(records, k + 1, e),
{
    let n = k + 1;
    match valid_start(records, k) {
        None => {
            if none_valid(records, k) {
                assert forall|i: int| 0 <= i < n implies #[trigger] valid_start(records, i) is None by {
                    if i < k {
                        assert(valid_start(records, i) is None);
                    }
                }
            }
            if let Some(l) = l0 {
                assert forall|i: int| 0 <= i < n implies (#[trigger] valid_start(records, i) matches Some(t)
                    ==> t <= l) by {
                    if i < k {
                        assert(valid_start(records, i) matches Some(t) ==> t <= l);
                    }
                }
                let w = choose|i: int| 0 <= i < k && #[trigger] valid_start(records, i) == Some(l);
                assert(0 <= w < n && valid_start(records, w) == Some(l));
                assert(!none_valid(records, n));
            }
            if let Some(e) = e0 {
                assert forall|i: int| 0 <= i < n implies (#[trigger] valid_start(records, i) matches Some(t)
                    ==> e <= t) by {
                    if i < k {
                        assert(valid_start(records, i) matches Some(t) ==> e <= t);
                    }
                }
                let w = choose|i: int| 0 <= i < k && #[trigger] valid_start(records, i) == Some(e);
                assert(0 <= w < n && valid_start(records, w) == Some(e));
            }
        },
        Some(t) => {
            assert(!none_valid(records, n));
            let l = l1->0;
            assert forall|i: int| 0 <= i < n implies (#[trigger] valid_start(records, i) matches Some(x)
                ==> x <= l) by {
                if i < k {
                    if let Some(x) = valid_start(records, i) {
                        assert(l0 is Some);
                    }
                }
            }
            if l == t {
                assert(valid_start(records, k) == Some(l));
            } else {
                let w = choose|i: int| 0 <= i < k && #[trigger] valid_start(records, i) == Some(l);
                assert(0 <= w < n && valid_start(records, w) == Some(l));
            }
            let e = e1->0;
            assert forall|i: int| 0 <= i < n implies (#[trigger] valid_start(records, i) matches Some(x)
                ==> e <= x) by {
                if i < k {
                    if let Some(x) = valid_start(records, i) {
                        assert(e0 is Some);
                    }
                }
            }
            if e == t {
                assert(valid_start(records, k) == Some(e));
            } else {
                let w = choose|i: int| 0 <= i < k && #[trigger] valid_start(records, i) == Some(e);
                assert(0 <= w < n && valid_start(records, w) == Some(e));
            }
        },
    }
}

proof fn lemma_plan_range(records: Seq<Seq<FieldView>>, existing: Seq<IdentityView>, n: nat)
    requires
        n <= records.len(),
    ensures
        plan_prefix(records, existing, n).earliest is None <==> none_valid(records, n as int),
        plan_prefix(records, existing, n).latest is None <==> none_valid(records, n as int),
        plan_prefix(records, existing, n).latest matches Some(l) ==> is_latest_start(records, n as int, l),
        plan_prefix(records, existing, n).earliest matches Some(e) ==> is_earliest_start(records, n as int, e),
    decreases n,
{
    if n > 0 {
        let k = (n - 1) as nat;
        lemma_plan_range(records, existing, k);
        let s = plan_prefix(records, existing, k);
        let s2 = plan_prefix(records, existing, n);
        assert(s2 == plan_step(s, k, records[k as int]));
        reveal(valid_start);
        lemma_range_step(records, k as int, s.earliest, s.latest, s2.earliest, s2.latest);
    }
}

/// The preview's date range spans the start times of the records that
/// convert: the earliest is the least of them and the latest the greatest
/// (each one of them), so the earliest is never after the latest; both are
/// absent exactly when no record converts.
pub proof fn law_preview_date_range(
    preview: AdifImportPreview,
    records: Seq<Seq<FieldView>>,
    existing: Seq<IdentityView>,
)
    requires
        preview_matches(preview, records, existing),
    ensures
        preview.earliest_utc is None <==> none_valid(records, records.len() as int),
        preview.latest_utc is None <==> none_valid(records, records.len() as int),
        preview.latest_utc matches Some(l) ==> is_latest_start(records, records.len() as int, l),
        preview.earliest_utc matches Some(e) ==> is_earliest_start(records, records.len() as int, e),
        (preview.earliest_utc is Some && preview.latest_utc is Some) ==> preview.earliest_utc->0
            <= preview.latest_utc->0,
{
    lemma_plan_range(records, existing, records.len());
    if let (Some(e), Some(l)) = (preview.earliest_utc, preview.latest_utc) {
        let w = choose|i: int| 0 <= i < records.len() && #[trigger] valid_start(records, i) == Some(l);
        assert(valid_start(records, w) matches Some(t) ==> e <= t);
    }
}

} // verus!
