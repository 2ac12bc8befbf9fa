//! Checks made before the logbook is written: specialized metadata goes
//! with a QSO of its mode, an import refuses a document with any record it
//! cannot convert, and editing a QSO drops the imported extra fields that
//! its new mode reads itself.
use vstd::prelude::*;

use crate::adif::converter::{is_known, is_known_name, spec_record_to_domain};
use crate::adif::{AdifDocument, AdifField, FieldView};
use crate::adif::record_to_domain;
use crate::domain::NewQso;
use crate::text::{ascii_upper_seq, ascii_upper_vec, chars_of, decimal, owned, push_str, push_unsigned, str_eq};

verus! {

/// Specialized metadata is written only with a QSO of the metadata's mode.
pub open spec fn spec_require_mode(mode: Seq<char>, expected: Seq<char>) -> Result<(), Seq<char>> {
    if mode == expected {
        Ok(())
    } else {
        Err("specialized "@ + expected + " metadata is incompatible with QSO mode "@ + mode)
    }
}

pub fn require_mode(qso: &NewQso, expected: &str) -> (r: Result<(), String>)
    ensures
        match r {
            Ok(()) => spec_require_mode(qso.mode@, expected@) is Ok,
            Err(e) => spec_require_mode(qso.mode@, expected@) == Err::<(), Seq<char>>(e@),
        },
{
    if str_eq(qso.mode.as_str(), expected) {
        Ok(())
    } else {
        let mut s = owned("specialized ");
        push_str(&mut s, expected);
        push_str(&mut s, " metadata is incompatible with QSO mode ");
        push_str(&mut s, qso.mode.as_str());
        Err(s)
    }
}

/// The first of the first `n` records that does not convert, with the
/// reason.
pub open spec fn first_unconvertible(records: Seq<Seq<FieldView>>, n: nat) -> Option<(nat, Seq<char>)>
    decreases n,
{
    if n == 0 {
        None
    } else {
        match first_unconvertible(records, (n - 1) as nat) {
            Some(found) => Some(found),
            None => match spec_record_to_domain(records[n - 1]) {
                Err(m) => Some(((n - 1) as nat, m)),
                Ok(_) => None,
            },
        }
    }
}

/// What an import says of a document before it writes anything: the first
/// record that does not convert, numbered from one.
pub open spec fn spec_check_import(records: Seq<Seq<FieldView>>) -> Result<(), Seq<char>> {
    match first_unconvertible(records, records.len()) {
        None => Ok(()),
        Some((i, m)) => Err("ADIF record "@ + decimal(i + 1) + ": "@ + m),
    }
}

/// Refuses a document in which any record does not convert, naming the
/// first such record.
#[verifier::spinoff_prover]
#[verifier::rlimit(80)]
pub fn check_import_document(document: &AdifDocument) -> (r: Result<(), String>)
    ensures
        match r {
            Ok(()) => spec_check_import(document@.records) is Ok,
            Err(e) => spec_check_import(document@.records) == Err::<(), Seq<char>>(e@),
        },
{
    let ghost records = document@.records;
    let mut i: usize = 0;
    while i < document.records.len()
        invariant
            i <= document.records@.len(),
            records == document@.records,
            records.len() == document.records@.len(),
            first_unconvertible(records, i as nat) is None,
        decreases document.records@.len() - i,
    {
        assert(records[i as int] == document.records@[i as int]@);
        match record_to_domain(&document.records[i]) {
            Ok(_) => {},
            Err(error) => {
                proof {
                    assert(first_unconvertible(records, (i + 1) as nat) == Some(
                        (i as nat, error.message@),
                    ));
                    lemma_first_unconvertible_stays(records, (i + 1) as nat, records.len());
                }
                let mut s = owned("ADIF record ");
                push_unsigned(&mut s, (i as u64) + 1);
                push_str(&mut s, ": ");
                push_str(&mut s, error.message.as_str());
                return Err(s);
            },
        }
        i = i + 1;
    }
    Ok(())
}

/// Once a record is found, looking at more records finds the same one.
proof fn lemma_first_unconvertible_stays(records: Seq<Seq<FieldView>>, m: nat, n: nat)
    requires
        m <= n,
        first_unconvertible(records, m) is Some,
    ensures
        first_unconvertible(records, n) == first_unconvertible(records, m),
    decreases n - m,
{
    if m < n {
        lemma_first_unconvertible_stays(records, m, (n - 1) as nat);
    }
}

/// The extra fields a QSO keeps when it is saved with `mode`: those whose
/// name (in any case) the mode does not read itself, in order.
pub open spec fn spec_retained_fields(fields: Seq<FieldView>, mode: Seq<char>) -> Seq<FieldView> {
    fields.filter(|f: FieldView| !is_known_name(mode, ascii_upper_seq(f.name)))
}

pub open spec fn field_views(fields: Seq<AdifField>) -> Seq<FieldView> {
    fields.map_values(|f: AdifField| f@)
}

proof fn lemma_retained_step(s: Seq<FieldView>, i: int, mode: Seq<char>)
    requires
        0 <= i < s.len(),
    ensures
        spec_retained_fields(s.take(i + 1), mode) == if is_known_name(
            mode,
            ascii_upper_seq(s[i].name),
        ) {
            spec_retained_fields(s.take(i), mode)
        } else {
            spec_retained_fields(s.take(i), mode).push(s[i])
        },
{
    reveal(Seq::filter);
    assert(s.take(i + 1).drop_last() =~= s.take(i));
    assert(s.take(i + 1).last() == s[i]);
}

/// The extra fields a QSO keeps when it is saved with `mode`.
pub fn retained_extra_fields(fields: &Vec<AdifField>, mode: &str) -> (r: Vec<AdifField>)
    ensures
        field_views(r@) == spec_retained_fields(field_views(fields@), mode@),
{
    let ghost all = field_views(fields@);
    let mode_chars = chars_of(mode);
    let mut kept: Vec<AdifField> = Vec::new();
    let mut i: usize = 0;
    while i < fields.len()
        invariant
            i <= fields@.len(),
            all == field_views(fields@),
            mode_chars@ == mode@,
            field_views(kept@) == spec_retained_fields(all.take(i as int), mode@),
        decreases fields@.len() - i,
    {
        let ghost before = kept@;
        proof {
            lemma_retained_step(all, i as int, mode@);
        }
        let name = chars_of(fields[i].name.as_str());
        let upper = ascii_upper_vec(&name);
        if !is_known(&mode_chars, &upper) {
            let field = fields[i].copy();
            kept.push(field);
            assert(field_views(kept@) =~= field_views(before).push(all[i as int]));
        } else {
            assert(field_views(kept@) =~= field_views(before));
        }
        i = i + 1;
    }
    assert(all.take(fields@.len() as int) =~= all);
    kept
}

} // verus!
