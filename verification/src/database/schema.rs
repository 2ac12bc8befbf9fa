//! What opening a logbook decides about its schema: a newer schema is
//! refused, the migrations not yet applied run in order, and afterwards
//! every table the logbook uses must exist.
use vstd::prelude::*;

use super::health::CURRENT_SCHEMA_VERSION;
use crate::text::{decimal, owned, push_str, push_unsigned, str_eq};

verus! {

/// The schema version a database reports is one this library can use.
pub open spec fn spec_check_schema_version(version: Option<i64>) -> Result<(), Seq<char>> {
    match version {
        Some(v) => if v > CURRENT_SCHEMA_VERSION {
            Err(
                "database schema version is newer than supported version "@ + decimal(
                    CURRENT_SCHEMA_VERSION as nat,
                ),
            )
        } else {
            Ok(())
        },
        None => Ok(()),
    }
}

/// Refuses a database whose highest applied migration is newer than the
/// schema this library knows.
pub fn check_schema_version(version: Option<i64>) -> (r: Result<(), String>)
    ensures
        match r {
            Ok(()) => spec_check_schema_version(version) is Ok,
            Err(e) => spec_check_schema_version(version) == Err::<(), Seq<char>>(e@),
        },
{
    match version {
        Some(v) => if v > CURRENT_SCHEMA_VERSION {
            let mut s = owned("database schema version is newer than supported version ");
            push_unsigned(&mut s, CURRENT_SCHEMA_VERSION as u64);
            Err(s)
        } else {
            Ok(())
        },
        None => Ok(()),
    }
}

/// The migrations after the first, in the order they run.
pub open spec fn later_migrations() -> Seq<i64> {
    seq![2, 3, 4]
}

/// The later migrations not yet applied, in order.
pub open spec fn spec_pending_migrations(applied: Seq<i64>) -> Seq<i64> {
    later_migrations().filter(|v: i64| !applied.contains(v))
}

/// The migrations after the first one that still have to run, in order.
pub fn pending_migrations(applied: &Vec<i64>) -> (r: Vec<i64>)
    ensures
        r@ == spec_pending_migrations(applied@),
{
    let later: Vec<i64> = vec![2, 3, 4];
    assert(later@ =~= later_migrations());
    let mut pending: Vec<i64> = Vec::new();
    let mut i: usize = 0;
    while i < later.len()
        invariant
            i <= later@.len(),
            later@ == later_migrations(),
            pending@ == later_migrations().take(i as int).filter(|v: i64| !applied@.contains(v)),
        decreases later@.len() - i,
    {
        let v = later[i];
        let mut found = false;
        let mut j: usize = 0;
        while j < applied.len()
            invariant
                j <= applied@.len(),
                found <==> exists|k: int| 0 <= k < j && applied@[k] == v,
            decreases applied@.len() - j,
        {
            if applied[j] == v {
                found = true;
            }
            j = j + 1;
        }
        proof {
            reveal(Seq::filter);
            let s = later_migrations();
            assert(s.take(i + 1).drop_last() =~= s.take(i as int));
            assert(s.take(i + 1).last() == v);
            if found {
                let k = choose|k: int| 0 <= k < applied@.len() && applied@[k] == v;
                assert(applied@.contains(v));
            } else {
                assert(!applied@.contains(v));
            }
        }
        if !found {
            pending.push(v);
        }
        i = i + 1;
    }
    assert(later_migrations().take(3) =~= later_migrations());
    pending
}

/// The tables every logbook must have once it is migrated.
pub open spec fn spec_required_tables() -> Seq<Seq<char>> {
    seq![
        "schema_migrations"@,
        "qsos"@,
        "digital_routes"@,
        "dmr_metadata"@,
        "ft8_metadata"@,
        "adif_extra_fields"@,
    ]
}

/// The first required table the schema lacks.
pub open spec fn first_missing_table(present: Seq<Seq<char>>, n: nat) -> Option<Seq<char>>
    decreases n,
{
    if n == 0 {
        None
    } else {
        match first_missing_table(present, (n - 1) as nat) {
            Some(t) => Some(t),
            None => if present.contains(spec_required_tables()[n - 1]) {
                None
            } else {
                Some(spec_required_tables()[n - 1])
            },
        }
    }
}

pub open spec fn spec_check_required_tables(present: Seq<Seq<char>>) -> Result<(), Seq<char>> {
    match first_missing_table(present, 6) {
        None => Ok(()),
        Some(t) => Err("database schema is inconsistent: missing table "@ + t),
    }
}

/// Whether the names hold `name`.
fn has_name(present: &Vec<String>, name: &str) -> (b: bool)
    ensures
        b == crate::database::health::strings_view(present@).contains(name@),
{
    let ghost names = crate::database::health::strings_view(present@);
    let mut i: usize = 0;
    while i < present.len()
        invariant
            i <= present@.len(),
            names == crate::database::health::strings_view(present@),
            forall|k: int| 0 <= k < i ==> names[k] != name@,
        decreases present@.len() - i,
    {
        if str_eq(present[i].as_str(), name) {
            assert(names[i as int] == name@);
            return true;
        }
        i = i + 1;
    }
    proof {
        if names.contains(name@) {
            let k = choose|k: int| 0 <= k < names.len() && names[k] == name@;
        }
    }
    false
}

/// Refuses a schema that lacks a table the logbook uses, naming the first.
pub fn check_required_tables(present: &Vec<String>) -> (r: Result<(), String>)
    ensures
        match r {
            Ok(()) => spec_check_required_tables(crate::database::health::strings_view(present@)) is Ok,
            Err(e) => spec_check_required_tables(crate::database::health::strings_view(present@))
                == Err::<(), Seq<char>>(e@),
        },
{
    let ghost names = crate::database::health::strings_view(present@);
    let required: Vec<&'static str> = vec![
        "schema_migrations",
        "qsos",
        "digital_routes",
        "dmr_metadata",
        "ft8_metadata",
        "adif_extra_fields",
    ];
    assert(required@.map_values(|t: &'static str| t@) =~= spec_required_tables());
    let mut i: usize = 0;
    while i < required.len()
        invariant
            i <= 6,
            required@.len() == 6,
            required@.map_values(|t: &'static str| t@) == spec_required_tables(),
            names == crate::database::health::strings_view(present@),
            first_missing_table(names, i as nat) is None,
        decreases 6 - i,
    {
        let table = required[i];
        assert(table@ == spec_required_tables()[i as int]);
        if !has_name(present, table) {
            proof {
                lemma_first_missing_stays(names, (i + 1) as nat, 6);
            }
            let mut s = owned("database schema is inconsistent: missing table ");
            push_str(&mut s, table);
            return Err(s);
        }
        i = i + 1;
    }
    Ok(())
}

proof fn lemma_first_missing_stays(present: Seq<Seq<char>>, m: nat, n: nat)
    requires
        m <= n,
        first_missing_table(present, m) is Some,
    ensures
        first_missing_table(present, n) == first_missing_table(present, m),
    decreases n - m,
{
    if m < n {
        lemma_first_missing_stays(present, m, (n - 1) as nat);
    }
}

} // verus!
