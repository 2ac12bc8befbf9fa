//! ADIF (Amateur Data Interchange Format): documents, records and fields,
//! the tag parser, the exporter and the conversion to and from QSOs.
use vstd::prelude::*;

use crate::text::{chars_of, eq_ignore_case, eq_ignore_case_vec, opt_view};

pub mod converter;
pub mod exporter;
pub mod parser;
pub mod round_trip;

pub use converter::{
    domain_to_record, record_to_domain, AdifConversionError, ImportedModeMetadata, ImportedQso,
};
pub use exporter::export;
pub use parser::{parse, AdifError};

verus! {

/// One `<NAME:LENGTH[:TYPE]>value` field.
#[derive(Debug, Clone, PartialEq, Eq)]
pub struct AdifField {
    pub name: String,
    pub value: String,
    pub data_type: Option<String>,
}

/// The text of a field.
#[verifier::ext_equal]
pub struct FieldView {
    pub name: Seq<char>,
    pub value: Seq<char>,
    pub data_type: Option<Seq<char>>,
}

impl View for AdifField {
    type V = FieldView;

    open spec fn view(&self) -> FieldView {
        FieldView { name: self.name@, value: self.value@, data_type: opt_view(self.data_type) }
    }
}

/// The fields of a record (or of the header), in order.
#[derive(Debug, Clone, Default, PartialEq, Eq)]
pub struct AdifRecord {
    pub fields: Vec<AdifField>,
}

pub open spec fn fields_view(fields: Seq<AdifField>) -> Seq<FieldView> {
    fields.map_values(|f: AdifField| f@)
}

impl View for AdifRecord {
    type V = Seq<FieldView>;

    open spec fn view(&self) -> Seq<FieldView> {
        fields_view(self.fields@)
    }
}

/// An optional header followed by the records.
#[derive(Debug, Clone, Default, PartialEq, Eq)]
pub struct AdifDocument {
    pub header: Option<AdifRecord>,
    pub records: Vec<AdifRecord>,
}

#[verifier::ext_equal]
pub struct DocumentView {
    pub header: Option<Seq<FieldView>>,
    pub records: Seq<Seq<FieldView>>,
}

pub open spec fn opt_record_view(r: Option<AdifRecord>) -> Option<Seq<FieldView>> {
    match r {
        Some(r) => Some(r@),
        None => None,
    }
}

pub open spec fn records_view(records: Seq<AdifRecord>) -> Seq<Seq<FieldView>> {
    records.map_values(|r: AdifRecord| r@)
}

impl View for AdifDocument {
    type V = DocumentView;

    open spec fn view(&self) -> DocumentView {
        DocumentView { header: opt_record_view(self.header), records: records_view(self.records@) }
    }
}

/// The index of the first field whose name matches `name` ignoring ASCII
/// case.
pub open spec fn first_named(fields: Seq<FieldView>, name: Seq<char>) -> Option<int> {
    if exists|i: int| 0 <= i < fields.len() && eq_ignore_case(fields[i].name, name) {
        Some(
            choose|i: int|
                0 <= i < fields.len() && eq_ignore_case(fields[i].name, name) && forall|k: int|
                    0 <= k < i ==> !eq_ignore_case(#[trigger] fields[k].name, name),
        )
    } else {
        None
    }
}

/// The value of the first field called `name` (ignoring ASCII case).
pub open spec fn record_get(fields: Seq<FieldView>, name: Seq<char>) -> Option<Seq<char>> {
    match first_named(fields, name) {
        Some(i) => Some(fields[i].value),
        None => None,
    }
}

/// A first index exists exactly when some index matches.
pub proof fn lemma_first_named(fields: Seq<FieldView>, name: Seq<char>, i: int)
    requires
        0 <= i < fields.len(),
        eq_ignore_case(fields[i].name, name),
        forall|k: int| 0 <= k < i ==> !eq_ignore_case(#[trigger] fields[k].name, name),
    ensures
        first_named(fields, name) == Some(i),
{
    let j = first_named(fields, name)->0;
    if j < i {
        assert(!eq_ignore_case(fields[j].name, name));
    }
    if j > i {
        assert(!eq_ignore_case(fields[i].name, name));
    }
}

impl AdifField {
    /// A copy of the field.
    pub fn copy(&self) -> (f: AdifField)
        ensures
            f@ == self@,
    {
        AdifField {
            name: crate::text::clone_string(&self.name),
            value: crate::text::clone_string(&self.value),
            data_type: crate::text::clone_opt_string(&self.data_type),
        }
    }
}

impl AdifRecord {
    /// The value of the first field named `name`, ignoring ASCII case.
    pub fn get(&self, name: &str) -> (r: Option<&str>)
        ensures
            match r {
                Some(v) => record_get(self@, name@) == Some(v@),
                None => record_get(self@, name@) is None,
            },
    {
        let wanted = chars_of(name);
        let mut i: usize = 0;
        while i < self.fields.len()
            invariant
                i <= self.fields@.len(),
                wanted@ == name@,
                forall|k: int|
                    0 <= k < i ==> !eq_ignore_case(#[trigger] self@[k].name, name@),
            decreases self.fields@.len() - i,
        {
            let candidate = chars_of(self.fields[i].name.as_str());
            if eq_ignore_case_vec(&candidate, &wanted) {
                proof {
                    lemma_first_named(self@, name@, i as int);
                }
                return Some(self.fields[i].value.as_str());
            }
            i = i + 1;
        }
        assert(first_named(self@, name@) is None) by {
            if exists|j: int| 0 <= j < self@.len() && eq_ignore_case(self@[j].name, name@) {
                let j = choose|j: int|
                    0 <= j < self@.len() && eq_ignore_case(self@[j].name, name@);
                assert(!eq_ignore_case(self@[j].name, name@));
            }
        }
        None
    }
}

} // verus!
