//! D-STAR metadata: reflector, module and the routing callsigns.
use vstd::prelude::*;

use crate::text::{
    any_control, ascii_upper, has_control, is_ascii_alphanumeric, is_ascii_alphanumeric_char,
    ascii_upper_char, ascii_uppercasing, owned, opt_view, std_to_uppercase, string_of, to_uppercase_vec, trim,
    trim_str, chars_of, trimmed_string,
};

verus! {

#[derive(Debug, Clone, PartialEq, Eq)]
pub struct DStarMetadata {
    pub reflector: Option<String>,
    pub module: Option<String>,
    pub mycall: Option<String>,
    pub urcall: Option<String>,
    pub rpt1: Option<String>,
    pub rpt2: Option<String>,
    pub notes: String,
}

#[derive(Debug, Clone, Default, PartialEq, Eq)]
pub struct DStarMetadataInput {
    pub reflector: String,
    pub module: String,
    pub mycall: String,
    pub urcall: String,
    pub rpt1: String,
    pub rpt2: String,
    pub notes: String,
}

/// The text of DStarMetadataInput.
pub struct DStarInputView {
    pub reflector: Seq<char>,
    pub module: Seq<char>,
    pub mycall: Seq<char>,
    pub urcall: Seq<char>,
    pub rpt1: Seq<char>,
    pub rpt2: Seq<char>,
    pub notes: Seq<char>,
}

impl View for DStarMetadataInput {
    type V = DStarInputView;

    open spec fn view(&self) -> DStarInputView {
        DStarInputView {
            reflector: self.reflector@,
            module: self.module@,
            mycall: self.mycall@,
            urcall: self.urcall@,
            rpt1: self.rpt1@,
            rpt2: self.rpt2@,
            notes: self.notes@,
        }
    }
}

/// Validated DStarMetadata as mathematical values.
pub struct DStarView {
    pub reflector: Option<Seq<char>>,
    pub module: Option<Seq<char>>,
    pub mycall: Option<Seq<char>>,
    pub urcall: Option<Seq<char>>,
    pub rpt1: Option<Seq<char>>,
    pub rpt2: Option<Seq<char>>,
    pub notes: Seq<char>,
}

impl View for DStarMetadata {
    type V = DStarView;

    open spec fn view(&self) -> DStarView {
        DStarView {
            reflector: opt_view(self.reflector),
            module: opt_view(self.module),
            mycall: opt_view(self.mycall),
            urcall: opt_view(self.urcall),
            rpt1: opt_view(self.rpt1),
            rpt2: opt_view(self.rpt2),
            notes: self.notes@,
        }
    }
}

#[derive(Debug, Clone, Copy, PartialEq, Eq, Structural)]
pub enum DStarValidationError {
    InvalidReflector,
    InvalidModule,
    InvalidMycall,
    InvalidUrcall,
    InvalidRpt1,
    InvalidRpt2,
}

impl DStarValidationError {
    pub open spec fn spec_message(self) -> Seq<char> {
        match self {
            DStarValidationError::InvalidReflector => "D-Star reflector must not contain control characters"@,
            DStarValidationError::InvalidModule => "D-Star module must be empty or one ASCII alphanumeric character"@,
            DStarValidationError::InvalidMycall => "D-Star MYCALL must not contain control characters"@,
            DStarValidationError::InvalidUrcall => "D-Star URCALL must not contain control characters"@,
            DStarValidationError::InvalidRpt1 => "D-Star RPT1 must not contain control characters"@,
            DStarValidationError::InvalidRpt2 => "D-Star RPT2 must not contain control characters"@,
        }
    }

    /// The message shown to the operator.
    pub fn message(&self) -> (s: String)
        ensures
            s@ == self.spec_message(),
    {
        match self {
            DStarValidationError::InvalidReflector => owned(
                "D-Star reflector must not contain control characters",
            ),
            DStarValidationError::InvalidModule => owned(
                "D-Star module must be empty or one ASCII alphanumeric character",
            ),
            DStarValidationError::InvalidMycall => owned(
                "D-Star MYCALL must not contain control characters",
            ),
            DStarValidationError::InvalidUrcall => owned(
                "D-Star URCALL must not contain control characters",
            ),
            DStarValidationError::InvalidRpt1 => owned("D-Star RPT1 must not contain control characters"),
            DStarValidationError::InvalidRpt2 => owned("D-Star RPT2 must not contain control characters"),
        }
    }
}

/// A routing value: no control characters; trimmed and uppercased, `None`
/// when blank. `None` for the outer option marks an invalid value.
pub open spec fn routing_value(s: Seq<char>) -> Option<Option<Seq<char>>> {
    if has_control(s) {
        None
    } else if trim(s).len() == 0 {
        Some(None)
    } else {
        Some(Some(std_to_uppercase(trim(s))))
    }
}

/// A module: blank, or a single ASCII letter or digit (uppercased).
pub open spec fn module_value(s: Seq<char>) -> Option<Option<Seq<char>>> {
    if has_control(s) {
        None
    } else if trim(s).len() == 0 {
        Some(None)
    } else if trim(s).len() == 1 && is_ascii_alphanumeric(trim(s)[0]) {
        Some(Some(seq![ascii_upper(trim(s)[0])]))
    } else {
        None
    }
}

/// What uppercasing is known to do to each routing value that validation
/// uppercases.
pub open spec fn routes_uppercasing_known(input: DStarInputView) -> bool {
    &&& (routing_value(input.reflector) matches Some(Some(_)) ==> ascii_uppercasing(trim(input.reflector)))
    &&& (routing_value(input.mycall) matches Some(Some(_)) ==> ascii_uppercasing(trim(input.mycall)))
    &&& (routing_value(input.urcall) matches Some(Some(_)) ==> ascii_uppercasing(trim(input.urcall)))
    &&& (routing_value(input.rpt1) matches Some(Some(_)) ==> ascii_uppercasing(trim(input.rpt1)))
    &&& (routing_value(input.rpt2) matches Some(Some(_)) ==> ascii_uppercasing(trim(input.rpt2)))
}

impl DStarMetadata {
    /// The first problem with the input, in the order the fields are
    /// checked, or `None` when it is valid.
    pub open spec fn input_error(input: DStarInputView) -> Option<DStarValidationError> {
        if routing_value(input.reflector) is None {
            Some(DStarValidationError::InvalidReflector)
        } else if module_value(input.module) is None {
            Some(DStarValidationError::InvalidModule)
        } else if routing_value(input.mycall) is None {
            Some(DStarValidationError::InvalidMycall)
        } else if routing_value(input.urcall) is None {
            Some(DStarValidationError::InvalidUrcall)
        } else if routing_value(input.rpt1) is None {
            Some(DStarValidationError::InvalidRpt1)
        } else if routing_value(input.rpt2) is None {
            Some(DStarValidationError::InvalidRpt2)
        } else {
            None
        }
    }

    /// What validation gives for the input: the first problem, or the
    /// normalized metadata.
    pub open spec fn spec_from_input(input: DStarInputView) -> Result<DStarView, DStarValidationError> {
        match Self::input_error(input) {
            Some(e) => Err(e),
            None => Ok(
                DStarView {
                    reflector: routing_value(input.reflector)->0,
                    module: module_value(input.module)->0,
                    mycall: routing_value(input.mycall)->0,
                    urcall: routing_value(input.urcall)->0,
                    rpt1: routing_value(input.rpt1)->0,
                    rpt2: routing_value(input.rpt2)->0,
                    notes: trim(input.notes),
                },
            ),
        }
    }

    /// Validates and normalizes D-STAR metadata: routing values keep their
    /// open form but are trimmed and uppercased; control characters are
    /// refused; the module is one letter or digit.
    pub fn from_input(input: DStarMetadataInput) -> (r: Result<Self, DStarValidationError>)
        ensures
            match r {
                Ok(m) => Self::spec_from_input(input@) == Ok::<DStarView, DStarValidationError>(m@),
                Err(e) => Self::spec_from_input(input@) == Err::<DStarView, DStarValidationError>(e),
            },
            r is Ok ==> routes_uppercasing_known(input@),
    {
        let reflector = optional_routing_value(
            input.reflector.as_str(),
            DStarValidationError::InvalidReflector,
        )?;
        let module = optional_module(input.module.as_str())?;
        let mycall = optional_routing_value(input.mycall.as_str(), DStarValidationError::InvalidMycall)?;
        let urcall = optional_routing_value(input.urcall.as_str(), DStarValidationError::InvalidUrcall)?;
        let rpt1 = optional_routing_value(input.rpt1.as_str(), DStarValidationError::InvalidRpt1)?;
        let rpt2 = optional_routing_value(input.rpt2.as_str(), DStarValidationError::InvalidRpt2)?;
        Ok(DStarMetadata {
            reflector,
            module,
            mycall,
            urcall,
            rpt1,
            rpt2,
            notes: trimmed_string(input.notes.as_str()),
        })
    }
}

fn optional_routing_value(value: &str, error: DStarValidationError) -> (r: Result<
    Option<String>,
    DStarValidationError,
>)
    ensures
        match r {
            Ok(v) => routing_value(value@) == Some(opt_view(v)),
            Err(e) => routing_value(value@) is None && e == error,
        },
        r matches Ok(Some(_)) ==> ascii_uppercasing(trim(value@)),
{
    let chars = chars_of(value);
    if any_control(&chars) {
        return Err(error);
    }
    let t = trim_str(value);
    if t.len() == 0 {
        Ok(None)
    } else {
        let upper = to_uppercase_vec(&t);
        Ok(Some(string_of(&upper)))
    }
}

fn optional_module(value: &str) -> (r: Result<Option<String>, DStarValidationError>)
    ensures
        match r {
            Ok(v) => module_value(value@) == Some(opt_view(v)),
            Err(e) => module_value(value@) is None && e == DStarValidationError::InvalidModule,
        },
{
    let chars = chars_of(value);
    if any_control(&chars) {
        return Err(DStarValidationError::InvalidModule);
    }
    let t = trim_str(value);
    if t.len() == 0 {
        return Ok(None);
    }
    if t.len() != 1 || !is_ascii_alphanumeric_char(t[0]) {
        return Err(DStarValidationError::InvalidModule);
    }
    let mut upper: Vec<char> = Vec::new();
    upper.push(ascii_upper_char(t[0]));
    assert(upper@ =~= seq![ascii_upper(t@[0])]);
    Ok(Some(string_of(&upper)))
}

} // verus!
