//! Shared decode machinery: object field access and the per-field
//! strictness rules (required vs. optional, null handling, scalar codecs,
//! token sets, numeric domains).

use vstd::prelude::*;
use crate::datetime::DateTime;
use crate::datetime::dt_of_text;
use crate::datetime::parse_datetime;
use crate::doc::Doc;
use crate::doc::DocV;
use crate::doc::entries_view;
use crate::doc::entry_keys_distinct;
use crate::doc::lemma_entries_view_dom;
use crate::doc::lemma_entries_view_index;
use crate::err::DecodeError;
use crate::err::ErrKind;
use crate::hex_id::hex_id_of_text;
use crate::url_check::check_url;
use crate::url_check::url_accepted;

verus! {

broadcast use {
    vstd::seq::group_seq_axioms,
    vstd::map::group_map_axioms,
    vstd::set::group_set_axioms,
    vstd::std_specs::vec::group_vec_axioms,
};

/// Object entries are well formed for decoding: keys are pairwise distinct
/// here and in every nested object.
pub open spec fn entries_wf(s: Seq<(String, Doc)>) -> bool {
    &&& entry_keys_distinct(s)
    &&& forall|i: int| 0 <= i < s.len() ==> (#[trigger] s[i].1).keys_unique()
}

/// The model outcome of a decode result: the decoded value's model, or the
/// failure kind.
pub open spec fn outcome_v<T: View>(r: Result<T, DecodeError>) -> Result<T::V, ErrKind> {
    match r {
        Ok(t) => Ok(t@),
        Err(e) => Err(e.kind),
    }
}

/// The model outcome of an optional-field decode result.
pub open spec fn outcome_opt<T: View>(r: Result<Option<T>, DecodeError>) -> Result<
    Option<T::V>,
    ErrKind,
> {
    match r {
        Ok(Some(t)) => Ok(Some(t@)),
        Ok(None) => Ok(None),
        Err(e) => Err(e.kind),
    }
}

/// The failure kind of a spec decode result known to have failed.
pub open spec fn the_err<T>(r: Result<T, ErrKind>) -> ErrKind {
    match r {
        Err(k) => k,
        Ok(_) => arbitrary(),
    }
}

/// The value of a spec decode result known to have succeeded.
pub open spec fn the_ok<T>(r: Result<T, ErrKind>) -> T {
    match r {
        Ok(t) => t,
        Err(_) => arbitrary(),
    }
}

/// The value of an object field, if the key is present.
pub open spec fn fld(m: Map<Seq<char>, DocV>, k: Seq<char>) -> Option<DocV> {
    if m.contains_key(k) {
        Some(m[k])
    } else {
        None
    }
}

/// A required string field.
pub open spec fn d_req_str(m: Map<Seq<char>, DocV>, k: Seq<char>) -> Result<Seq<char>, ErrKind> {
    match fld(m, k) {
        None => Err(ErrKind::MissingField),
        Some(DocV::Text(s)) => Ok(s),
        Some(_) => Err(ErrKind::TypeMismatch),
    }
}

/// An optional string field; absence and null both mean "not set".
pub open spec fn d_opt_str(m: Map<Seq<char>, DocV>, k: Seq<char>) -> Result<
    Option<Seq<char>>,
    ErrKind,
> {
    match fld(m, k) {
        None => Ok(None),
        Some(DocV::Null) => Ok(None),
        Some(DocV::Text(s)) => Ok(Some(s)),
        Some(_) => Err(ErrKind::TypeMismatch),
    }
}

/// A required unsigned 16-bit integer field.
pub open spec fn d_req_u16(m: Map<Seq<char>, DocV>, k: Seq<char>) -> Result<u16, ErrKind> {
    match fld(m, k) {
        None => Err(ErrKind::MissingField),
        Some(DocV::Int(n)) => if 0 <= n <= 65535 {
            Ok(n as u16)
        } else {
            Err(ErrKind::TypeMismatch)
        },
        Some(_) => Err(ErrKind::TypeMismatch),
    }
}

/// A required positive 16-bit integer field; zero is a numeric domain
/// violation.
pub open spec fn d_req_nz_u16(m: Map<Seq<char>, DocV>, k: Seq<char>) -> Result<u16, ErrKind> {
    match d_req_u16(m, k) {
        Err(e) => Err(e),
        Ok(v) => if v == 0 {
            Err(ErrKind::NumericDomainViolation)
        } else {
            Ok(v)
        },
    }
}

/// An optional positive 16-bit integer field.
pub open spec fn d_opt_nz_u16(m: Map<Seq<char>, DocV>, k: Seq<char>) -> Result<
    Option<u16>,
    ErrKind,
> {
    match fld(m, k) {
        None => Ok(None),
        Some(DocV::Null) => Ok(None),
        Some(DocV::Int(n)) => if 0 <= n <= 65535 {
            if n == 0 {
                Err(ErrKind::NumericDomainViolation)
            } else {
                Ok(Some(n as u16))
            }
        } else {
            Err(ErrKind::TypeMismatch)
        },
        Some(_) => Err(ErrKind::TypeMismatch),
    }
}

/// A required unsigned 8-bit integer field.
pub open spec fn d_req_u8(m: Map<Seq<char>, DocV>, k: Seq<char>) -> Result<u8, ErrKind> {
    match fld(m, k) {
        None => Err(ErrKind::MissingField),
        Some(DocV::Int(n)) => if 0 <= n <= 255 {
            Ok(n as u8)
        } else {
            Err(ErrKind::TypeMismatch)
        },
        Some(_) => Err(ErrKind::TypeMismatch),
    }
}

/// An optional unsigned 8-bit integer field.
pub open spec fn d_opt_u8(m: Map<Seq<char>, DocV>, k: Seq<char>) -> Result<Option<u8>, ErrKind> {
    match fld(m, k) {
        None => Ok(None),
        Some(DocV::Null) => Ok(None),
        Some(DocV::Int(n)) => if 0 <= n <= 255 {
            Ok(Some(n as u8))
        } else {
            Err(ErrKind::TypeMismatch)
        },
        Some(_) => Err(ErrKind::TypeMismatch),
    }
}

/// A required hex-encoded 32-bit identifier field.
pub open spec fn d_req_hex(m: Map<Seq<char>, DocV>, k: Seq<char>) -> Result<u32, ErrKind> {
    match d_req_str(m, k) {
        Err(e) => Err(e),
        Ok(s) => match hex_id_of_text(s) {
            Some(v) => Ok(v),
            None => Err(ErrKind::InvalidScalarEncoding),
        },
    }
}

/// A required fixed-pattern date-time field.
pub open spec fn d_req_dt(m: Map<Seq<char>, DocV>, k: Seq<char>) -> Result<DateTime, ErrKind> {
    match d_req_str(m, k) {
        Err(e) => Err(e),
        Ok(s) => match dt_of_text(s) {
            Some(dt) => Ok(dt),
            None => Err(ErrKind::InvalidScalarEncoding),
        },
    }
}

/// A required URI string field; a string the URL parser rejects is an
/// invalid scalar encoding.
pub open spec fn d_req_url(m: Map<Seq<char>, DocV>, k: Seq<char>) -> Result<Seq<char>, ErrKind> {
    match d_req_str(m, k) {
        Err(e) => Err(e),
        Ok(s) => if url_accepted(s) {
            Ok(s)
        } else {
            Err(ErrKind::InvalidScalarEncoding)
        },
    }
}

/// An optional URI string field.
pub open spec fn d_opt_url(m: Map<Seq<char>, DocV>, k: Seq<char>) -> Result<
    Option<Seq<char>>,
    ErrKind,
> {
    match d_opt_str(m, k) {
        Err(e) => Err(e),
        Ok(None) => Ok(None),
        Ok(Some(s)) => if url_accepted(s) {
            Ok(Some(s))
        } else {
            Err(ErrKind::InvalidScalarEncoding)
        },
    }
}

/// Looks an object key up; with distinct keys this is the entry map's
/// value at the key.
pub fn obj_get<'a>(es: &'a Vec<(String, Doc)>, k: &str) -> (r: Option<&'a Doc>)
    requires
        entry_keys_distinct(es@),
    ensures
        match r {
            Some(d) => {
                &&& entries_view(es@).contains_key(k@)
                &&& d@ == entries_view(es@)[k@]
                &&& exists|i: int|
                    0 <= i < es@.len() && #[trigger] es@[i].0@ == k@ && es@[i].1 == *d
            },
            None => !entries_view(es@).contains_key(k@),
        },
{
    let mut i: usize = 0;
    while i < es.len()
        invariant
            entry_keys_distinct(es@),
            0 <= i <= es@.len(),
            forall|j: int| 0 <= j < i ==> #[trigger] es@[j].0@ != k@,
        decreases es@.len() - i,
    {
        if crate::util::key_is(&es[i].0, k) {
            proof {
                lemma_entries_view_index(es@, i as int);
            }
            return Some(&es[i].1);
        }
        i = i + 1;
    }
    proof {
        lemma_entries_view_dom(es@, k@);
    }
    None
}

/// Decodes a required string field.
pub fn get_req_str(es: &Vec<(String, Doc)>, k: &str) -> (r: Result<String, DecodeError>)
    requires
        entry_keys_distinct(es@),
    ensures
        outcome_v(r) == d_req_str(entries_view(es@), k@),
{
    match obj_get(es, k) {
        None => Err(DecodeError::at_name(ErrKind::MissingField, k)),
        Some(Doc::Text(s)) => Ok(s.clone()),
        Some(_) => Err(DecodeError::at_name(ErrKind::TypeMismatch, k)),
    }
}

/// Decodes an optional string field.
pub fn get_opt_str(es: &Vec<(String, Doc)>, k: &str) -> (r: Result<Option<String>, DecodeError>)
    requires
        entry_keys_distinct(es@),
    ensures
        outcome_opt(r) == d_opt_str(entries_view(es@), k@),
{
    match obj_get(es, k) {
        None => Ok(None),
        Some(Doc::Null) => Ok(None),
        Some(Doc::Text(s)) => Ok(Some(s.clone())),
        Some(_) => Err(DecodeError::at_name(ErrKind::TypeMismatch, k)),
    }
}

/// Decodes a required unsigned 16-bit integer field.
pub fn get_req_u16(es: &Vec<(String, Doc)>, k: &str) -> (r: Result<u16, DecodeError>)
    requires
        entry_keys_distinct(es@),
    ensures
        outcome_v(r) == d_req_u16(entries_view(es@), k@),
{
    match obj_get(es, k) {
        None => Err(DecodeError::at_name(ErrKind::MissingField, k)),
        Some(Doc::Int(n)) => if 0 <= *n && *n <= 65535 {
            Ok(*n as u16)
        } else {
            Err(DecodeError::at_name(ErrKind::TypeMismatch, k))
        },
        Some(_) => Err(DecodeError::at_name(ErrKind::TypeMismatch, k)),
    }
}

/// Decodes a required positive 16-bit integer field.
pub fn get_req_nz_u16(es: &Vec<(String, Doc)>, k: &str) -> (r: Result<u16, DecodeError>)
    requires
        entry_keys_distinct(es@),
    ensures
        outcome_v(r) == d_req_nz_u16(entries_view(es@), k@),
{
    match get_req_u16(es, k) {
        Err(e) => Err(e),
        Ok(v) => if v == 0 {
            Err(DecodeError::at_name(ErrKind::NumericDomainViolation, k))
        } else {
            Ok(v)
        },
    }
}

/// Decodes an optional positive 16-bit integer field.
pub fn get_opt_nz_u16(es: &Vec<(String, Doc)>, k: &str) -> (r: Result<Option<u16>, DecodeError>)
    requires
        entry_keys_distinct(es@),
    ensures
        outcome_opt(r) == d_opt_nz_u16(entries_view(es@), k@),
{
    match obj_get(es, k) {
        None => Ok(None),
        Some(Doc::Null) => Ok(None),
        Some(Doc::Int(n)) => if 0 <= *n && *n <= 65535 {
            if *n == 0 {
                Err(DecodeError::at_name(ErrKind::NumericDomainViolation, k))
            } else {
                Ok(Some(*n as u16))
            }
        } else {
            Err(DecodeError::at_name(ErrKind::TypeMismatch, k))
        },
        Some(_) => Err(DecodeError::at_name(ErrKind::TypeMismatch, k)),
    }
}

/// Decodes a required unsigned 8-bit integer field.
pub fn get_req_u8(es: &Vec<(String, Doc)>, k: &str) -> (r: Result<u8, DecodeError>)
    requires
        entry_keys_distinct(es@),
    ensures
        outcome_v(r) == d_req_u8(entries_view(es@), k@),
{
    match obj_get(es, k) {
        None => Err(DecodeError::at_name(ErrKind::MissingField, k)),
        Some(Doc::Int(n)) => if 0 <= *n && *n <= 255 {
            Ok(*n as u8)
        } else {
            Err(DecodeError::at_name(ErrKind::TypeMismatch, k))
        },
        Some(_) => Err(DecodeError::at_name(ErrKind::TypeMismatch, k)),
    }
}

/// Decodes an optional unsigned 8-bit integer field.
pub fn get_opt_u8(es: &Vec<(String, Doc)>, k: &str) -> (r: Result<Option<u8>, DecodeError>)
    requires
        entry_keys_distinct(es@),
    ensures
        outcome_opt(r) == d_opt_u8(entries_view(es@), k@),
{
    match obj_get(es, k) {
        None => Ok(None),
        Some(Doc::Null) => Ok(None),
        Some(Doc::Int(n)) => if 0 <= *n && *n <= 255 {
            Ok(Some(*n as u8))
        } else {
            Err(DecodeError::at_name(ErrKind::TypeMismatch, k))
        },
        Some(_) => Err(DecodeError::at_name(ErrKind::TypeMismatch, k)),
    }
}

/// Decodes a required hex-encoded 32-bit identifier field.
pub fn get_req_hex(es: &Vec<(String, Doc)>, k: &str) -> (r: Result<u32, DecodeError>)
    requires
        entry_keys_distinct(es@),
    ensures
        outcome_v(r) == d_req_hex(entries_view(es@), k@),
{
    match obj_get(es, k) {
        None => Err(DecodeError::at_name(ErrKind::MissingField, k)),
        Some(Doc::Text(s)) => match crate::hex_id::decode_u32(s.as_str()) {
            Some(v) => Ok(v),
            None => Err(DecodeError::at_name(ErrKind::InvalidScalarEncoding, k)),
        },
        Some(_) => Err(DecodeError::at_name(ErrKind::TypeMismatch, k)),
    }
}

/// Decodes a required fixed-pattern date-time field.
pub fn get_req_datetime(es: &Vec<(String, Doc)>, k: &str) -> (r: Result<DateTime, DecodeError>)
    requires
        entry_keys_distinct(es@),
    ensures
        outcome_v(r) == d_req_dt(entries_view(es@), k@),
{
    match obj_get(es, k) {
        None => Err(DecodeError::at_name(ErrKind::MissingField, k)),
        Some(Doc::Text(s)) => match parse_datetime(s.as_str()) {
            Some(dt) => Ok(dt),
            None => Err(DecodeError::at_name(ErrKind::InvalidScalarEncoding, k)),
        },
        Some(_) => Err(DecodeError::at_name(ErrKind::TypeMismatch, k)),
    }
}

/// Decodes a required URI string field.
pub fn get_req_url(es: &Vec<(String, Doc)>, k: &str) -> (r: Result<String, DecodeError>)
    requires
        entry_keys_distinct(es@),
    ensures
        outcome_v(r) == d_req_url(entries_view(es@), k@),
{
    match obj_get(es, k) {
        None => Err(DecodeError::at_name(ErrKind::MissingField, k)),
        Some(Doc::Text(s)) => if check_url(s.as_str()) {
            Ok(s.clone())
        } else {
            Err(DecodeError::at_name(ErrKind::InvalidScalarEncoding, k))
        },
        Some(_) => Err(DecodeError::at_name(ErrKind::TypeMismatch, k)),
    }
}

/// Decodes an optional URI string field.
pub fn get_opt_url(es: &Vec<(String, Doc)>, k: &str) -> (r: Result<Option<String>, DecodeError>)
    requires
        entry_keys_distinct(es@),
    ensures
        outcome_opt(r) == d_opt_url(entries_view(es@), k@),
{
    match obj_get(es, k) {
        None => Ok(None),
        Some(Doc::Null) => Ok(None),
        Some(Doc::Text(s)) => if check_url(s.as_str()) {
            Ok(Some(s.clone()))
        } else {
            Err(DecodeError::at_name(ErrKind::InvalidScalarEncoding, k))
        },
        Some(_) => Err(DecodeError::at_name(ErrKind::TypeMismatch, k)),
    }
}

} // verus!
