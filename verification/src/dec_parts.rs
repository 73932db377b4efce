//! Decoders for the leaf and nested composites: token fields, token
//! lists, and the small composite shapes. Unknown-field detection applies
//! independently at every level.

use vstd::prelude::*;
use crate::dec::d_opt_str;
use crate::dec::d_req_nz_u16;
use crate::dec::d_req_str;
use crate::dec::d_req_u16;
use crate::dec::d_req_u8;
use crate::dec::entries_wf;
use crate::dec::fld;
use crate::dec::get_opt_str;
use crate::dec::get_req_nz_u16;
use crate::dec::get_req_str;
use crate::dec::get_req_u16;
use crate::dec::get_req_u8;
use crate::dec::obj_get;
use crate::dec::outcome_opt;
use crate::dec::outcome_v;
use crate::dec::the_err;
use crate::dec::the_ok;
use crate::doc::Doc;
use crate::doc::DocV;
use crate::doc::entries_view;
use crate::doc::entry_keys_distinct;
use crate::doc::lemma_entries_view_dom;
use crate::doc::lemma_entries_view_index;
use crate::doc::lemma_list_view_index;
use crate::doc::lemma_list_view_len;
use crate::doc::list_view;
use crate::err::DecodeError;
use crate::err::ErrKind;
use crate::tokens::AttackCost;
use crate::tokens::CardBack;
use crate::tokens::CardSize;
use crate::tokens::CardTag;
use crate::tokens::DamageSuffix;
use crate::tokens::EnergyType;
use crate::tokens::FoilMask;
use crate::tokens::FoilType;
use crate::tokens::Lang;
use crate::tokens::RarityDesignation;
use crate::tokens::RarityIcon;
use crate::tokens::RegulationMark;
use crate::tokens::ResistanceOperator;
use crate::tokens::Stage;
use crate::tokens::WeaknessOperator;
use crate::types::Artists;
use crate::types::ArtistsV;
use crate::types::CollectorNumber;
use crate::types::CollectorNumberV;
use crate::types::Copyright;
use crate::types::CopyrightV;
use crate::types::Damage;
use crate::types::Foil;
use crate::types::Rarity;
use crate::types::Resistance;
use crate::types::ResistanceV;
use crate::types::Weakness;
use crate::types::WeaknessV;
use crate::util::key_is;

verus! {

broadcast use {
    vstd::seq::group_seq_axioms,
    vstd::map::group_map_axioms,
    vstd::set::group_set_axioms,
    vstd::std_specs::vec::group_vec_axioms,
};

/// A required card-language field.
pub open spec fn d_req_lang(m: Map<Seq<char>, DocV>, k: Seq<char>) -> Result<Lang, ErrKind> {
    match d_req_str(m, k) {
        Err(e) => Err(e),
        Ok(s) => match Lang::of_wire(s) {
            Some(t) => Ok(t),
            None => Err(ErrKind::UnknownVariant),
        },
    }
}

pub fn get_req_lang(es: &Vec<(String, Doc)>, k: &str) -> (r: Result<Lang, DecodeError>)
    requires
        entry_keys_distinct(es@),
    ensures
        outcome_v(r) == d_req_lang(entries_view(es@), k@),
{
    match get_req_str(es, k) {
        Err(e) => Err(e),
        Ok(s) => match Lang::parse(s.as_str()) {
            Some(t) => Ok(t),
            None => Err(DecodeError::at_name(ErrKind::UnknownVariant, k)),
        },
    }
}

/// A required card-size field.
pub open spec fn d_req_size(m: Map<Seq<char>, DocV>, k: Seq<char>) -> Result<CardSize, ErrKind> {
    match d_req_str(m, k) {
        Err(e) => Err(e),
        Ok(s) => match CardSize::of_wire(s) {
            Some(t) => Ok(t),
            None => Err(ErrKind::UnknownVariant),
        },
    }
}

pub fn get_req_size(es: &Vec<(String, Doc)>, k: &str) -> (r: Result<CardSize, DecodeError>)
    requires
        entry_keys_distinct(es@),
    ensures
        outcome_v(r) == d_req_size(entries_view(es@), k@),
{
    match get_req_str(es, k) {
        Err(e) => Err(e),
        Ok(s) => match CardSize::parse(s.as_str()) {
            Some(t) => Ok(t),
            None => Err(DecodeError::at_name(ErrKind::UnknownVariant, k)),
        },
    }
}

/// A required card-back field.
pub open spec fn d_req_back(m: Map<Seq<char>, DocV>, k: Seq<char>) -> Result<CardBack, ErrKind> {
    match d_req_str(m, k) {
        Err(e) => Err(e),
        Ok(s) => match CardBack::of_wire(s) {
            Some(t) => Ok(t),
            None => Err(ErrKind::UnknownVariant),
        },
    }
}

pub fn get_req_back(es: &Vec<(String, Doc)>, k: &str) -> (r: Result<CardBack, DecodeError>)
    requires
        entry_keys_distinct(es@),
    ensures
        outcome_v(r) == d_req_back(entries_view(es@), k@),
{
    match get_req_str(es, k) {
        Err(e) => Err(e),
        Ok(s) => match CardBack::parse(s.as_str()) {
            Some(t) => Ok(t),
            None => Err(DecodeError::at_name(ErrKind::UnknownVariant, k)),
        },
    }
}

/// A required regulation-mark field.
pub open spec fn d_req_reg(m: Map<Seq<char>, DocV>, k: Seq<char>) -> Result<
    RegulationMark,
    ErrKind,
> {
    match d_req_str(m, k) {
        Err(e) => Err(e),
        Ok(s) => match RegulationMark::of_wire(s) {
            Some(t) => Ok(t),
            None => Err(ErrKind::UnknownVariant),
        },
    }
}

pub fn get_req_reg(es: &Vec<(String, Doc)>, k: &str) -> (r: Result<RegulationMark, DecodeError>)
    requires
        entry_keys_distinct(es@),
    ensures
        outcome_v(r) == d_req_reg(entries_view(es@), k@),
{
    match get_req_str(es, k) {
        Err(e) => Err(e),
        Ok(s) => match RegulationMark::parse(s.as_str()) {
            Some(t) => Ok(t),
            None => Err(DecodeError::at_name(ErrKind::UnknownVariant, k)),
        },
    }
}

/// A required evolution-stage field.
pub open spec fn d_req_stage(m: Map<Seq<char>, DocV>, k: Seq<char>) -> Result<Stage, ErrKind> {
    match d_req_str(m, k) {
        Err(e) => Err(e),
        Ok(s) => match Stage::of_wire(s) {
            Some(t) => Ok(t),
            None => Err(ErrKind::UnknownVariant),
        },
    }
}

pub fn get_req_stage(es: &Vec<(String, Doc)>, k: &str) -> (r: Result<Stage, DecodeError>)
    requires
        entry_keys_distinct(es@),
    ensures
        outcome_v(r) == d_req_stage(entries_view(es@), k@),
{
    match get_req_str(es, k) {
        Err(e) => Err(e),
        Ok(s) => match Stage::parse(s.as_str()) {
            Some(t) => Ok(t),
            None => Err(DecodeError::at_name(ErrKind::UnknownVariant, k)),
        },
    }
}

/// The foil composite: type and mask.
pub open spec fn foil_keys() -> Set<Seq<char>> {
    set!["type"@, "mask"@]
}

pub open spec fn dec_foil(m: Map<Seq<char>, DocV>) -> Result<Foil, ErrKind> {
    if !m.dom().subset_of(foil_keys()) {
        Err(ErrKind::UnknownField)
    } else {
        let f_ty = match d_req_str(m, "type"@) {
            Err(e) => Err(e),
            Ok(s) => match FoilType::of_wire(s) {
                Some(t) => Ok(t),
                None => Err(ErrKind::UnknownVariant),
            },
        };
        let f_mask = match d_req_str(m, "mask"@) {
            Err(e) => Err(e),
            Ok(s) => match FoilMask::of_wire(s) {
                Some(t) => Ok(t),
                None => Err(ErrKind::UnknownVariant),
            },
        };
        if f_ty is Err {
            Err(the_err(f_ty))
        } else if f_mask is Err {
            Err(the_err(f_mask))
        } else {
            Ok(Foil { ty: the_ok(f_ty), mask: the_ok(f_mask) })
        }
    }
}

pub fn decode_foil(es: &Vec<(String, Doc)>) -> (r: Result<Foil, DecodeError>)
    requires
        entry_keys_distinct(es@),
    ensures
        outcome_v(r) == dec_foil(entries_view(es@)),
{
    let ghost m = entries_view(es@);
    let mut i: usize = 0;
    while i < es.len()
        invariant
            entry_keys_distinct(es@),
            m == entries_view(es@),
            0 <= i <= es@.len(),
            forall|j: int| 0 <= j < i ==> foil_keys().contains(#[trigger] es@[j].0@),
        decreases es@.len() - i,
    {
        let k = &es[i].0;
        if !(key_is(k, "type") || key_is(k, "mask")) {
            proof {
                lemma_entries_view_index(es@, i as int);
            }
            return Err(DecodeError::at_key(ErrKind::UnknownField, k));
        }
        i = i + 1;
    }
    proof {
        assert forall|k2: Seq<char>| m.dom().contains(k2) implies foil_keys().contains(k2) by {
            lemma_entries_view_dom(es@, k2);
        }
    }
    let ty = match get_req_str(es, "type") {
        Ok(s) => match FoilType::parse(s.as_str()) {
            Some(t) => t,
            None => {
                return Err(DecodeError::at_name(ErrKind::UnknownVariant, "type"));
            },
        },
        Err(e) => {
            return Err(e);
        },
    };
    let mask = match get_req_str(es, "mask") {
        Ok(s) => match FoilMask::parse(s.as_str()) {
            Some(t) => t,
            None => {
                return Err(DecodeError::at_name(ErrKind::UnknownVariant, "mask"));
            },
        },
        Err(e) => {
            return Err(e);
        },
    };
    Ok(Foil { ty, mask })
}

/// An optional foil field.
pub open spec fn d_opt_foil(m: Map<Seq<char>, DocV>, k: Seq<char>) -> Result<
    Option<Foil>,
    ErrKind,
> {
    match fld(m, k) {
        None => Ok(None),
        Some(DocV::Null) => Ok(None),
        Some(DocV::Object(m2)) => match dec_foil(m2) {
            Ok(f) => Ok(Some(f)),
            Err(e) => Err(e),
        },
        Some(_) => Err(ErrKind::TypeMismatch),
    }
}

pub fn get_opt_foil(es: &Vec<(String, Doc)>, k: &str) -> (r: Result<Option<Foil>, DecodeError>)
    requires
        entries_wf(es@),
    ensures
        outcome_opt(r) == d_opt_foil(entries_view(es@), k@),
{
    match obj_get(es, k) {
        None => Ok(None),
        Some(d) => {
            proof {
                let i = choose|i: int|
                    0 <= i < es@.len() && #[trigger] es@[i].0@ == k@ && es@[i].1 == *d;
                assert(es@[i].1.keys_unique());
            }
            match d {
                Doc::Null => Ok(None),
                Doc::Object(es2) => match decode_foil(es2) {
                    Ok(f) => Ok(Some(f)),
                    Err(e) => Err(e.under_name(k)),
                },
                _ => Err(DecodeError::at_name(ErrKind::TypeMismatch, k)),
            }
        },
    }
}

/// The rarity composite: designation and icon.
pub open spec fn rarity_keys() -> Set<Seq<char>> {
    set!["designation"@, "icon"@]
}

pub open spec fn dec_rarity(m: Map<Seq<char>, DocV>) -> Result<Rarity, ErrKind> {
    if !m.dom().subset_of(rarity_keys()) {
        Err(ErrKind::UnknownField)
    } else {
        let f_des = match d_req_str(m, "designation"@) {
            Err(e) => Err(e),
            Ok(s) => match RarityDesignation::of_wire(s) {
                Some(t) => Ok(t),
                None => Err(ErrKind::UnknownVariant),
            },
        };
        let f_icon = match d_req_str(m, "icon"@) {
            Err(e) => Err(e),
            Ok(s) => match RarityIcon::of_wire(s) {
                Some(t) => Ok(t),
                None => Err(ErrKind::UnknownVariant),
            },
        };
        if f_des is Err {
            Err(the_err(f_des))
        } else if f_icon is Err {
            Err(the_err(f_icon))
        } else {
            Ok(Rarity { designation: the_ok(f_des), icon: the_ok(f_icon) })
        }
    }
}

pub fn decode_rarity(es: &Vec<(String, Doc)>) -> (r: Result<Rarity, DecodeError>)
    requires
        entry_keys_distinct(es@),
    ensures
        outcome_v(r) == dec_rarity(entries_view(es@)),
{
    let ghost m = entries_view(es@);
    let mut i: usize = 0;
    while i < es.len()
        invariant
            entry_keys_distinct(es@),
            m == entries_view(es@),
            0 <= i <= es@.len(),
            forall|j: int| 0 <= j < i ==> rarity_keys().contains(#[trigger] es@[j].0@),
        decreases es@.len() - i,
    {
        let k = &es[i].0;
        if !(key_is(k, "designation") || key_is(k, "icon")) {
            proof {
                lemma_entries_view_index(es@, i as int);
            }
            return Err(DecodeError::at_key(ErrKind::UnknownField, k));
        }
        i = i + 1;
    }
    proof {
        assert forall|k2: Seq<char>| m.dom().contains(k2) implies rarity_keys().contains(k2) by {
            lemma_entries_view_dom(es@, k2);
        }
    }
    let designation = match get_req_str(es, "designation") {
        Ok(s) => match RarityDesignation::parse(s.as_str()) {
            Some(t) => t,
            None => {
                return Err(DecodeError::at_name(ErrKind::UnknownVariant, "designation"));
            },
        },
        Err(e) => {
            return Err(e);
        },
    };
    let icon = match get_req_str(es, "icon") {
        Ok(s) => match RarityIcon::parse(s.as_str()) {
            Some(t) => t,
            None => {
                return Err(DecodeError::at_name(ErrKind::UnknownVariant, "icon"));
            },
        },
        Err(e) => {
            return Err(e);
        },
    };
    Ok(Rarity { designation, icon })
}

/// An optional rarity field.
pub open spec fn d_opt_rarity(m: Map<Seq<char>, DocV>, k: Seq<char>) -> Result<
    Option<Rarity>,
    ErrKind,
> {
    match fld(m, k) {
        None => Ok(None),
        Some(DocV::Null) => Ok(None),
        Some(DocV::Object(m2)) => match dec_rarity(m2) {
            Ok(f) => Ok(Some(f)),
            Err(e) => Err(e),
        },
        Some(_) => Err(ErrKind::TypeMismatch),
    }
}

pub fn get_opt_rarity(es: &Vec<(String, Doc)>, k: &str) -> (r: Result<Option<Rarity>, DecodeError>)
    requires
        entries_wf(es@),
    ensures
        outcome_opt(r) == d_opt_rarity(entries_view(es@), k@),
{
    match obj_get(es, k) {
        None => Ok(None),
        Some(d) => {
            proof {
                let i = choose|i: int|
                    0 <= i < es@.len() && #[trigger] es@[i].0@ == k@ && es@[i].1 == *d;
                assert(es@[i].1.keys_unique());
            }
            match d {
                Doc::Null => Ok(None),
                Doc::Object(es2) => match decode_rarity(es2) {
                    Ok(f) => Ok(Some(f)),
                    Err(e) => Err(e.under_name(k)),
                },
                _ => Err(DecodeError::at_name(ErrKind::TypeMismatch, k)),
            }
        },
    }
}

/// The copyright composite: text and year.
pub open spec fn copyright_keys() -> Set<Seq<char>> {
    set!["text"@, "year"@]
}

pub open spec fn dec_copyright(m: Map<Seq<char>, DocV>) -> Result<CopyrightV, ErrKind> {
    if !m.dom().subset_of(copyright_keys()) {
        Err(ErrKind::UnknownField)
    } else {
        let f_text = d_req_str(m, "text"@);
        let f_year = d_req_u16(m, "year"@);
        if f_text is Err {
            Err(the_err(f_text))
        } else if f_year is Err {
            Err(the_err(f_year))
        } else {
            Ok(CopyrightV { text: the_ok(f_text), year: the_ok(f_year) })
        }
    }
}

pub fn decode_copyright(es: &Vec<(String, Doc)>) -> (r: Result<Copyright, DecodeError>)
    requires
        entry_keys_distinct(es@),
    ensures
        outcome_v(r) == dec_copyright(entries_view(es@)),
{
    let ghost m = entries_view(es@);
    let mut i: usize = 0;
    while i < es.len()
        invariant
            entry_keys_distinct(es@),
            m == entries_view(es@),
            0 <= i <= es@.len(),
            forall|j: int| 0 <= j < i ==> copyright_keys().contains(#[trigger] es@[j].0@),
        decreases es@.len() - i,
    {
        let k = &es[i].0;
        if !(key_is(k, "text") || key_is(k, "year")) {
            proof {
                lemma_entries_view_index(es@, i as int);
            }
            return Err(DecodeError::at_key(ErrKind::UnknownField, k));
        }
        i = i + 1;
    }
    proof {
        assert forall|k2: Seq<char>| m.dom().contains(k2) implies copyright_keys().contains(k2) by {
            lemma_entries_view_dom(es@, k2);
        }
    }
    let text = match get_req_str(es, "text") {
        Ok(v) => v,
        Err(e) => {
            return Err(e);
        },
    };
    let year = match get_req_u16(es, "year") {
        Ok(v) => v,
        Err(e) => {
            return Err(e);
        },
    };
    Ok(Copyright { text, year })
}

/// An optional copyright field.
pub open spec fn d_opt_copyright(m: Map<Seq<char>, DocV>, k: Seq<char>) -> Result<
    Option<CopyrightV>,
    ErrKind,
> {
    match fld(m, k) {
        None => Ok(None),
        Some(DocV::Null) => Ok(None),
        Some(DocV::Object(m2)) => match dec_copyright(m2) {
            Ok(f) => Ok(Some(f)),
            Err(e) => Err(e),
        },
        Some(_) => Err(ErrKind::TypeMismatch),
    }
}

pub fn get_opt_copyright(es: &Vec<(String, Doc)>, k: &str) -> (r: Result<
    Option<Copyright>,
    DecodeError,
>)
    requires
        entries_wf(es@),
    ensures
        outcome_opt(r) == d_opt_copyright(entries_view(es@), k@),
{
    match obj_get(es, k) {
        None => Ok(None),
        Some(d) => {
            proof {
                let i = choose|i: int|
                    0 <= i < es@.len() && #[trigger] es@[i].0@ == k@ && es@[i].1 == *d;
                assert(es@[i].1.keys_unique());
            }
            match d {
                Doc::Null => Ok(None),
                Doc::Object(es2) => match decode_copyright(es2) {
                    Ok(f) => Ok(Some(f)),
                    Err(e) => Err(e.under_name(k)),
                },
                _ => Err(DecodeError::at_name(ErrKind::TypeMismatch, k)),
            }
        },
    }
}

/// One element of an elemental-type list.
pub open spec fn dec_energy_elem(d: DocV) -> Result<EnergyType, ErrKind> {
    match d {
        DocV::Text(s) => match EnergyType::of_wire(s) {
            Some(t) => Ok(t),
            None => Err(ErrKind::UnknownVariant),
        },
        _ => Err(ErrKind::TypeMismatch),
    }
}

/// An elemental-type list, elements in order; the first failure aborts.
pub open spec fn dec_energy_list(s: Seq<DocV>) -> Result<Seq<EnergyType>, ErrKind>
    decreases s.len(),
{
    if s.len() == 0 {
        Ok(Seq::empty())
    } else {
        match dec_energy_elem(s[0]) {
            Err(e) => Err(e),
            Ok(t) => match dec_energy_list(s.skip(1)) {
                Err(e) => Err(e),
                Ok(ts) => Ok(seq![t] + ts),
            },
        }
    }
}

pub fn decode_energy_list(xs: &Vec<Doc>) -> (r: Result<Vec<EnergyType>, DecodeError>)
    ensures
        outcome_v(r) == dec_energy_list(list_view(xs@)),
{
    let ghost lv = list_view(xs@);
    proof {
        lemma_list_view_len(xs@);
        assert(lv.skip(0) =~= lv);
        let r0 = dec_energy_list(lv);
        if r0 is Ok {
            assert(Seq::<EnergyType>::empty() + the_ok(r0) =~= the_ok(r0));
        }
    }
    let mut out: Vec<EnergyType> = Vec::new();
    let mut i: usize = 0;
    while i < xs.len()
        invariant
            0 <= i <= xs@.len(),
            lv == list_view(xs@),
            lv.len() == xs@.len(),
            out@.len() == i,
            dec_energy_list(lv) == (match dec_energy_list(lv.skip(i as int)) {
                Ok(ts) => Ok::<Seq<EnergyType>, ErrKind>(out@ + ts),
                Err(e) => Err(e),
            }),
        decreases xs@.len() - i,
    {
        proof {
            lemma_list_view_index(xs@, i as int);
            assert(lv.skip(i as int)[0] == lv[i as int]);
        }
        let t = match &xs[i] {
            Doc::Text(s) => match EnergyType::parse(s.as_str()) {
                Some(t) => t,
                None => {
                    return Err(
                        DecodeError::here(ErrKind::UnknownVariant).under_index(i),
                    );
                },
            },
            _ => {
                return Err(DecodeError::here(ErrKind::TypeMismatch).under_index(i));
            },
        };
        proof {
            assert(dec_energy_elem(lv[i as int]) == Ok::<EnergyType, ErrKind>(t));
            assert(lv.skip(i as int).skip(1) =~= lv.skip(i as int + 1));
            let r1 = dec_energy_list(lv.skip(i as int + 1));
            if r1 is Ok {
                assert(out@ + (seq![t] + the_ok(r1)) =~= out@.push(t) + the_ok(r1));
            }
        }
        out.push(t);
        i = i + 1;
    }
    proof {
        assert(lv.skip(i as int) =~= Seq::empty());
        assert(out@ + Seq::<EnergyType>::empty() =~= out@);
    }
    Ok(out)
}

/// A required elemental-type list field.
pub open spec fn d_req_energy_list(m: Map<Seq<char>, DocV>, k: Seq<char>) -> Result<
    Seq<EnergyType>,
    ErrKind,
> {
    match fld(m, k) {
        None => Err(ErrKind::MissingField),
        Some(DocV::List(s)) => dec_energy_list(s),
        Some(_) => Err(ErrKind::TypeMismatch),
    }
}

pub fn get_req_energy_list(es: &Vec<(String, Doc)>, k: &str) -> (r: Result<
    Vec<EnergyType>,
    DecodeError,
>)
    requires
        entry_keys_distinct(es@),
    ensures
        outcome_v(r) == d_req_energy_list(entries_view(es@), k@),
{
    match obj_get(es, k) {
        None => Err(DecodeError::at_name(ErrKind::MissingField, k)),
        Some(d) => match d {
            Doc::List(xs) => match decode_energy_list(xs) {
                Ok(v) => Ok(v),
                Err(e) => Err(e.under_name(k)),
            },
            _ => Err(DecodeError::at_name(ErrKind::TypeMismatch, k)),
        },
    }
}

/// One element of a card-tag list.
pub open spec fn dec_tag_elem(d: DocV) -> Result<CardTag, ErrKind> {
    match d {
        DocV::Text(s) => match CardTag::of_wire(s) {
            Some(t) => Ok(t),
            None => Err(ErrKind::UnknownVariant),
        },
        _ => Err(ErrKind::TypeMismatch),
    }
}

/// A card-tag list.
pub open spec fn dec_tag_list(s: Seq<DocV>) -> Result<Seq<CardTag>, ErrKind>
    decreases s.len(),
{
    if s.len() == 0 {
        Ok(Seq::empty())
    } else {
        match dec_tag_elem(s[0]) {
            Err(e) => Err(e),
            Ok(t) => match dec_tag_list(s.skip(1)) {
                Err(e) => Err(e),
                Ok(ts) => Ok(seq![t] + ts),
            },
        }
    }
}

pub fn decode_tag_list(xs: &Vec<Doc>) -> (r: Result<Vec<CardTag>, DecodeError>)
    ensures
        outcome_v(r) == dec_tag_list(list_view(xs@)),
{
    let ghost lv = list_view(xs@);
    proof {
        lemma_list_view_len(xs@);
        assert(lv.skip(0) =~= lv);
        let r0 = dec_tag_list(lv);
        if r0 is Ok {
            assert(Seq::<CardTag>::empty() + the_ok(r0) =~= the_ok(r0));
        }
    }
    let mut out: Vec<CardTag> = Vec::new();
    let mut i: usize = 0;
    while i < xs.len()
        invariant
            0 <= i <= xs@.len(),
            lv == list_view(xs@),
            lv.len() == xs@.len(),
            out@.len() == i,
            dec_tag_list(lv) == (match dec_tag_list(lv.skip(i as int)) {
                Ok(ts) => Ok::<Seq<CardTag>, ErrKind>(out@ + ts),
                Err(e) => Err(e),
            }),
        decreases xs@.len() - i,
    {
        proof {
            lemma_list_view_index(xs@, i as int);
            assert(lv.skip(i as int)[0] == lv[i as int]);
        }
        let t = match &xs[i] {
            Doc::Text(s) => match CardTag::parse(s.as_str()) {
                Some(t) => t,
                None => {
                    return Err(
                        DecodeError::here(ErrKind::UnknownVariant).under_index(i),
                    );
                },
            },
            _ => {
                return Err(DecodeError::here(ErrKind::TypeMismatch).under_index(i));
            },
        };
        proof {
            assert(dec_tag_elem(lv[i as int]) == Ok::<CardTag, ErrKind>(t));
            assert(lv.skip(i as int).skip(1) =~= lv.skip(i as int + 1));
            let r1 = dec_tag_list(lv.skip(i as int + 1));
            if r1 is Ok {
                assert(out@ + (seq![t] + the_ok(r1)) =~= out@.push(t) + the_ok(r1));
            }
        }
        out.push(t);
        i = i + 1;
    }
    proof {
        assert(lv.skip(i as int) =~= Seq::empty());
        assert(out@ + Seq::<CardTag>::empty() =~= out@);
    }
    Ok(out)
}

/// An optional card-tag list field.
pub open spec fn d_opt_tags(m: Map<Seq<char>, DocV>, k: Seq<char>) -> Result<
    Option<Seq<CardTag>>,
    ErrKind,
> {
    match fld(m, k) {
        None => Ok(None),
        Some(DocV::Null) => Ok(None),
        Some(DocV::List(s)) => match dec_tag_list(s) {
            Ok(ts) => Ok(Some(ts)),
            Err(e) => Err(e),
        },
        Some(_) => Err(ErrKind::TypeMismatch),
    }
}

pub fn get_opt_tags(es: &Vec<(String, Doc)>, k: &str) -> (r: Result<
    Option<Vec<CardTag>>,
    DecodeError,
>)
    requires
        entry_keys_distinct(es@),
    ensures
        outcome_opt(r) == d_opt_tags(entries_view(es@), k@),
{
    match obj_get(es, k) {
        None => Ok(None),
        Some(d) => match d {
            Doc::Null => Ok(None),
            Doc::List(xs) => match decode_tag_list(xs) {
                Ok(v) => Ok(Some(v)),
                Err(e) => Err(e.under_name(k)),
            },
            _ => Err(DecodeError::at_name(ErrKind::TypeMismatch, k)),
        },
    }
}

/// One element of a list of name strings.
pub open spec fn dec_str_elem(d: DocV) -> Result<Seq<char>, ErrKind> {
    match d {
        DocV::Text(s) => Ok(s),
        _ => Err(ErrKind::TypeMismatch),
    }
}

/// A list of name strings.
pub open spec fn dec_str_list(s: Seq<DocV>) -> Result<Seq<Seq<char>>, ErrKind>
    decreases s.len(),
{
    if s.len() == 0 {
        Ok(Seq::empty())
    } else {
        match dec_str_elem(s[0]) {
            Err(e) => Err(e),
            Ok(t) => match dec_str_list(s.skip(1)) {
                Err(e) => Err(e),
                Ok(ts) => Ok(seq![t] + ts),
            },
        }
    }
}

/// The model outcome of a string-list decode result.
pub open spec fn outcome_strs(r: Result<Vec<String>, DecodeError>) -> Result<
    Seq<Seq<char>>,
    ErrKind,
> {
    match r {
        Ok(v) => Ok(v@.map_values(|s: String| s@)),
        Err(e) => Err(e.kind),
    }
}

pub fn decode_str_list(xs: &Vec<Doc>) -> (r: Result<Vec<String>, DecodeError>)
    ensures
        outcome_strs(r) == dec_str_list(list_view(xs@)),
{
    let ghost lv = list_view(xs@);
    proof {
        lemma_list_view_len(xs@);
        assert(lv.skip(0) =~= lv);
        let r0 = dec_str_list(lv);
        if r0 is Ok {
            assert(Seq::<String>::empty().map_values(|s: String| s@) + the_ok(r0) =~= the_ok(r0));
        }
    }
    let mut out: Vec<String> = Vec::new();
    let mut i: usize = 0;
    while i < xs.len()
        invariant
            0 <= i <= xs@.len(),
            lv == list_view(xs@),
            lv.len() == xs@.len(),
            out@.len() == i,
            dec_str_list(lv) == (match dec_str_list(lv.skip(i as int)) {
                Ok(ts) => Ok::<Seq<Seq<char>>, ErrKind>(out@.map_values(|s: String| s@) + ts),
                Err(e) => Err(e),
            }),
        decreases xs@.len() - i,
    {
        proof {
            lemma_list_view_index(xs@, i as int);
            assert(lv.skip(i as int)[0] == lv[i as int]);
        }
        let t: String = match &xs[i] {
            Doc::Text(s) => s.clone(),
            _ => {
                return Err(DecodeError::here(ErrKind::TypeMismatch).under_index(i));
            },
        };
        proof {
            assert(dec_str_elem(lv[i as int]) == Ok::<Seq<char>, ErrKind>(t@));
            assert(lv.skip(i as int).skip(1) =~= lv.skip(i as int + 1));
            let r1 = dec_str_list(lv.skip(i as int + 1));
            if r1 is Ok {
                assert(out@.map_values(|s: String| s@) + (seq![t@] + the_ok(r1)) =~= out@.push(
                    t,
                ).map_values(|s: String| s@) + the_ok(r1));
            }
        }
        out.push(t);
        i = i + 1;
    }
    proof {
        assert(lv.skip(i as int) =~= Seq::empty());
        assert(out@.map_values(|s: String| s@) + Seq::<Seq<char>>::empty() =~= out@.map_values(
            |s: String| s@,
        ));
    }
    Ok(out)
}

/// The artists composite: display text and the list of names.
pub open spec fn artists_keys() -> Set<Seq<char>> {
    set!["text"@, "list"@]
}

pub open spec fn dec_artists(m: Map<Seq<char>, DocV>) -> Result<ArtistsV, ErrKind> {
    if !m.dom().subset_of(artists_keys()) {
        Err(ErrKind::UnknownField)
    } else {
        let f_text = d_req_str(m, "text"@);
        let f_list = match fld(m, "list"@) {
            None => Err(ErrKind::MissingField),
            Some(DocV::List(s)) => dec_str_list(s),
            Some(_) => Err(ErrKind::TypeMismatch),
        };
        if f_text is Err {
            Err(the_err(f_text))
        } else if f_list is Err {
            Err(the_err(f_list))
        } else {
            Ok(ArtistsV { text: the_ok(f_text), list: the_ok(f_list) })
        }
    }
}

pub fn decode_artists(es: &Vec<(String, Doc)>) -> (r: Result<Artists, DecodeError>)
    requires
        entry_keys_distinct(es@),
    ensures
        outcome_v(r) == dec_artists(entries_view(es@)),
{
    let ghost m = entries_view(es@);
    let mut i: usize = 0;
    while i < es.len()
        invariant
            entry_keys_distinct(es@),
            m == entries_view(es@),
            0 <= i <= es@.len(),
            forall|j: int| 0 <= j < i ==> artists_keys().contains(#[trigger] es@[j].0@),
        decreases es@.len() - i,
    {
        let k = &es[i].0;
        if !(key_is(k, "text") || key_is(k, "list")) {
            proof {
                lemma_entries_view_index(es@, i as int);
            }
            return Err(DecodeError::at_key(ErrKind::UnknownField, k));
        }
        i = i + 1;
    }
    proof {
        assert forall|k2: Seq<char>| m.dom().contains(k2) implies artists_keys().contains(k2) by {
            lemma_entries_view_dom(es@, k2);
        }
    }
    let text = match get_req_str(es, "text") {
        Ok(v) => v,
        Err(e) => {
            return Err(e);
        },
    };
    let list = match obj_get(es, "list") {
        None => {
            return Err(DecodeError::at_name(ErrKind::MissingField, "list"));
        },
        Some(d) => match d {
            Doc::List(xs) => match decode_str_list(xs) {
                Ok(v) => v,
                Err(e) => {
                    return Err(e.under_name("list"));
                },
            },
            _ => {
                return Err(DecodeError::at_name(ErrKind::TypeMismatch, "list"));
            },
        },
    };
    Ok(Artists { text, list })
}

/// An optional artists field.
pub open spec fn d_opt_artists(m: Map<Seq<char>, DocV>, k: Seq<char>) -> Result<
    Option<ArtistsV>,
    ErrKind,
> {
    match fld(m, k) {
        None => Ok(None),
        Some(DocV::Null) => Ok(None),
        Some(DocV::Object(m2)) => match dec_artists(m2) {
            Ok(f) => Ok(Some(f)),
            Err(e) => Err(e),
        },
        Some(_) => Err(ErrKind::TypeMismatch),
    }
}

pub fn get_opt_artists(es: &Vec<(String, Doc)>, k: &str) -> (r: Result<
    Option<Artists>,
    DecodeError,
>)
    requires
        entries_wf(es@),
    ensures
        outcome_opt(r) == d_opt_artists(entries_view(es@), k@),
{
    match obj_get(es, k) {
        None => Ok(None),
        Some(d) => {
            proof {
                let i = choose|i: int|
                    0 <= i < es@.len() && #[trigger] es@[i].0@ == k@ && es@[i].1 == *d;
                assert(es@[i].1.keys_unique());
            }
            match d {
                Doc::Null => Ok(None),
                Doc::Object(es2) => match decode_artists(es2) {
                    Ok(f) => Ok(Some(f)),
                    Err(e) => Err(e.under_name(k)),
                },
                _ => Err(DecodeError::at_name(ErrKind::TypeMismatch, k)),
            }
        },
    }
}

/// The collector-number composite.
pub open spec fn collector_keys() -> Set<Seq<char>> {
    set!["full"@, "numerator"@, "denominator"@, "numeric"@]
}

pub open spec fn dec_collector(m: Map<Seq<char>, DocV>) -> Result<CollectorNumberV, ErrKind> {
    if !m.dom().subset_of(collector_keys()) {
        Err(ErrKind::UnknownField)
    } else {
        let f_full = d_req_str(m, "full"@);
        let f_num = d_req_str(m, "numerator"@);
        let f_den = d_opt_str(m, "denominator"@);
        let f_val = d_req_nz_u16(m, "numeric"@);
        if f_full is Err {
            Err(the_err(f_full))
        } else if f_num is Err {
            Err(the_err(f_num))
        } else if f_den is Err {
            Err(the_err(f_den))
        } else if f_val is Err {
            Err(the_err(f_val))
        } else {
            Ok(
                CollectorNumberV {
                    full: the_ok(f_full),
                    numerator: the_ok(f_num),
                    denominator: the_ok(f_den),
                    numeric: the_ok(f_val),
                },
            )
        }
    }
}

pub fn decode_collector(es: &Vec<(String, Doc)>) -> (r: Result<CollectorNumber, DecodeError>)
    requires
        entry_keys_distinct(es@),
    ensures
        outcome_v(r) == dec_collector(entries_view(es@)),
{
    let ghost m = entries_view(es@);
    let mut i: usize = 0;
    while i < es.len()
        invariant
            entry_keys_distinct(es@),
            m == entries_view(es@),
            0 <= i <= es@.len(),
            forall|j: int| 0 <= j < i ==> collector_keys().contains(#[trigger] es@[j].0@),
        decreases es@.len() - i,
    {
        let k = &es[i].0;
        if !(key_is(k, "full") || key_is(k, "numerator") || key_is(k, "denominator") || key_is(
            k,
            "numeric",
        )) {
            proof {
                lemma_entries_view_index(es@, i as int);
            }
            return Err(DecodeError::at_key(ErrKind::UnknownField, k));
        }
        i = i + 1;
    }
    proof {
        assert forall|k2: Seq<char>| m.dom().contains(k2) implies collector_keys().contains(k2) by {
            lemma_entries_view_dom(es@, k2);
        }
    }
    let full = match get_req_str(es, "full") {
        Ok(v) => v,
        Err(e) => {
            return Err(e);
        },
    };
    let numerator = match get_req_str(es, "numerator") {
        Ok(v) => v,
        Err(e) => {
            return Err(e);
        },
    };
    let denominator = match get_opt_str(es, "denominator") {
        Ok(v) => v,
        Err(e) => {
            return Err(e);
        },
    };
    let numeric = match get_req_nz_u16(es, "numeric") {
        Ok(v) => v,
        Err(e) => {
            return Err(e);
        },
    };
    Ok(CollectorNumber { full, numerator, denominator, numeric })
}

/// A required collector-number field.
pub open spec fn d_req_collector(m: Map<Seq<char>, DocV>, k: Seq<char>) -> Result<
    CollectorNumberV,
    ErrKind,
> {
    match fld(m, k) {
        None => Err(ErrKind::MissingField),
        Some(DocV::Object(m2)) => dec_collector(m2),
        Some(_) => Err(ErrKind::TypeMismatch),
    }
}

pub fn get_req_collector(es: &Vec<(String, Doc)>, k: &str) -> (r: Result<
    CollectorNumber,
    DecodeError,
>)
    requires
        entries_wf(es@),
    ensures
        outcome_v(r) == d_req_collector(entries_view(es@), k@),
{
    match obj_get(es, k) {
        None => Err(DecodeError::at_name(ErrKind::MissingField, k)),
        Some(d) => {
            proof {
                let i = choose|i: int|
                    0 <= i < es@.len() && #[trigger] es@[i].0@ == k@ && es@[i].1 == *d;
                assert(es@[i].1.keys_unique());
            }
            match d {
                Doc::Object(es2) => match decode_collector(es2) {
                    Ok(v) => Ok(v),
                    Err(e) => Err(e.under_name(k)),
                },
                _ => Err(DecodeError::at_name(ErrKind::TypeMismatch, k)),
            }
        },
    }
}

/// The weakness composite.
pub open spec fn weakness_keys() -> Set<Seq<char>> {
    set!["amount"@, "operator"@, "types"@]
}

pub open spec fn dec_weakness(m: Map<Seq<char>, DocV>) -> Result<WeaknessV, ErrKind> {
    if !m.dom().subset_of(weakness_keys()) {
        Err(ErrKind::UnknownField)
    } else {
        let f_amount = d_req_u8(m, "amount"@);
        let f_op = match d_req_str(m, "operator"@) {
            Err(e) => Err(e),
            Ok(s) => match WeaknessOperator::of_wire(s) {
                Some(t) => Ok(t),
                None => Err(ErrKind::UnknownVariant),
            },
        };
        let f_types = d_req_energy_list(m, "types"@);
        if f_amount is Err {
            Err(the_err(f_amount))
        } else if f_op is Err {
            Err(the_err(f_op))
        } else if f_types is Err {
            Err(the_err(f_types))
        } else {
            Ok(
                WeaknessV {
                    amount: the_ok(f_amount),
                    operator: the_ok(f_op),
                    types: the_ok(f_types),
                },
            )
        }
    }
}

pub fn decode_weakness(es: &Vec<(String, Doc)>) -> (r: Result<Weakness, DecodeError>)
    requires
        entry_keys_distinct(es@),
    ensures
        outcome_v(r) == dec_weakness(entries_view(es@)),
{
    let ghost m = entries_view(es@);
    let mut i: usize = 0;
    while i < es.len()
        invariant
            entry_keys_distinct(es@),
            m == entries_view(es@),
            0 <= i <= es@.len(),
            forall|j: int| 0 <= j < i ==> weakness_keys().contains(#[trigger] es@[j].0@),
        decreases es@.len() - i,
    {
        let k = &es[i].0;
        if !(key_is(k, "amount") || key_is(k, "operator") || key_is(k, "types")) {
            proof {
                lemma_entries_view_index(es@, i as int);
            }
            return Err(DecodeError::at_key(ErrKind::UnknownField, k));
        }
        i = i + 1;
    }
    proof {
        assert forall|k2: Seq<char>| m.dom().contains(k2) implies weakness_keys().contains(k2) by {
            lemma_entries_view_dom(es@, k2);
        }
    }
    let amount = match get_req_u8(es, "amount") {
        Ok(v) => v,
        Err(e) => {
            return Err(e);
        },
    };
    let operator = match get_req_str(es, "operator") {
        Ok(s) => match WeaknessOperator::parse(s.as_str()) {
            Some(t) => t,
            None => {
                return Err(DecodeError::at_name(ErrKind::UnknownVariant, "operator"));
            },
        },
        Err(e) => {
            return Err(e);
        },
    };
    let types = match get_req_energy_list(es, "types") {
        Ok(v) => v,
        Err(e) => {
            return Err(e);
        },
    };
    Ok(Weakness { amount, operator, types })
}

/// An optional weakness field.
pub open spec fn d_opt_weakness(m: Map<Seq<char>, DocV>, k: Seq<char>) -> Result<
    Option<WeaknessV>,
    ErrKind,
> {
    match fld(m, k) {
        None => Ok(None),
        Some(DocV::Null) => Ok(None),
        Some(DocV::Object(m2)) => match dec_weakness(m2) {
            Ok(f) => Ok(Some(f)),
            Err(e) => Err(e),
        },
        Some(_) => Err(ErrKind::TypeMismatch),
    }
}

pub fn get_opt_weakness(es: &Vec<(String, Doc)>, k: &str) -> (r: Result<
    Option<Weakness>,
    DecodeError,
>)
    requires
        entries_wf(es@),
    ensures
        outcome_opt(r) == d_opt_weakness(entries_view(es@), k@),
{
    match obj_get(es, k) {
        None => Ok(None),
        Some(d) => {
            proof {
                let i = choose|i: int|
                    0 <= i < es@.len() && #[trigger] es@[i].0@ == k@ && es@[i].1 == *d;
                assert(es@[i].1.keys_unique());
            }
            match d {
                Doc::Null => Ok(None),
                Doc::Object(es2) => match decode_weakness(es2) {
                    Ok(f) => Ok(Some(f)),
                    Err(e) => Err(e.under_name(k)),
                },
                _ => Err(DecodeError::at_name(ErrKind::TypeMismatch, k)),
            }
        },
    }
}

/// The resistance composite.
pub open spec fn resistance_keys() -> Set<Seq<char>> {
    set!["amount"@, "operator"@, "types"@]
}

pub open spec fn dec_resistance(m: Map<Seq<char>, DocV>) -> Result<ResistanceV, ErrKind> {
    if !m.dom().subset_of(resistance_keys()) {
        Err(ErrKind::UnknownField)
    } else {
        let f_amount = d_req_u8(m, "amount"@);
        let f_op = match d_req_str(m, "operator"@) {
            Err(e) => Err(e),
            Ok(s) => match ResistanceOperator::of_wire(s) {
                Some(t) => Ok(t),
                None => Err(ErrKind::UnknownVariant),
            },
        };
        let f_types = d_req_energy_list(m, "types"@);
        if f_amount is Err {
            Err(the_err(f_amount))
        } else if f_op is Err {
            Err(the_err(f_op))
        } else if f_types is Err {
            Err(the_err(f_types))
        } else {
            Ok(
                ResistanceV {
                    amount: the_ok(f_amount),
                    operator: the_ok(f_op),
                    types: the_ok(f_types),
                },
            )
        }
    }
}

pub fn decode_resistance(es: &Vec<(String, Doc)>) -> (r: Result<Resistance, DecodeError>)
    requires
        entry_keys_distinct(es@),
    ensures
        outcome_v(r) == dec_resistance(entries_view(es@)),
{
    let ghost m = entries_view(es@);
    let mut i: usize = 0;
    while i < es.len()
        invariant
            entry_keys_distinct(es@),
            m == entries_view(es@),
            0 <= i <= es@.len(),
            forall|j: int| 0 <= j < i ==> resistance_keys().contains(#[trigger] es@[j].0@),
        decreases es@.len() - i,
    {
        let k = &es[i].0;
        if !(key_is(k, "amount") || key_is(k, "operator") || key_is(k, "types")) {
            proof {
                lemma_entries_view_index(es@, i as int);
            }
            return Err(DecodeError::at_key(ErrKind::UnknownField, k));
        }
        i = i + 1;
    }
    proof {
        assert forall|k2: Seq<char>| m.dom().contains(k2) implies resistance_keys().contains(
            k2,
        ) by {
            lemma_entries_view_dom(es@, k2);
        }
    }
    let amount = match get_req_u8(es, "amount") {
        Ok(v) => v,
        Err(e) => {
            return Err(e);
        },
    };
    let operator = match get_req_str(es, "operator") {
        Ok(s) => match ResistanceOperator::parse(s.as_str()) {
            Some(t) => t,
            None => {
                return Err(DecodeError::at_name(ErrKind::UnknownVariant, "operator"));
            },
        },
        Err(e) => {
            return Err(e);
        },
    };
    let types = match get_req_energy_list(es, "types") {
        Ok(v) => v,
        Err(e) => {
            return Err(e);
        },
    };
    Ok(Resistance { amount, operator, types })
}

/// An optional resistance field.
pub open spec fn d_opt_resistance(m: Map<Seq<char>, DocV>, k: Seq<char>) -> Result<
    Option<ResistanceV>,
    ErrKind,
> {
    match fld(m, k) {
        None => Ok(None),
        Some(DocV::Null) => Ok(None),
        Some(DocV::Object(m2)) => match dec_resistance(m2) {
            Ok(f) => Ok(Some(f)),
            Err(e) => Err(e),
        },
        Some(_) => Err(ErrKind::TypeMismatch),
    }
}

pub fn get_opt_resistance(es: &Vec<(String, Doc)>, k: &str) -> (r: Result<
    Option<Resistance>,
    DecodeError,
>)
    requires
        entries_wf(es@),
    ensures
        outcome_opt(r) == d_opt_resistance(entries_view(es@), k@),
{
    match obj_get(es, k) {
        None => Ok(None),
        Some(d) => {
            proof {
                let i = choose|i: int|
                    0 <= i < es@.len() && #[trigger] es@[i].0@ == k@ && es@[i].1 == *d;
                assert(es@[i].1.keys_unique());
            }
            match d {
                Doc::Null => Ok(None),
                Doc::Object(es2) => match decode_resistance(es2) {
                    Ok(f) => Ok(Some(f)),
                    Err(e) => Err(e.under_name(k)),
                },
                _ => Err(DecodeError::at_name(ErrKind::TypeMismatch, k)),
            }
        },
    }
}

/// The damage composite: amount with an optional suffix operator.
pub open spec fn damage_keys() -> Set<Seq<char>> {
    set!["amount"@, "suffix"@]
}

pub open spec fn dec_damage(m: Map<Seq<char>, DocV>) -> Result<Damage, ErrKind> {
    if !m.dom().subset_of(damage_keys()) {
        Err(ErrKind::UnknownField)
    } else {
        let f_amount = d_req_u16(m, "amount"@);
        let f_suffix = match d_opt_str(m, "suffix"@) {
            Err(e) => Err(e),
            Ok(None) => Ok(None),
            Ok(Some(s)) => match DamageSuffix::of_wire(s) {
                Some(t) => Ok(Some(t)),
                None => Err(ErrKind::UnknownVariant),
            },
        };
        if f_amount is Err {
            Err(the_err(f_amount))
        } else if f_suffix is Err {
            Err(the_err(f_suffix))
        } else {
            Ok(Damage { amount: the_ok(f_amount), suffix: the_ok(f_suffix) })
        }
    }
}

pub fn decode_damage(es: &Vec<(String, Doc)>) -> (r: Result<Damage, DecodeError>)
    requires
        entry_keys_distinct(es@),
    ensures
        outcome_v(r) == dec_damage(entries_view(es@)),
{
    let ghost m = entries_view(es@);
    let mut i: usize = 0;
    while i < es.len()
        invariant
            entry_keys_distinct(es@),
            m == entries_view(es@),
            0 <= i <= es@.len(),
            forall|j: int| 0 <= j < i ==> damage_keys().contains(#[trigger] es@[j].0@),
        decreases es@.len() - i,
    {
        let k = &es[i].0;
        if !(key_is(k, "amount") || key_is(k, "suffix")) {
            proof {
                lemma_entries_view_index(es@, i as int);
            }
            return Err(DecodeError::at_key(ErrKind::UnknownField, k));
        }
        i = i + 1;
    }
    proof {
        assert forall|k2: Seq<char>| m.dom().contains(k2) implies damage_keys().contains(k2) by {
            lemma_entries_view_dom(es@, k2);
        }
    }
    let amount = match get_req_u16(es, "amount") {
        Ok(v) => v,
        Err(e) => {
            return Err(e);
        },
    };
    let suffix = match get_opt_str(es, "suffix") {
        Ok(None) => None,
        Ok(Some(s)) => match DamageSuffix::parse(s.as_str()) {
            Some(t) => Some(t),
            None => {
                return Err(DecodeError::at_name(ErrKind::UnknownVariant, "suffix"));
            },
        },
        Err(e) => {
            return Err(e);
        },
    };
    Ok(Damage { amount, suffix })
}

/// An optional damage field.
pub open spec fn d_opt_damage(m: Map<Seq<char>, DocV>, k: Seq<char>) -> Result<
    Option<Damage>,
    ErrKind,
> {
    match fld(m, k) {
        None => Ok(None),
        Some(DocV::Null) => Ok(None),
        Some(DocV::Object(m2)) => match dec_damage(m2) {
            Ok(f) => Ok(Some(f)),
            Err(e) => Err(e),
        },
        Some(_) => Err(ErrKind::TypeMismatch),
    }
}

pub fn get_opt_damage(es: &Vec<(String, Doc)>, k: &str) -> (r: Result<Option<Damage>, DecodeError>)
    requires
        entries_wf(es@),
    ensures
        outcome_opt(r) == d_opt_damage(entries_view(es@), k@),
{
    match obj_get(es, k) {
        None => Ok(None),
        Some(d) => {
            proof {
                let i = choose|i: int|
                    0 <= i < es@.len() && #[trigger] es@[i].0@ == k@ && es@[i].1 == *d;
                assert(es@[i].1.keys_unique());
            }
            match d {
                Doc::Null => Ok(None),
                Doc::Object(es2) => match decode_damage(es2) {
                    Ok(f) => Ok(Some(f)),
                    Err(e) => Err(e.under_name(k)),
                },
                _ => Err(DecodeError::at_name(ErrKind::TypeMismatch, k)),
            }
        },
    }
}

} // verus!
