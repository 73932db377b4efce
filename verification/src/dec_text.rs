//! Decoders for the extension block, the image bundle, and the rule-text
//! discriminated union.

use vstd::prelude::*;
use crate::dec::d_opt_str;
use crate::dec::d_opt_url;
use crate::dec::d_req_dt;
use crate::dec::d_req_hex;
use crate::dec::d_req_str;
use crate::dec::d_req_u16;
use crate::dec::d_req_url;
use crate::dec::entries_wf;
use crate::dec::fld;
use crate::dec::get_opt_str;
use crate::dec::get_opt_url;
use crate::dec::get_req_datetime;
use crate::dec::get_req_hex;
use crate::dec::get_req_str;
use crate::dec::get_req_u16;
use crate::dec::get_req_url;
use crate::dec::obj_get;
use crate::dec::outcome_opt;
use crate::dec::outcome_v;
use crate::dec::the_err;
use crate::dec::the_ok;
use crate::dec_parts::d_opt_damage;
use crate::dec_parts::get_opt_damage;
use crate::doc::Doc;
use crate::doc::DocV;
use crate::doc::entries_view;
use crate::doc::entry_keys_distinct;
use crate::doc::lemma_entries_view_dom;
use crate::doc::lemma_entries_view_index;
use crate::doc::lemma_list_view_index;
use crate::doc::lemma_list_view_len;
use crate::doc::list_view;
use crate::err::DecodeError;
use crate::err::ErrKind;
use crate::tokens::AttackCost;
use crate::types::Ability;
use crate::types::AbilityV;
use crate::types::Attack;
use crate::types::AttackV;
use crate::types::Effect;
use crate::types::EffectV;
use crate::types::Ext;
use crate::types::ExtV;
use crate::types::ImageJpg;
use crate::types::ImageJpgV;
use crate::types::ImagePng;
use crate::types::ImagePngV;
use crate::types::ImageTex;
use crate::types::ImageTexV;
use crate::types::Images;
use crate::types::ImagesV;
use crate::types::Reminder;
use crate::types::ReminderV;
use crate::types::RuleBox;
use crate::types::RuleBoxV;
use crate::types::Tcgl;
use crate::types::TcglImages;
use crate::types::TcglImagesV;
use crate::types::TcglV;
use crate::types::Text;
use crate::types::TextBox;
use crate::types::TextBoxV;
use crate::types::TextV;
use crate::types::texts_view;
use crate::util::key_is;
use crate::util::str_eq;

verus! {

broadcast use {
    vstd::seq::group_seq_axioms,
    vstd::map::group_map_axioms,
    vstd::set::group_set_axioms,
    vstd::std_specs::vec::group_vec_axioms,
};

/// The provider identifier bundle.
pub open spec fn tcgl_keys() -> Set<Seq<char>> {
    set!["archetypeID"@, "cardID"@, "key"@, "longFormID"@, "reldate"@]
}

pub open spec fn dec_tcgl(m: Map<Seq<char>, DocV>) -> Result<TcglV, ErrKind> {
    if !m.dom().subset_of(tcgl_keys()) {
        Err(ErrKind::UnknownField)
    } else {
        let f_id = d_req_hex(m, "archetypeID"@);
        let f_card = d_req_str(m, "cardID"@);
        let f_key = d_req_str(m, "key"@);
        let f_long = d_req_str(m, "longFormID"@);
        let f_date = d_req_dt(m, "reldate"@);
        if f_id is Err {
            Err(the_err(f_id))
        } else if f_card is Err {
            Err(the_err(f_card))
        } else if f_key is Err {
            Err(the_err(f_key))
        } else if f_long is Err {
            Err(the_err(f_long))
        } else if f_date is Err {
            Err(the_err(f_date))
        } else {
            Ok(
                TcglV {
                    archetype_id: the_ok(f_id),
                    card_id: the_ok(f_card),
                    key: the_ok(f_key),
                    long_form_id: the_ok(f_long),
                    reldate: the_ok(f_date),
                },
            )
        }
    }
}

pub fn decode_tcgl(es: &Vec<(String, Doc)>) -> (r: Result<Tcgl, DecodeError>)
    requires
        entry_keys_distinct(es@),
    ensures
        outcome_v(r) == dec_tcgl(entries_view(es@)),
{
    let ghost m = entries_view(es@);
    let mut i: usize = 0;
    while i < es.len()
        invariant
            entry_keys_distinct(es@),
            m == entries_view(es@),
            0 <= i <= es@.len(),
            forall|j: int| 0 <= j < i ==> tcgl_keys().contains(#[trigger] es@[j].0@),
        decreases es@.len() - i,
    {
        let k = &es[i].0;
        if !(key_is(k, "archetypeID") || key_is(k, "cardID") || key_is(k, "key") || key_is(
            k,
            "longFormID",
        ) || key_is(k, "reldate")) {
            proof {
                lemma_entries_view_index(es@, i as int);
            }
            return Err(DecodeError::at_key(ErrKind::UnknownField, k));
        }
        i = i + 1;
    }
    proof {
        assert forall|k2: Seq<char>| m.dom().contains(k2) implies tcgl_keys().contains(k2) by {
            lemma_entries_view_dom(es@, k2);
        }
    }
    let archetype_id = match get_req_hex(es, "archetypeID") {
        Ok(v) => v,
        Err(e) => {
            return Err(e);
        },
    };
    let card_id = match get_req_str(es, "cardID") {
        Ok(v) => v,
        Err(e) => {
            return Err(e);
        },
    };
    let key = match get_req_str(es, "key") {
        Ok(v) => v,
        Err(e) => {
            return Err(e);
        },
    };
    let long_form_id = match get_req_str(es, "longFormID") {
        Ok(v) => v,
        Err(e) => {
            return Err(e);
        },
    };
    let reldate = match get_req_datetime(es, "reldate") {
        Ok(v) => v,
        Err(e) => {
            return Err(e);
        },
    };
    Ok(Tcgl { archetype_id, card_id, key, long_form_id, reldate })
}

/// The extension block.
pub open spec fn ext_keys() -> Set<Seq<char>> {
    set!["tcgl"@]
}

pub open spec fn dec_ext(m: Map<Seq<char>, DocV>) -> Result<ExtV, ErrKind> {
    if !m.dom().subset_of(ext_keys()) {
        Err(ErrKind::UnknownField)
    } else {
        match fld(m, "tcgl"@) {
            None => Err(ErrKind::MissingField),
            Some(DocV::Object(m2)) => match dec_tcgl(m2) {
                Ok(t) => Ok(ExtV { tcgl: t }),
                Err(e) => Err(e),
            },
            Some(_) => Err(ErrKind::TypeMismatch),
        }
    }
}

pub fn decode_ext(es: &Vec<(String, Doc)>) -> (r: Result<Ext, DecodeError>)
    requires
        entries_wf(es@),
    ensures
        outcome_v(r) == dec_ext(entries_view(es@)),
{
    let ghost m = entries_view(es@);
    let mut i: usize = 0;
    while i < es.len()
        invariant
            entries_wf(es@),
            m == entries_view(es@),
            0 <= i <= es@.len(),
            forall|j: int| 0 <= j < i ==> ext_keys().contains(#[trigger] es@[j].0@),
        decreases es@.len() - i,
    {
        let k = &es[i].0;
        if !(key_is(k, "tcgl")) {
            proof {
                lemma_entries_view_index(es@, i as int);
            }
            return Err(DecodeError::at_key(ErrKind::UnknownField, k));
        }
        i = i + 1;
    }
    proof {
        assert forall|k2: Seq<char>| m.dom().contains(k2) implies ext_keys().contains(k2) by {
            lemma_entries_view_dom(es@, k2);
        }
    }
    match obj_get(es, "tcgl") {
        None => Err(DecodeError::at_name(ErrKind::MissingField, "tcgl")),
        Some(d) => {
            proof {
                let i2 = choose|i2: int|
                    0 <= i2 < es@.len() && #[trigger] es@[i2].0@ == "tcgl"@ && es@[i2].1 == *d;
                assert(es@[i2].1.keys_unique());
            }
            match d {
                Doc::Object(es2) => match decode_tcgl(es2) {
                    Ok(t) => Ok(Ext { tcgl: t }),
                    Err(e) => Err(e.under_name("tcgl")),
                },
                _ => Err(DecodeError::at_name(ErrKind::TypeMismatch, "tcgl")),
            }
        },
    }
}

/// The JPG image references.
pub open spec fn jpg_keys() -> Set<Seq<char>> {
    set!["front"@]
}

pub open spec fn dec_jpg(m: Map<Seq<char>, DocV>) -> Result<ImageJpgV, ErrKind> {
    if !m.dom().subset_of(jpg_keys()) {
        Err(ErrKind::UnknownField)
    } else {
        match d_req_url(m, "front"@) {
            Err(e) => Err(e),
            Ok(u) => Ok(ImageJpgV { front: u }),
        }
    }
}

pub fn decode_jpg(es: &Vec<(String, Doc)>) -> (r: Result<ImageJpg, DecodeError>)
    requires
        entry_keys_distinct(es@),
    ensures
        outcome_v(r) == dec_jpg(entries_view(es@)),
{
    let ghost m = entries_view(es@);
    let mut i: usize = 0;
    while i < es.len()
        invariant
            entry_keys_distinct(es@),
            m == entries_view(es@),
            0 <= i <= es@.len(),
            forall|j: int| 0 <= j < i ==> jpg_keys().contains(#[trigger] es@[j].0@),
        decreases es@.len() - i,
    {
        let k = &es[i].0;
        if !(key_is(k, "front")) {
            proof {
                lemma_entries_view_index(es@, i as int);
            }
            return Err(DecodeError::at_key(ErrKind::UnknownField, k));
        }
        i = i + 1;
    }
    proof {
        assert forall|k2: Seq<char>| m.dom().contains(k2) implies jpg_keys().contains(k2) by {
            lemma_entries_view_dom(es@, k2);
        }
    }
    match get_req_url(es, "front") {
        Ok(front) => Ok(ImageJpg { front }),
        Err(e) => Err(e),
    }
}

/// The PNG image references.
pub open spec fn png_keys() -> Set<Seq<char>> {
    set!["front"@, "foil"@, "etch"@]
}

pub open spec fn dec_png(m: Map<Seq<char>, DocV>) -> Result<ImagePngV, ErrKind> {
    if !m.dom().subset_of(png_keys()) {
        Err(ErrKind::UnknownField)
    } else {
        let f_front = d_req_url(m, "front"@);
        let f_foil = d_opt_url(m, "foil"@);
        let f_etch = d_opt_url(m, "etch"@);
        if f_front is Err {
            Err(the_err(f_front))
        } else if f_foil is Err {
            Err(the_err(f_foil))
        } else if f_etch is Err {
            Err(the_err(f_etch))
        } else {
            Ok(ImagePngV { front: the_ok(f_front), foil: the_ok(f_foil), etch: the_ok(f_etch) })
        }
    }
}

pub fn decode_png(es: &Vec<(String, Doc)>) -> (r: Result<ImagePng, DecodeError>)
    requires
        entry_keys_distinct(es@),
    ensures
        outcome_v(r) == dec_png(entries_view(es@)),
{
    let ghost m = entries_view(es@);
    let mut i: usize = 0;
    while i < es.len()
        invariant
            entry_keys_distinct(es@),
            m == entries_view(es@),
            0 <= i <= es@.len(),
            forall|j: int| 0 <= j < i ==> png_keys().contains(#[trigger] es@[j].0@),
        decreases es@.len() - i,
    {
        let k = &es[i].0;
        if !(key_is(k, "front") || key_is(k, "foil") || key_is(k, "etch")) {
            proof {
                lemma_entries_view_index(es@, i as int);
            }
            return Err(DecodeError::at_key(ErrKind::UnknownField, k));
        }
        i = i + 1;
    }
    proof {
        assert forall|k2: Seq<char>| m.dom().contains(k2) implies png_keys().contains(k2) by {
            lemma_entries_view_dom(es@, k2);
        }
    }
    let front = match get_req_url(es, "front") {
        Ok(v) => v,
        Err(e) => {
            return Err(e);
        },
    };
    let foil = match get_opt_url(es, "foil") {
        Ok(v) => v,
        Err(e) => {
            return Err(e);
        },
    };
    let etch = match get_opt_url(es, "etch") {
        Ok(v) => v,
        Err(e) => {
            return Err(e);
        },
    };
    Ok(ImagePng { front, foil, etch })
}

/// The texture image references.
pub open spec fn dec_tex(m: Map<Seq<char>, DocV>) -> Result<ImageTexV, ErrKind> {
    if !m.dom().subset_of(png_keys()) {
        Err(ErrKind::UnknownField)
    } else {
        let f_front = d_req_url(m, "front"@);
        let f_foil = d_opt_url(m, "foil"@);
        let f_etch = d_opt_url(m, "etch"@);
        if f_front is Err {
            Err(the_err(f_front))
        } else if f_foil is Err {
            Err(the_err(f_foil))
        } else if f_etch is Err {
            Err(the_err(f_etch))
        } else {
            Ok(ImageTexV { front: the_ok(f_front), foil: the_ok(f_foil), etch: the_ok(f_etch) })
        }
    }
}

pub fn decode_tex(es: &Vec<(String, Doc)>) -> (r: Result<ImageTex, DecodeError>)
    requires
        entry_keys_distinct(es@),
    ensures
        outcome_v(r) == dec_tex(entries_view(es@)),
{
    let ghost m = entries_view(es@);
    let mut i: usize = 0;
    while i < es.len()
        invariant
            entry_keys_distinct(es@),
            m == entries_view(es@),
            0 <= i <= es@.len(),
            forall|j: int| 0 <= j < i ==> png_keys().contains(#[trigger] es@[j].0@),
        decreases es@.len() - i,
    {
        let k = &es[i].0;
        if !(key_is(k, "front") || key_is(k, "foil") || key_is(k, "etch")) {
            proof {
                lemma_entries_view_index(es@, i as int);
            }
            return Err(DecodeError::at_key(ErrKind::UnknownField, k));
        }
        i = i + 1;
    }
    proof {
        assert forall|k2: Seq<char>| m.dom().contains(k2) implies png_keys().contains(k2) by {
            lemma_entries_view_dom(es@, k2);
        }
    }
    let front = match get_req_url(es, "front") {
        Ok(v) => v,
        Err(e) => {
            return Err(e);
        },
    };
    let foil = match get_opt_url(es, "foil") {
        Ok(v) => v,
        Err(e) => {
            return Err(e);
        },
    };
    let etch = match get_opt_url(es, "etch") {
        Ok(v) => v,
        Err(e) => {
            return Err(e);
        },
    };
    Ok(ImageTex { front, foil, etch })
}

/// The per-provider image bundle.
pub open spec fn tcgl_images_keys() -> Set<Seq<char>> {
    set!["jpg"@, "png"@, "tex"@]
}

pub open spec fn dec_tcgl_images(m: Map<Seq<char>, DocV>) -> Result<TcglImagesV, ErrKind> {
    if !m.dom().subset_of(tcgl_images_keys()) {
        Err(ErrKind::UnknownField)
    } else {
        let f_jpg = match fld(m, "jpg"@) {
            None => Err(ErrKind::MissingField),
            Some(DocV::Object(m2)) => dec_jpg(m2),
            Some(_) => Err(ErrKind::TypeMismatch),
        };
        let f_png = match fld(m, "png"@) {
            None => Err(ErrKind::MissingField),
            Some(DocV::Object(m2)) => dec_png(m2),
            Some(_) => Err(ErrKind::TypeMismatch),
        };
        let f_tex = match fld(m, "tex"@) {
            None => Err(ErrKind::MissingField),
            Some(DocV::Object(m2)) => dec_tex(m2),
            Some(_) => Err(ErrKind::TypeMismatch),
        };
        if f_jpg is Err {
            Err(the_err(f_jpg))
        } else if f_png is Err {
            Err(the_err(f_png))
        } else if f_tex is Err {
            Err(the_err(f_tex))
        } else {
            Ok(TcglImagesV { jpg: the_ok(f_jpg), png: the_ok(f_png), tex: the_ok(f_tex) })
        }
    }
}

pub fn decode_tcgl_images(es: &Vec<(String, Doc)>) -> (r: Result<TcglImages, DecodeError>)
    requires
        entries_wf(es@),
    ensures
        outcome_v(r) == dec_tcgl_images(entries_view(es@)),
{
    let ghost m = entries_view(es@);
    let mut i: usize = 0;
    while i < es.len()
        invariant
            entries_wf(es@),
            m == entries_view(es@),
            0 <= i <= es@.len(),
            forall|j: int| 0 <= j < i ==> tcgl_images_keys().contains(#[trigger] es@[j].0@),
        decreases es@.len() - i,
    {
        let k = &es[i].0;
        if !(key_is(k, "jpg") || key_is(k, "png") || key_is(k, "tex")) {
            proof {
                lemma_entries_view_index(es@, i as int);
            }
            return Err(DecodeError::at_key(ErrKind::UnknownField, k));
        }
        i = i + 1;
    }
    proof {
        assert forall|k2: Seq<char>| m.dom().contains(k2) implies tcgl_images_keys().contains(
            k2,
        ) by {
            lemma_entries_view_dom(es@, k2);
        }
    }
    let jpg = match obj_get(es, "jpg") {
        None => {
            return Err(DecodeError::at_name(ErrKind::MissingField, "jpg"));
        },
        Some(d) => {
            proof {
                let i2 = choose|i2: int|
                    0 <= i2 < es@.len() && #[trigger] es@[i2].0@ == "jpg"@ && es@[i2].1 == *d;
                assert(es@[i2].1.keys_unique());
            }
            match d {
                Doc::Object(es2) => match decode_jpg(es2) {
                    Ok(v) => v,
                    Err(e) => {
                        return Err(e.under_name("jpg"));
                    },
                },
                _ => {
                    return Err(DecodeError::at_name(ErrKind::TypeMismatch, "jpg"));
                },
            }
        },
    };
    let png = match obj_get(es, "png") {
        None => {
            return Err(DecodeError::at_name(ErrKind::MissingField, "png"));
        },
        Some(d) => {
            proof {
                let i2 = choose|i2: int|
                    0 <= i2 < es@.len() && #[trigger] es@[i2].0@ == "png"@ && es@[i2].1 == *d;
                assert(es@[i2].1.keys_unique());
            }
            match d {
                Doc::Object(es2) => match decode_png(es2) {
                    Ok(v) => v,
                    Err(e) => {
                        return Err(e.under_name("png"));
                    },
                },
                _ => {
                    return Err(DecodeError::at_name(ErrKind::TypeMismatch, "png"));
                },
            }
        },
    };
    let tex = match obj_get(es, "tex") {
        None => {
            return Err(DecodeError::at_name(ErrKind::MissingField, "tex"));
        },
        Some(d) => {
            proof {
                let i2 = choose|i2: int|
                    0 <= i2 < es@.len() && #[trigger] es@[i2].0@ == "tex"@ && es@[i2].1 == *d;
                assert(es@[i2].1.keys_unique());
            }
            match d {
                Doc::Object(es2) => match decode_tex(es2) {
                    Ok(v) => v,
                    Err(e) => {
                        return Err(e.under_name("tex"));
                    },
                },
                _ => {
                    return Err(DecodeError::at_name(ErrKind::TypeMismatch, "tex"));
                },
            }
        },
    };
    Ok(TcglImages { jpg, png, tex })
}

/// The image-reference bundle.
pub open spec fn images_keys() -> Set<Seq<char>> {
    set!["tcgl"@]
}

pub open spec fn dec_images(m: Map<Seq<char>, DocV>) -> Result<ImagesV, ErrKind> {
    if !m.dom().subset_of(images_keys()) {
        Err(ErrKind::UnknownField)
    } else {
        match fld(m, "tcgl"@) {
            None => Err(ErrKind::MissingField),
            Some(DocV::Object(m2)) => match dec_tcgl_images(m2) {
                Ok(t) => Ok(ImagesV { tcgl: t }),
                Err(e) => Err(e),
            },
            Some(_) => Err(ErrKind::TypeMismatch),
        }
    }
}

pub fn decode_images(es: &Vec<(String, Doc)>) -> (r: Result<Images, DecodeError>)
    requires
        entries_wf(es@),
    ensures
        outcome_v(r) == dec_images(entries_view(es@)),
{
    let ghost m = entries_view(es@);
    let mut i: usize = 0;
    while i < es.len()
        invariant
            entries_wf(es@),
            m == entries_view(es@),
            0 <= i <= es@.len(),
            forall|j: int| 0 <= j < i ==> images_keys().contains(#[trigger] es@[j].0@),
        decreases es@.len() - i,
    {
        let k = &es[i].0;
        if !(key_is(k, "tcgl")) {
            proof {
                lemma_entries_view_index(es@, i as int);
            }
            return Err(DecodeError::at_key(ErrKind::UnknownField, k));
        }
        i = i + 1;
    }
    proof {
        assert forall|k2: Seq<char>| m.dom().contains(k2) implies images_keys().contains(k2) by {
            lemma_entries_view_dom(es@, k2);
        }
    }
    match obj_get(es, "tcgl") {
        None => Err(DecodeError::at_name(ErrKind::MissingField, "tcgl")),
        Some(d) => {
            proof {
                let i2 = choose|i2: int|
                    0 <= i2 < es@.len() && #[trigger] es@[i2].0@ == "tcgl"@ && es@[i2].1 == *d;
                assert(es@[i2].1.keys_unique());
            }
            match d {
                Doc::Object(es2) => match decode_tcgl_images(es2) {
                    Ok(t) => Ok(Images { tcgl: t }),
                    Err(e) => Err(e.under_name("tcgl")),
                },
                _ => Err(DecodeError::at_name(ErrKind::TypeMismatch, "tcgl")),
            }
        },
    }
}

/// One element of an attack-cost list.
pub open spec fn dec_cost_elem(d: DocV) -> Result<AttackCost, ErrKind> {
    match d {
        DocV::Text(s) => match AttackCost::of_wire(s) {
            Some(t) => Ok(t),
            None => Err(ErrKind::UnknownVariant),
        },
        _ => Err(ErrKind::TypeMismatch),
    }
}

/// An attack-cost list.
pub open spec fn dec_cost_list(s: Seq<DocV>) -> Result<Seq<AttackCost>, ErrKind>
    decreases s.len(),
{
    if s.len() == 0 {
        Ok(Seq::empty())
    } else {
        match dec_cost_elem(s[0]) {
            Err(e) => Err(e),
            Ok(t) => match dec_cost_list(s.skip(1)) {
                Err(e) => Err(e),
                Ok(ts) => Ok(seq![t] + ts),
            },
        }
    }
}

pub fn decode_cost_list(xs: &Vec<Doc>) -> (r: Result<Vec<AttackCost>, DecodeError>)
    ensures
        outcome_v(r) == dec_cost_list(list_view(xs@)),
{
    let ghost lv = list_view(xs@);
    proof {
        lemma_list_view_len(xs@);
        assert(lv.skip(0) =~= lv);
        let r0 = dec_cost_list(lv);
        if r0 is Ok {
            assert(Seq::<AttackCost>::empty() + the_ok(r0) =~= the_ok(r0));
        }
    }
    let mut out: Vec<AttackCost> = Vec::new();
    let mut i: usize = 0;
    while i < xs.len()
        invariant
            0 <= i <= xs@.len(),
            lv == list_view(xs@),
            lv.len() == xs@.len(),
            out@.len() == i,
            dec_cost_list(lv) == (match dec_cost_list(lv.skip(i as int)) {
                Ok(ts) => Ok::<Seq<AttackCost>, ErrKind>(out@ + ts),
                Err(e) => Err(e),
            }),
        decreases xs@.len() - i,
    {
        proof {
            lemma_list_view_index(xs@, i as int);
            assert(lv.skip(i as int)[0] == lv[i as int]);
        }
        let t = match &xs[i] {
            Doc::Text(s) => match AttackCost::parse(s.as_str()) {
                Some(t) => t,
                None => {
                    return Err(
                        DecodeError::here(ErrKind::UnknownVariant).under_index(i),
                    );
                },
            },
            _ => {
                return Err(DecodeError::here(ErrKind::TypeMismatch).under_index(i));
            },
        };
        proof {
            assert(dec_cost_elem(lv[i as int]) == Ok::<AttackCost, ErrKind>(t));
            assert(lv.skip(i as int).skip(1) =~= lv.skip(i as int + 1));
            let r1 = dec_cost_list(lv.skip(i as int + 1));
            if r1 is Ok {
                assert(out@ + (seq![t] + the_ok(r1)) =~= out@.push(t) + the_ok(r1));
            }
        }
        out.push(t);
        i = i + 1;
    }
    proof {
        assert(lv.skip(i as int) =~= Seq::empty());
        assert(out@ + Seq::<AttackCost>::empty() =~= out@);
    }
    Ok(out)
}

/// The attack block.
pub open spec fn attack_keys() -> Set<Seq<char>> {
    set!["kind"@, "name"@, "text"@, "cost"@, "damage"@]
}

pub open spec fn dec_attack(m: Map<Seq<char>, DocV>) -> Result<AttackV, ErrKind> {
    if !m.dom().subset_of(attack_keys()) {
        Err(ErrKind::UnknownField)
    } else {
        let f_name = d_req_str(m, "name"@);
        let f_text = d_opt_str(m, "text"@);
        let f_cost = match fld(m, "cost"@) {
            None => Err(ErrKind::MissingField),
            Some(DocV::List(s)) => dec_cost_list(s),
            Some(_) => Err(ErrKind::TypeMismatch),
        };
        let f_damage = d_opt_damage(m, "damage"@);
        if f_name is Err {
            Err(the_err(f_name))
        } else if f_text is Err {
            Err(the_err(f_text))
        } else if f_cost is Err {
            Err(the_err(f_cost))
        } else if f_damage is Err {
            Err(the_err(f_damage))
        } else {
            Ok(
                AttackV {
                    name: the_ok(f_name),
                    text: the_ok(f_text),
                    cost: the_ok(f_cost),
                    damage: the_ok(f_damage),
                },
            )
        }
    }
}

pub fn decode_attack(es: &Vec<(String, Doc)>) -> (r: Result<Attack, DecodeError>)
    requires
        entries_wf(es@),
    ensures
        outcome_v(r) == dec_attack(entries_view(es@)),
{
    let ghost m = entries_view(es@);
    let mut i: usize = 0;
    while i < es.len()
        invariant
            entries_wf(es@),
            m == entries_view(es@),
            0 <= i <= es@.len(),
            forall|j: int| 0 <= j < i ==> attack_keys().contains(#[trigger] es@[j].0@),
        decreases es@.len() - i,
    {
        let k = &es[i].0;
        if !(key_is(k, "kind") || key_is(k, "name") || key_is(k, "text") || key_is(k, "cost")
            || key_is(k, "damage")) {
            proof {
                lemma_entries_view_index(es@, i as int);
            }
            return Err(DecodeError::at_key(ErrKind::UnknownField, k));
        }
        i = i + 1;
    }
    proof {
        assert forall|k2: Seq<char>| m.dom().contains(k2) implies attack_keys().contains(k2) by {
            lemma_entries_view_dom(es@, k2);
        }
    }
    let name = match get_req_str(es, "name") {
        Ok(v) => v,
        Err(e) => {
            return Err(e);
        },
    };
    let text = match get_opt_str(es, "text") {
        Ok(v) => v,
        Err(e) => {
            return Err(e);
        },
    };
    let cost = match obj_get(es, "cost") {
        None => {
            return Err(DecodeError::at_name(ErrKind::MissingField, "cost"));
        },
        Some(d) => match d {
            Doc::List(xs) => match decode_cost_list(xs) {
                Ok(v) => v,
                Err(e) => {
                    return Err(e.under_name("cost"));
                },
            },
            _ => {
                return Err(DecodeError::at_name(ErrKind::TypeMismatch, "cost"));
            },
        },
    };
    let damage = match get_opt_damage(es, "damage") {
        Ok(v) => v,
        Err(e) => {
            return Err(e);
        },
    };
    Ok(Attack { name, text, cost, damage })
}

/// The two-field blocks: ability, rule box, effect.
pub open spec fn named_text_keys() -> Set<Seq<char>> {
    set!["kind"@, "name"@, "text"@]
}

pub open spec fn dec_ability(m: Map<Seq<char>, DocV>) -> Result<AbilityV, ErrKind> {
    if !m.dom().subset_of(named_text_keys()) {
        Err(ErrKind::UnknownField)
    } else {
        let f_name = d_req_str(m, "name"@);
        let f_text = d_req_str(m, "text"@);
        if f_name is Err {
            Err(the_err(f_name))
        } else if f_text is Err {
            Err(the_err(f_text))
        } else {
            Ok(AbilityV { name: the_ok(f_name), text: the_ok(f_text) })
        }
    }
}

pub open spec fn dec_rule_box(m: Map<Seq<char>, DocV>) -> Result<RuleBoxV, ErrKind> {
    if !m.dom().subset_of(named_text_keys()) {
        Err(ErrKind::UnknownField)
    } else {
        let f_name = d_req_str(m, "name"@);
        let f_text = d_req_str(m, "text"@);
        if f_name is Err {
            Err(the_err(f_name))
        } else if f_text is Err {
            Err(the_err(f_text))
        } else {
            Ok(RuleBoxV { name: the_ok(f_name), text: the_ok(f_text) })
        }
    }
}

pub open spec fn dec_effect(m: Map<Seq<char>, DocV>) -> Result<EffectV, ErrKind> {
    if !m.dom().subset_of(named_text_keys()) {
        Err(ErrKind::UnknownField)
    } else {
        let f_name = d_req_str(m, "name"@);
        let f_text = d_req_str(m, "text"@);
        if f_name is Err {
            Err(the_err(f_name))
        } else if f_text is Err {
            Err(the_err(f_text))
        } else {
            Ok(EffectV { name: the_ok(f_name), text: the_ok(f_text) })
        }
    }
}

/// The free-form text box: optional name, required text.
pub open spec fn dec_text_box(m: Map<Seq<char>, DocV>) -> Result<TextBoxV, ErrKind> {
    if !m.dom().subset_of(named_text_keys()) {
        Err(ErrKind::UnknownField)
    } else {
        let f_name = d_opt_str(m, "name"@);
        let f_text = d_req_str(m, "text"@);
        if f_name is Err {
            Err(the_err(f_name))
        } else if f_text is Err {
            Err(the_err(f_text))
        } else {
            Ok(TextBoxV { name: the_ok(f_name), text: the_ok(f_text) })
        }
    }
}

/// The reminder block: text only.
pub open spec fn reminder_keys() -> Set<Seq<char>> {
    set!["kind"@, "text"@]
}

pub open spec fn dec_reminder(m: Map<Seq<char>, DocV>) -> Result<ReminderV, ErrKind> {
    if !m.dom().subset_of(reminder_keys()) {
        Err(ErrKind::UnknownField)
    } else {
        match d_req_str(m, "text"@) {
            Err(e) => Err(e),
            Ok(s) => Ok(ReminderV { text: s }),
        }
    }
}

/// A rule-text block, dispatched on its kind tag; the tag is read first,
/// and each variant's shape then applies its own field rules.
#[verifier::opaque]
pub open spec fn dec_text(d: DocV) -> Result<TextV, ErrKind> {
    match d {
        DocV::Object(m) => match d_req_str(m, "kind"@) {
            Err(e) => Err(e),
            Ok(tag) => if tag == "ATTACK"@ {
                match dec_attack(m) {
                    Ok(x) => Ok(TextV::Attack(x)),
                    Err(e) => Err(e),
                }
            } else if tag == "ABILITY"@ {
                match dec_ability(m) {
                    Ok(x) => Ok(TextV::Ability(x)),
                    Err(e) => Err(e),
                }
            } else if tag == "RULE_BOX"@ {
                match dec_rule_box(m) {
                    Ok(x) => Ok(TextV::RuleBox(x)),
                    Err(e) => Err(e),
                }
            } else if tag == "EFFECT"@ {
                match dec_effect(m) {
                    Ok(x) => Ok(TextV::Effect(x)),
                    Err(e) => Err(e),
                }
            } else if tag == "TEXT_BOX"@ {
                match dec_text_box(m) {
                    Ok(x) => Ok(TextV::TextBox(x)),
                    Err(e) => Err(e),
                }
            } else if tag == "REMINDER"@ {
                match dec_reminder(m) {
                    Ok(x) => Ok(TextV::Reminder(x)),
                    Err(e) => Err(e),
                }
            } else {
                Err(ErrKind::UnknownVariant)
            },
        },
        _ => Err(ErrKind::TypeMismatch),
    }
}

/// Scans one block's entries against an allowed key set given as the
/// disjunction in the caller; factored per shape below.
fn scan_named_text_keys(es: &Vec<(String, Doc)>) -> (r: Option<DecodeError>)
    requires
        entry_keys_distinct(es@),
    ensures
        match r {
            Some(e) => e.kind == ErrKind::UnknownField && !entries_view(es@).dom().subset_of(
                named_text_keys(),
            ),
            None => entries_view(es@).dom().subset_of(named_text_keys()),
        },
{
    let ghost m = entries_view(es@);
    let mut i: usize = 0;
    while i < es.len()
        invariant
            entry_keys_distinct(es@),
            m == entries_view(es@),
            0 <= i <= es@.len(),
            forall|j: int| 0 <= j < i ==> named_text_keys().contains(#[trigger] es@[j].0@),
        decreases es@.len() - i,
    {
        let k = &es[i].0;
        if !(key_is(k, "kind") || key_is(k, "name") || key_is(k, "text")) {
            proof {
                lemma_entries_view_index(es@, i as int);
            }
            return Some(DecodeError::at_key(ErrKind::UnknownField, k));
        }
        i = i + 1;
    }
    proof {
        assert forall|k2: Seq<char>| m.dom().contains(k2) implies named_text_keys().contains(
            k2,
        ) by {
            lemma_entries_view_dom(es@, k2);
        }
    }
    None
}

pub fn decode_ability(es: &Vec<(String, Doc)>) -> (r: Result<Ability, DecodeError>)
    requires
        entry_keys_distinct(es@),
    ensures
        outcome_v(r) == dec_ability(entries_view(es@)),
{
    match scan_named_text_keys(es) {
        Some(e) => {
            return Err(e);
        },
        None => {},
    }
    let name = match get_req_str(es, "name") {
        Ok(v) => v,
        Err(e) => {
            return Err(e);
        },
    };
    let text = match get_req_str(es, "text") {
        Ok(v) => v,
        Err(e) => {
            return Err(e);
        },
    };
    Ok(Ability { name, text })
}

pub fn decode_rule_box(es: &Vec<(String, Doc)>) -> (r: Result<RuleBox, DecodeError>)
    requires
        entry_keys_distinct(es@),
    ensures
        outcome_v(r) == dec_rule_box(entries_view(es@)),
{
    match scan_named_text_keys(es) {
        Some(e) => {
            return Err(e);
        },
        None => {},
    }
    let name = match get_req_str(es, "name") {
        Ok(v) => v,
        Err(e) => {
            return Err(e);
        },
    };
    let text = match get_req_str(es, "text") {
        Ok(v) => v,
        Err(e) => {
            return Err(e);
        },
    };
    Ok(RuleBox { name, text })
}

pub fn decode_effect(es: &Vec<(String, Doc)>) -> (r: Result<Effect, DecodeError>)
    requires
        entry_keys_distinct(es@),
    ensures
        outcome_v(r) == dec_effect(entries_view(es@)),
{
    match scan_named_text_keys(es) {
        Some(e) => {
            return Err(e);
        },
        None => {},
    }
    let name = match get_req_str(es, "name") {
        Ok(v) => v,
        Err(e) => {
            return Err(e);
        },
    };
    let text = match get_req_str(es, "text") {
        Ok(v) => v,
        Err(e) => {
            return Err(e);
        },
    };
    Ok(Effect { name, text })
}

pub fn decode_text_box(es: &Vec<(String, Doc)>) -> (r: Result<TextBox, DecodeError>)
    requires
        entry_keys_distinct(es@),
    ensures
        outcome_v(r) == dec_text_box(entries_view(es@)),
{
    match scan_named_text_keys(es) {
        Some(e) => {
            return Err(e);
        },
        None => {},
    }
    let name = match get_opt_str(es, "name") {
        Ok(v) => v,
        Err(e) => {
            return Err(e);
        },
    };
    let text = match get_req_str(es, "text") {
        Ok(v) => v,
        Err(e) => {
            return Err(e);
        },
    };
    Ok(TextBox { name, text })
}

pub fn decode_reminder(es: &Vec<(String, Doc)>) -> (r: Result<Reminder, DecodeError>)
    requires
        entry_keys_distinct(es@),
    ensures
        outcome_v(r) == dec_reminder(entries_view(es@)),
{
    let ghost m = entries_view(es@);
    let mut i: usize = 0;
    while i < es.len()
        invariant
            entry_keys_distinct(es@),
            m == entries_view(es@),
            0 <= i <= es@.len(),
            forall|j: int| 0 <= j < i ==> reminder_keys().contains(#[trigger] es@[j].0@),
        decreases es@.len() - i,
    {
        let k = &es[i].0;
        if !(key_is(k, "kind") || key_is(k, "text")) {
            proof {
                lemma_entries_view_index(es@, i as int);
            }
            return Err(DecodeError::at_key(ErrKind::UnknownField, k));
        }
        i = i + 1;
    }
    proof {
        assert forall|k2: Seq<char>| m.dom().contains(k2) implies reminder_keys().contains(k2) by {
            lemma_entries_view_dom(es@, k2);
        }
    }
    match get_req_str(es, "text") {
        Ok(text) => Ok(Reminder { text }),
        Err(e) => Err(e),
    }
}

pub fn decode_text(d: &Doc) -> (r: Result<Text, DecodeError>)
    requires
        d.keys_unique(),
    ensures
        outcome_v(r) == dec_text(d@),
{
    reveal(dec_text);
    match d {
        Doc::Object(es) => {
            let tag = match get_req_str(es, "kind") {
                Ok(v) => v,
                Err(e) => {
                    return Err(e);
                },
            };
            if str_eq(tag.as_str(), "ATTACK") {
                match decode_attack(es) {
                    Ok(x) => Ok(Text::Attack(x)),
                    Err(e) => Err(e),
                }
            } else if str_eq(tag.as_str(), "ABILITY") {
                match decode_ability(es) {
                    Ok(x) => Ok(Text::Ability(x)),
                    Err(e) => Err(e),
                }
            } else if str_eq(tag.as_str(), "RULE_BOX") {
                match decode_rule_box(es) {
                    Ok(x) => Ok(Text::RuleBox(x)),
                    Err(e) => Err(e),
                }
            } else if str_eq(tag.as_str(), "EFFECT") {
                match decode_effect(es) {
                    Ok(x) => Ok(Text::Effect(x)),
                    Err(e) => Err(e),
                }
            } else if str_eq(tag.as_str(), "TEXT_BOX") {
                match decode_text_box(es) {
                    Ok(x) => Ok(Text::TextBox(x)),
                    Err(e) => Err(e),
                }
            } else if str_eq(tag.as_str(), "REMINDER") {
                match decode_reminder(es) {
                    Ok(x) => Ok(Text::Reminder(x)),
                    Err(e) => Err(e),
                }
            } else {
                Err(DecodeError::at_name(ErrKind::UnknownVariant, "kind"))
            }
        },
        _ => Err(DecodeError::here(ErrKind::TypeMismatch)),
    }
}

/// A list of rule-text blocks.
pub open spec fn dec_text_list(s: Seq<DocV>) -> Result<Seq<TextV>, ErrKind>
    decreases s.len(),
{
    if s.len() == 0 {
        Ok(Seq::empty())
    } else {
        match dec_text(s[0]) {
            Err(e) => Err(e),
            Ok(t) => match dec_text_list(s.skip(1)) {
                Err(e) => Err(e),
                Ok(ts) => Ok(seq![t] + ts),
            },
        }
    }
}

/// The model outcome of a rule-text list decode result.
pub open spec fn outcome_texts(r: Result<Vec<Text>, DecodeError>) -> Result<Seq<TextV>, ErrKind> {
    match r {
        Ok(v) => Ok(texts_view(v@)),
        Err(e) => Err(e.kind),
    }
}

pub fn decode_text_list(xs: &Vec<Doc>) -> (r: Result<Vec<Text>, DecodeError>)
    requires
        forall|i: int| 0 <= i < xs@.len() ==> (#[trigger] xs@[i]).keys_unique(),
    ensures
        outcome_texts(r) == dec_text_list(list_view(xs@)),
{
    let ghost lv = list_view(xs@);
    proof {
        lemma_list_view_len(xs@);
        assert(lv.skip(0) =~= lv);
        let r0 = dec_text_list(lv);
        if r0 is Ok {
            assert(texts_view(Seq::<Text>::empty()) + the_ok(r0) =~= the_ok(r0));
        }
    }
    let mut out: Vec<Text> = Vec::new();
    let mut i: usize = 0;
    while i < xs.len()
        invariant
            forall|j: int| 0 <= j < xs@.len() ==> (#[trigger] xs@[j]).keys_unique(),
            0 <= i <= xs@.len(),
            lv == list_view(xs@),
            lv.len() == xs@.len(),
            out@.len() == i,
            dec_text_list(lv) == (match dec_text_list(lv.skip(i as int)) {
                Ok(ts) => Ok::<Seq<TextV>, ErrKind>(texts_view(out@) + ts),
                Err(e) => Err(e),
            }),
        decreases xs@.len() - i,
    {
        proof {
            lemma_list_view_index(xs@, i as int);
            assert(lv.skip(i as int)[0] == lv[i as int]);
        }
        let t: Text = match decode_text(&xs[i]) {
            Ok(t) => t,
            Err(e) => {
                return Err(e.under_index(i));
            },
        };
        proof {
            assert(dec_text(lv[i as int]) == Ok::<TextV, ErrKind>(t@));
            assert(lv.skip(i as int).skip(1) =~= lv.skip(i as int + 1));
            let r1 = dec_text_list(lv.skip(i as int + 1));
            if r1 is Ok {
                assert(texts_view(out@) + (seq![t@] + the_ok(r1)) =~= texts_view(out@.push(t))
                    + the_ok(r1));
            }
        }
        out.push(t);
        i = i + 1;
    }
    proof {
        assert(lv.skip(i as int) =~= Seq::empty());
        assert(texts_view(out@) + Seq::<TextV>::empty() =~= texts_view(out@));
    }
    Ok(out)
}

/// A required rule-text list field.
pub open spec fn d_req_texts(m: Map<Seq<char>, DocV>, k: Seq<char>) -> Result<Seq<TextV>, ErrKind> {
    match fld(m, k) {
        None => Err(ErrKind::MissingField),
        Some(DocV::List(s)) => dec_text_list(s),
        Some(_) => Err(ErrKind::TypeMismatch),
    }
}

pub fn get_req_texts(es: &Vec<(String, Doc)>, k: &str) -> (r: Result<Vec<Text>, DecodeError>)
    requires
        entries_wf(es@),
    ensures
        match r {
            Ok(v) => d_req_texts(entries_view(es@), k@) == Ok::<Seq<TextV>, ErrKind>(
                texts_view(v@),
            ),
            Err(e) => d_req_texts(entries_view(es@), k@) == Err::<Seq<TextV>, ErrKind>(e.kind),
        },
{
    match obj_get(es, k) {
        None => Err(DecodeError::at_name(ErrKind::MissingField, k)),
        Some(d) => {
            proof {
                let i2 = choose|i2: int|
                    0 <= i2 < es@.len() && #[trigger] es@[i2].0@ == k@ && es@[i2].1 == *d;
                assert(es@[i2].1.keys_unique());
            }
            match d {
                Doc::List(xs) => match decode_text_list(xs) {
                    Ok(v) => Ok(v),
                    Err(e) => Err(e.under_name(k)),
                },
                _ => Err(DecodeError::at_name(ErrKind::TypeMismatch, k)),
            }
        },
    }
}

/// The extension-block field.
pub open spec fn d_req_ext(m: Map<Seq<char>, DocV>, k: Seq<char>) -> Result<ExtV, ErrKind> {
    match fld(m, k) {
        None => Err(ErrKind::MissingField),
        Some(DocV::Object(m2)) => dec_ext(m2),
        Some(_) => Err(ErrKind::TypeMismatch),
    }
}

pub fn get_req_ext(es: &Vec<(String, Doc)>, k: &str) -> (r: Result<Ext, DecodeError>)
    requires
        entries_wf(es@),
    ensures
        outcome_v(r) == d_req_ext(entries_view(es@), k@),
{
    match obj_get(es, k) {
        None => Err(DecodeError::at_name(ErrKind::MissingField, k)),
        Some(d) => {
            proof {
                let i2 = choose|i2: int|
                    0 <= i2 < es@.len() && #[trigger] es@[i2].0@ == k@ && es@[i2].1 == *d;
                assert(es@[i2].1.keys_unique());
            }
            match d {
                Doc::Object(es2) => match decode_ext(es2) {
                    Ok(v) => Ok(v),
                    Err(e) => Err(e.under_name(k)),
                },
                _ => Err(DecodeError::at_name(ErrKind::TypeMismatch, k)),
            }
        },
    }
}

/// The image-bundle field.
pub open spec fn d_req_images(m: Map<Seq<char>, DocV>, k: Seq<char>) -> Result<ImagesV, ErrKind> {
    match fld(m, k) {
        None => Err(ErrKind::MissingField),
        Some(DocV::Object(m2)) => dec_images(m2),
        Some(_) => Err(ErrKind::TypeMismatch),
    }
}

pub fn get_req_images(es: &Vec<(String, Doc)>, k: &str) -> (r: Result<Images, DecodeError>)
    requires
        entries_wf(es@),
    ensures
        outcome_v(r) == d_req_images(entries_view(es@), k@),
{
    match obj_get(es, k) {
        None => Err(DecodeError::at_name(ErrKind::MissingField, k)),
        Some(d) => {
            proof {
                let i2 = choose|i2: int|
                    0 <= i2 < es@.len() && #[trigger] es@[i2].0@ == k@ && es@[i2].1 == *d;
                assert(es@[i2].1.keys_unique());
            }
            match d {
                Doc::Object(es2) => match decode_images(es2) {
                    Ok(v) => Ok(v),
                    Err(e) => Err(e.under_name(k)),
                },
                _ => Err(DecodeError::at_name(ErrKind::TypeMismatch, k)),
            }
        },
    }
}

} // verus!
