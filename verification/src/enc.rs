//! Encoders: the structural inverse of decoding. The discriminator is
//! written first, fields follow in declared order, and an optional field
//! that is not set is omitted entirely, never written as null.

use vstd::prelude::*;
use crate::datetime::dt_text;
use crate::datetime::format_datetime;
use crate::doc::Doc;
use crate::doc::DocV;
use crate::doc::doc_view;
use crate::doc::entries_view;
use crate::doc::list_view;
use crate::hex_id::encode_u32;
use crate::hex_id::hex_id_text;
use crate::tokens::AttackCost;
use crate::tokens::CardTag;
use crate::tokens::EnergyType;
use crate::types::Ability;
use crate::types::AbilityV;
use crate::types::Artists;
use crate::types::ArtistsV;
use crate::types::Attack;
use crate::types::AttackV;
use crate::types::CollectorNumber;
use crate::types::CollectorNumberV;
use crate::types::Copyright;
use crate::types::CopyrightV;
use crate::types::Damage;
use crate::types::Effect;
use crate::types::EffectV;
use crate::types::Ext;
use crate::types::ExtV;
use crate::types::Foil;
use crate::types::ImageJpg;
use crate::types::ImageJpgV;
use crate::types::ImagePng;
use crate::types::ImagePngV;
use crate::types::ImageTex;
use crate::types::ImageTexV;
use crate::types::Images;
use crate::types::ImagesV;
use crate::types::Rarity;
use crate::types::Reminder;
use crate::types::ReminderV;
use crate::types::Resistance;
use crate::types::ResistanceV;
use crate::types::RuleBox;
use crate::types::RuleBoxV;
use crate::types::Tcgl;
use crate::types::TcglImages;
use crate::types::TcglImagesV;
use crate::types::TcglV;
use crate::types::Text;
use crate::types::TextBox;
use crate::types::TextBoxV;
use crate::types::TextV;
use crate::types::Weakness;
use crate::types::WeaknessV;

verus! {

broadcast use {
    vstd::seq::group_seq_axioms,
    vstd::map::group_map_axioms,
    vstd::set::group_set_axioms,
    vstd::std_specs::vec::group_vec_axioms,
    crate::doc::lemma_entries_view_push,
    crate::doc::lemma_list_view_push,
};

/// The canonical document of a foil treatment.
pub open spec fn enc_foil(f: Foil) -> DocV {
    DocV::Object(
        Map::empty().insert("type"@, DocV::Text(f.ty.wire_v())).insert(
            "mask"@,
            DocV::Text(f.mask.wire_v()),
        ),
    )
}

pub fn encode_foil(f: &Foil) -> (d: Doc)
    ensures
        d@ == enc_foil(*f),
{
    let mut es: Vec<(String, Doc)> = Vec::new();
    let ghost snap1 = es@;
    es.push(("type".to_owned(), Doc::Text(f.ty.wire())));
    proof {
        crate::doc::lemma_entries_view_push(snap1, es@.last());
        assert(es@ =~= snap1.push(es@.last()));
    }
    let ghost snap2 = es@;
    es.push(("mask".to_owned(), Doc::Text(f.mask.wire())));
    proof {
        crate::doc::lemma_entries_view_push(snap2, es@.last());
        assert(es@ =~= snap2.push(es@.last()));
    }
    Doc::Object(es)
}

/// The canonical document of a rarity.
pub open spec fn enc_rarity(x: Rarity) -> DocV {
    DocV::Object(
        Map::empty().insert("designation"@, DocV::Text(x.designation.wire_v())).insert(
            "icon"@,
            DocV::Text(x.icon.wire_v()),
        ),
    )
}

pub fn encode_rarity(x: &Rarity) -> (d: Doc)
    ensures
        d@ == enc_rarity(*x),
{
    let mut es: Vec<(String, Doc)> = Vec::new();
    let ghost snap3 = es@;
    es.push(("designation".to_owned(), Doc::Text(x.designation.wire())));
    proof {
        crate::doc::lemma_entries_view_push(snap3, es@.last());
        assert(es@ =~= snap3.push(es@.last()));
    }
    let ghost snap4 = es@;
    es.push(("icon".to_owned(), Doc::Text(x.icon.wire())));
    proof {
        crate::doc::lemma_entries_view_push(snap4, es@.last());
        assert(es@ =~= snap4.push(es@.last()));
    }
    Doc::Object(es)
}

/// The canonical document of a copyright line.
pub open spec fn enc_copyright(x: CopyrightV) -> DocV {
    DocV::Object(
        Map::empty().insert("text"@, DocV::Text(x.text)).insert(
            "year"@,
            DocV::Int(x.year as int),
        ),
    )
}

pub fn encode_copyright(x: &Copyright) -> (d: Doc)
    ensures
        d@ == enc_copyright(x@),
{
    let mut es: Vec<(String, Doc)> = Vec::new();
    let ghost snap5 = es@;
    es.push(("text".to_owned(), Doc::Text(x.text.clone())));
    proof {
        crate::doc::lemma_entries_view_push(snap5, es@.last());
        assert(es@ =~= snap5.push(es@.last()));
    }
    let ghost snap6 = es@;
    es.push(("year".to_owned(), Doc::Int(x.year as i64)));
    proof {
        crate::doc::lemma_entries_view_push(snap6, es@.last());
        assert(es@ =~= snap6.push(es@.last()));
    }
    Doc::Object(es)
}

/// The canonical document of an artist credit.
pub open spec fn enc_str_list(ss: Seq<Seq<char>>) -> Seq<DocV> {
    ss.map_values(|s: Seq<char>| DocV::Text(s))
}

pub fn encode_str_list(xs: &Vec<String>) -> (d: Doc)
    ensures
        d@ == DocV::List(enc_str_list(xs@.map_values(|s: String| s@))),
{
    let mut out: Vec<Doc> = Vec::new();
    let mut i: usize = 0;
    while i < xs.len()
        invariant
            0 <= i <= xs@.len(),
            list_view(out@) =~= enc_str_list(xs@.take(i as int).map_values(|s: String| s@)),
        decreases xs@.len() - i,
    {
        out.push(Doc::Text(xs[i].clone()));
        proof {
            assert(xs@.take(i + 1).map_values(|s: String| s@) =~= xs@.take(i as int).map_values(
                |s: String| s@,
            ).push(xs@[i as int]@));
            assert(list_view(out@) =~= enc_str_list(xs@.take(i + 1).map_values(|s: String| s@)));
        }
        i = i + 1;
    }
    proof {
        assert(xs@.take(xs@.len() as int) =~= xs@);
    }
    Doc::List(out)
}

pub open spec fn enc_artists(x: ArtistsV) -> DocV {
    DocV::Object(
        Map::empty().insert("text"@, DocV::Text(x.text)).insert(
            "list"@,
            DocV::List(enc_str_list(x.list)),
        ),
    )
}

pub fn encode_artists(x: &Artists) -> (d: Doc)
    ensures
        d@ == enc_artists(x@),
{
    let mut es: Vec<(String, Doc)> = Vec::new();
    let ghost snap7 = es@;
    es.push(("text".to_owned(), Doc::Text(x.text.clone())));
    proof {
        crate::doc::lemma_entries_view_push(snap7, es@.last());
        assert(es@ =~= snap7.push(es@.last()));
    }
    let ghost snap8 = es@;
    es.push(("list".to_owned(), encode_str_list(&x.list)));
    proof {
        crate::doc::lemma_entries_view_push(snap8, es@.last());
        assert(es@ =~= snap8.push(es@.last()));
    }
    Doc::Object(es)
}

/// The canonical document of a collector number.
pub open spec fn enc_collector(x: CollectorNumberV) -> DocV {
    DocV::Object(
        {
            let m = Map::empty().insert("full"@, DocV::Text(x.full)).insert(
                "numerator"@,
                DocV::Text(x.numerator),
            );
            let m = match x.denominator {
                Some(s) => m.insert("denominator"@, DocV::Text(s)),
                None => m,
            };
            m.insert("numeric"@, DocV::Int(x.numeric as int))
        },
    )
}

pub fn encode_collector(x: &CollectorNumber) -> (d: Doc)
    ensures
        d@ == enc_collector(x@),
{
    let mut es: Vec<(String, Doc)> = Vec::new();
    let ghost snap9 = es@;
    es.push(("full".to_owned(), Doc::Text(x.full.clone())));
    proof {
        crate::doc::lemma_entries_view_push(snap9, es@.last());
        assert(es@ =~= snap9.push(es@.last()));
    }
    let ghost snap10 = es@;
    es.push(("numerator".to_owned(), Doc::Text(x.numerator.clone())));
    proof {
        crate::doc::lemma_entries_view_push(snap10, es@.last());
        assert(es@ =~= snap10.push(es@.last()));
    }
    if let Some(s) = &x.denominator {
        let ghost snap11 = es@;
        es.push(("denominator".to_owned(), Doc::Text(s.clone())));
        proof {
            crate::doc::lemma_entries_view_push(snap11, es@.last());
            assert(es@ =~= snap11.push(es@.last()));
        }
    }
    let ghost snap12 = es@;
    es.push(("numeric".to_owned(), Doc::Int(x.numeric as i64)));
    proof {
        crate::doc::lemma_entries_view_push(snap12, es@.last());
        assert(es@ =~= snap12.push(es@.last()));
    }
    Doc::Object(es)
}

/// The canonical document of an elemental-type list.
pub open spec fn enc_energy_list(ts: Seq<EnergyType>) -> Seq<DocV> {
    ts.map_values(|t: EnergyType| DocV::Text(t.wire_v()))
}

pub fn encode_energy_list(xs: &Vec<EnergyType>) -> (d: Doc)
    ensures
        d@ == DocV::List(enc_energy_list(xs@)),
{
    let mut out: Vec<Doc> = Vec::new();
    let mut i: usize = 0;
    while i < xs.len()
        invariant
            0 <= i <= xs@.len(),
            list_view(out@) =~= enc_energy_list(xs@.take(i as int)),
        decreases xs@.len() - i,
    {
        out.push(Doc::Text(xs[i].wire()));
        proof {
            assert(xs@.take(i + 1) =~= xs@.take(i as int).push(xs@[i as int]));
            assert(enc_energy_list(xs@.take(i as int).push(xs@[i as int])) =~= enc_energy_list(
                xs@.take(i as int),
            ).push(DocV::Text(xs@[i as int].wire_v())));
            assert(list_view(out@) =~= enc_energy_list(xs@.take(i + 1)));
        }
        i = i + 1;
    }
    proof {
        assert(xs@.take(xs@.len() as int) =~= xs@);
    }
    Doc::List(out)
}

/// The canonical document of a card-tag list.
pub open spec fn enc_tag_list(ts: Seq<CardTag>) -> Seq<DocV> {
    ts.map_values(|t: CardTag| DocV::Text(t.wire_v()))
}

pub fn encode_tag_list(xs: &Vec<CardTag>) -> (d: Doc)
    ensures
        d@ == DocV::List(enc_tag_list(xs@)),
{
    let mut out: Vec<Doc> = Vec::new();
    let mut i: usize = 0;
    while i < xs.len()
        invariant
            0 <= i <= xs@.len(),
            list_view(out@) =~= enc_tag_list(xs@.take(i as int)),
        decreases xs@.len() - i,
    {
        out.push(Doc::Text(xs[i].wire()));
        proof {
            assert(xs@.take(i + 1) =~= xs@.take(i as int).push(xs@[i as int]));
            assert(enc_tag_list(xs@.take(i as int).push(xs@[i as int])) =~= enc_tag_list(
                xs@.take(i as int),
            ).push(DocV::Text(xs@[i as int].wire_v())));
            assert(list_view(out@) =~= enc_tag_list(xs@.take(i + 1)));
        }
        i = i + 1;
    }
    proof {
        assert(xs@.take(xs@.len() as int) =~= xs@);
    }
    Doc::List(out)
}

/// The canonical document of an attack-cost list.
pub open spec fn enc_cost_list(ts: Seq<AttackCost>) -> Seq<DocV> {
    ts.map_values(|t: AttackCost| DocV::Text(t.wire_v()))
}

pub fn encode_cost_list(xs: &Vec<AttackCost>) -> (d: Doc)
    ensures
        d@ == DocV::List(enc_cost_list(xs@)),
{
    let mut out: Vec<Doc> = Vec::new();
    let mut i: usize = 0;
    while i < xs.len()
        invariant
            0 <= i <= xs@.len(),
            list_view(out@) =~= enc_cost_list(xs@.take(i as int)),
        decreases xs@.len() - i,
    {
        out.push(Doc::Text(xs[i].wire()));
        proof {
            assert(xs@.take(i + 1) =~= xs@.take(i as int).push(xs@[i as int]));
            assert(enc_cost_list(xs@.take(i as int).push(xs@[i as int])) =~= enc_cost_list(
                xs@.take(i as int),
            ).push(DocV::Text(xs@[i as int].wire_v())));
            assert(list_view(out@) =~= enc_cost_list(xs@.take(i + 1)));
        }
        i = i + 1;
    }
    proof {
        assert(xs@.take(xs@.len() as int) =~= xs@);
    }
    Doc::List(out)
}

/// The canonical document of a weakness.
pub open spec fn enc_weakness(x: WeaknessV) -> DocV {
    DocV::Object(
        Map::empty().insert("amount"@, DocV::Int(x.amount as int)).insert(
            "operator"@,
            DocV::Text(x.operator.wire_v()),
        ).insert("types"@, DocV::List(enc_energy_list(x.types))),
    )
}

pub fn encode_weakness(x: &Weakness) -> (d: Doc)
    ensures
        d@ == enc_weakness(x@),
{
    let mut es: Vec<(String, Doc)> = Vec::new();
    let ghost snap13 = es@;
    es.push(("amount".to_owned(), Doc::Int(x.amount as i64)));
    proof {
        crate::doc::lemma_entries_view_push(snap13, es@.last());
        assert(es@ =~= snap13.push(es@.last()));
    }
    let ghost snap14 = es@;
    es.push(("operator".to_owned(), Doc::Text(x.operator.wire())));
    proof {
        crate::doc::lemma_entries_view_push(snap14, es@.last());
        assert(es@ =~= snap14.push(es@.last()));
    }
    let ghost snap15 = es@;
    es.push(("types".to_owned(), encode_energy_list(&x.types)));
    proof {
        crate::doc::lemma_entries_view_push(snap15, es@.last());
        assert(es@ =~= snap15.push(es@.last()));
    }
    Doc::Object(es)
}

/// The canonical document of a resistance.
pub open spec fn enc_resistance(x: ResistanceV) -> DocV {
    DocV::Object(
        Map::empty().insert("amount"@, DocV::Int(x.amount as int)).insert(
            "operator"@,
            DocV::Text(x.operator.wire_v()),
        ).insert("types"@, DocV::List(enc_energy_list(x.types))),
    )
}

pub fn encode_resistance(x: &Resistance) -> (d: Doc)
    ensures
        d@ == enc_resistance(x@),
{
    let mut es: Vec<(String, Doc)> = Vec::new();
    let ghost snap16 = es@;
    es.push(("amount".to_owned(), Doc::Int(x.amount as i64)));
    proof {
        crate::doc::lemma_entries_view_push(snap16, es@.last());
        assert(es@ =~= snap16.push(es@.last()));
    }
    let ghost snap17 = es@;
    es.push(("operator".to_owned(), Doc::Text(x.operator.wire())));
    proof {
        crate::doc::lemma_entries_view_push(snap17, es@.last());
        assert(es@ =~= snap17.push(es@.last()));
    }
    let ghost snap18 = es@;
    es.push(("types".to_owned(), encode_energy_list(&x.types)));
    proof {
        crate::doc::lemma_entries_view_push(snap18, es@.last());
        assert(es@ =~= snap18.push(es@.last()));
    }
    Doc::Object(es)
}

/// The canonical document of a damage value.
pub open spec fn enc_damage(x: Damage) -> DocV {
    DocV::Object(
        {
            let m = Map::empty().insert("amount"@, DocV::Int(x.amount as int));
            match x.suffix {
                Some(t) => m.insert("suffix"@, DocV::Text(t.wire_v())),
                None => m,
            }
        },
    )
}

pub fn encode_damage(x: &Damage) -> (d: Doc)
    ensures
        d@ == enc_damage(*x),
{
    let mut es: Vec<(String, Doc)> = Vec::new();
    let ghost snap19 = es@;
    es.push(("amount".to_owned(), Doc::Int(x.amount as i64)));
    proof {
        crate::doc::lemma_entries_view_push(snap19, es@.last());
        assert(es@ =~= snap19.push(es@.last()));
    }
    if let Some(t) = &x.suffix {
        let ghost snap20 = es@;
        es.push(("suffix".to_owned(), Doc::Text(t.wire())));
        proof {
            crate::doc::lemma_entries_view_push(snap20, es@.last());
            assert(es@ =~= snap20.push(es@.last()));
        }
    }
    Doc::Object(es)
}

/// The canonical document of the provider bundle; the identifier is
/// written in its hex form, the release date-time in the fixed pattern.
pub open spec fn enc_tcgl(x: TcglV) -> DocV {
    DocV::Object(
        Map::empty().insert("archetypeID"@, DocV::Text(hex_id_text(x.archetype_id))).insert(
            "cardID"@,
            DocV::Text(x.card_id),
        ).insert("key"@, DocV::Text(x.key)).insert("longFormID"@, DocV::Text(x.long_form_id)).insert(
            "reldate"@,
            DocV::Text(dt_text(x.reldate)),
        ),
    )
}

pub fn encode_tcgl(x: &Tcgl) -> (d: Doc)
    ensures
        d@ == enc_tcgl(x@),
{
    let mut es: Vec<(String, Doc)> = Vec::new();
    let ghost snap21 = es@;
    es.push(("archetypeID".to_owned(), Doc::Text(encode_u32(x.archetype_id))));
    proof {
        crate::doc::lemma_entries_view_push(snap21, es@.last());
        assert(es@ =~= snap21.push(es@.last()));
    }
    let ghost snap22 = es@;
    es.push(("cardID".to_owned(), Doc::Text(x.card_id.clone())));
    proof {
        crate::doc::lemma_entries_view_push(snap22, es@.last());
        assert(es@ =~= snap22.push(es@.last()));
    }
    let ghost snap23 = es@;
    es.push(("key".to_owned(), Doc::Text(x.key.clone())));
    proof {
        crate::doc::lemma_entries_view_push(snap23, es@.last());
        assert(es@ =~= snap23.push(es@.last()));
    }
    let ghost snap24 = es@;
    es.push(("longFormID".to_owned(), Doc::Text(x.long_form_id.clone())));
    proof {
        crate::doc::lemma_entries_view_push(snap24, es@.last());
        assert(es@ =~= snap24.push(es@.last()));
    }
    let ghost snap25 = es@;
    es.push(("reldate".to_owned(), Doc::Text(format_datetime(&x.reldate))));
    proof {
        crate::doc::lemma_entries_view_push(snap25, es@.last());
        assert(es@ =~= snap25.push(es@.last()));
    }
    Doc::Object(es)
}

/// The canonical document of the extension block.
pub open spec fn enc_ext(x: ExtV) -> DocV {
    DocV::Object(Map::empty().insert("tcgl"@, enc_tcgl(x.tcgl)))
}

pub fn encode_ext(x: &Ext) -> (d: Doc)
    ensures
        d@ == enc_ext(x@),
{
    let mut es: Vec<(String, Doc)> = Vec::new();
    let ghost snap26 = es@;
    es.push(("tcgl".to_owned(), encode_tcgl(&x.tcgl)));
    proof {
        crate::doc::lemma_entries_view_push(snap26, es@.last());
        assert(es@ =~= snap26.push(es@.last()));
    }
    Doc::Object(es)
}

/// The canonical documents of the image references.
pub open spec fn enc_jpg(x: ImageJpgV) -> DocV {
    DocV::Object(Map::empty().insert("front"@, DocV::Text(x.front)))
}

pub fn encode_jpg(x: &ImageJpg) -> (d: Doc)
    ensures
        d@ == enc_jpg(x@),
{
    let mut es: Vec<(String, Doc)> = Vec::new();
    let ghost snap27 = es@;
    es.push(("front".to_owned(), Doc::Text(x.front.clone())));
    proof {
        crate::doc::lemma_entries_view_push(snap27, es@.last());
        assert(es@ =~= snap27.push(es@.last()));
    }
    Doc::Object(es)
}

pub open spec fn enc_png(x: ImagePngV) -> DocV {
    DocV::Object(
        {
            let m = Map::empty().insert("front"@, DocV::Text(x.front));
            let m = match x.foil {
                Some(u) => m.insert("foil"@, DocV::Text(u)),
                None => m,
            };
            match x.etch {
                Some(u) => m.insert("etch"@, DocV::Text(u)),
                None => m,
            }
        },
    )
}

pub fn encode_png(x: &ImagePng) -> (d: Doc)
    ensures
        d@ == enc_png(x@),
{
    let mut es: Vec<(String, Doc)> = Vec::new();
    let ghost snap28 = es@;
    es.push(("front".to_owned(), Doc::Text(x.front.clone())));
    proof {
        crate::doc::lemma_entries_view_push(snap28, es@.last());
        assert(es@ =~= snap28.push(es@.last()));
    }
    if let Some(u) = &x.foil {
        let ghost snap29 = es@;
        es.push(("foil".to_owned(), Doc::Text(u.clone())));
        proof {
            crate::doc::lemma_entries_view_push(snap29, es@.last());
            assert(es@ =~= snap29.push(es@.last()));
        }
    }
    if let Some(u) = &x.etch {
        let ghost snap30 = es@;
        es.push(("etch".to_owned(), Doc::Text(u.clone())));
        proof {
            crate::doc::lemma_entries_view_push(snap30, es@.last());
            assert(es@ =~= snap30.push(es@.last()));
        }
    }
    Doc::Object(es)
}

pub open spec fn enc_tex(x: ImageTexV) -> DocV {
    DocV::Object(
        {
            let m = Map::empty().insert("front"@, DocV::Text(x.front));
            let m = match x.foil {
                Some(u) => m.insert("foil"@, DocV::Text(u)),
                None => m,
            };
            match x.etch {
                Some(u) => m.insert("etch"@, DocV::Text(u)),
                None => m,
            }
        },
    )
}

pub fn encode_tex(x: &ImageTex) -> (d: Doc)
    ensures
        d@ == enc_tex(x@),
{
    let mut es: Vec<(String, Doc)> = Vec::new();
    let ghost snap31 = es@;
    es.push(("front".to_owned(), Doc::Text(x.front.clone())));
    proof {
        crate::doc::lemma_entries_view_push(snap31, es@.last());
        assert(es@ =~= snap31.push(es@.last()));
    }
    if let Some(u) = &x.foil {
        let ghost snap32 = es@;
        es.push(("foil".to_owned(), Doc::Text(u.clone())));
        proof {
            crate::doc::lemma_entries_view_push(snap32, es@.last());
            assert(es@ =~= snap32.push(es@.last()));
        }
    }
    if let Some(u) = &x.etch {
        let ghost snap33 = es@;
        es.push(("etch".to_owned(), Doc::Text(u.clone())));
        proof {
            crate::doc::lemma_entries_view_push(snap33, es@.last());
            assert(es@ =~= snap33.push(es@.last()));
        }
    }
    Doc::Object(es)
}

pub open spec fn enc_tcgl_images(x: TcglImagesV) -> DocV {
    DocV::Object(
        Map::empty().insert("jpg"@, enc_jpg(x.jpg)).insert("png"@, enc_png(x.png)).insert(
            "tex"@,
            enc_tex(x.tex),
        ),
    )
}

pub fn encode_tcgl_images(x: &TcglImages) -> (d: Doc)
    ensures
        d@ == enc_tcgl_images(x@),
{
    let mut es: Vec<(String, Doc)> = Vec::new();
    let ghost snap34 = es@;
    es.push(("jpg".to_owned(), encode_jpg(&x.jpg)));
    proof {
        crate::doc::lemma_entries_view_push(snap34, es@.last());
        assert(es@ =~= snap34.push(es@.last()));
    }
    let ghost snap35 = es@;
    es.push(("png".to_owned(), encode_png(&x.png)));
    proof {
        crate::doc::lemma_entries_view_push(snap35, es@.last());
        assert(es@ =~= snap35.push(es@.last()));
    }
    let ghost snap36 = es@;
    es.push(("tex".to_owned(), encode_tex(&x.tex)));
    proof {
        crate::doc::lemma_entries_view_push(snap36, es@.last());
        assert(es@ =~= snap36.push(es@.last()));
    }
    Doc::Object(es)
}

pub open spec fn enc_images(x: ImagesV) -> DocV {
    DocV::Object(Map::empty().insert("tcgl"@, enc_tcgl_images(x.tcgl)))
}

pub fn encode_images(x: &Images) -> (d: Doc)
    ensures
        d@ == enc_images(x@),
{
    let mut es: Vec<(String, Doc)> = Vec::new();
    let ghost snap37 = es@;
    es.push(("tcgl".to_owned(), encode_tcgl_images(&x.tcgl)));
    proof {
        crate::doc::lemma_entries_view_push(snap37, es@.last());
        assert(es@ =~= snap37.push(es@.last()));
    }
    Doc::Object(es)
}

/// The canonical documents of the rule-text blocks, each with its kind
/// tag written first.
pub open spec fn enc_attack(x: AttackV) -> DocV {
    DocV::Object(
        {
            let m = Map::empty().insert("kind"@, DocV::Text("ATTACK"@)).insert(
                "name"@,
                DocV::Text(x.name),
            );
            let m = match x.text {
                Some(s) => m.insert("text"@, DocV::Text(s)),
                None => m,
            };
            let m = m.insert("cost"@, DocV::List(enc_cost_list(x.cost)));
            match x.damage {
                Some(dm) => m.insert("damage"@, enc_damage(dm)),
                None => m,
            }
        },
    )
}

pub fn encode_attack(x: &Attack) -> (d: Doc)
    ensures
        d@ == enc_attack(x@),
{
    let mut es: Vec<(String, Doc)> = Vec::new();
    let ghost snap38 = es@;
    es.push(("kind".to_owned(), Doc::Text("ATTACK".to_owned())));
    proof {
        crate::doc::lemma_entries_view_push(snap38, es@.last());
        assert(es@ =~= snap38.push(es@.last()));
    }
    let ghost snap39 = es@;
    es.push(("name".to_owned(), Doc::Text(x.name.clone())));
    proof {
        crate::doc::lemma_entries_view_push(snap39, es@.last());
        assert(es@ =~= snap39.push(es@.last()));
    }
    if let Some(s) = &x.text {
        let ghost snap40 = es@;
        es.push(("text".to_owned(), Doc::Text(s.clone())));
        proof {
            crate::doc::lemma_entries_view_push(snap40, es@.last());
            assert(es@ =~= snap40.push(es@.last()));
        }
    }
    let ghost snap41 = es@;
    es.push(("cost".to_owned(), encode_cost_list(&x.cost)));
    proof {
        crate::doc::lemma_entries_view_push(snap41, es@.last());
        assert(es@ =~= snap41.push(es@.last()));
    }
    if let Some(dm) = &x.damage {
        let ghost snap42 = es@;
        es.push(("damage".to_owned(), encode_damage(dm)));
        proof {
            crate::doc::lemma_entries_view_push(snap42, es@.last());
            assert(es@ =~= snap42.push(es@.last()));
        }
    }
    Doc::Object(es)
}

pub open spec fn enc_ability(x: AbilityV) -> DocV {
    DocV::Object(
        Map::empty().insert("kind"@, DocV::Text("ABILITY"@)).insert(
            "name"@,
            DocV::Text(x.name),
        ).insert("text"@, DocV::Text(x.text)),
    )
}

pub fn encode_ability(x: &Ability) -> (d: Doc)
    ensures
        d@ == enc_ability(x@),
{
    let mut es: Vec<(String, Doc)> = Vec::new();
    let ghost snap43 = es@;
    es.push(("kind".to_owned(), Doc::Text("ABILITY".to_owned())));
    proof {
        crate::doc::lemma_entries_view_push(snap43, es@.last());
        assert(es@ =~= snap43.push(es@.last()));
    }
    let ghost snap44 = es@;
    es.push(("name".to_owned(), Doc::Text(x.name.clone())));
    proof {
        crate::doc::lemma_entries_view_push(snap44, es@.last());
        assert(es@ =~= snap44.push(es@.last()));
    }
    let ghost snap45 = es@;
    es.push(("text".to_owned(), Doc::Text(x.text.clone())));
    proof {
        crate::doc::lemma_entries_view_push(snap45, es@.last());
        assert(es@ =~= snap45.push(es@.last()));
    }
    Doc::Object(es)
}

pub open spec fn enc_rule_box(x: RuleBoxV) -> DocV {
    DocV::Object(
        Map::empty().insert("kind"@, DocV::Text("RULE_BOX"@)).insert(
            "name"@,
            DocV::Text(x.name),
        ).insert("text"@, DocV::Text(x.text)),
    )
}

pub fn encode_rule_box(x: &RuleBox) -> (d: Doc)
    ensures
        d@ == enc_rule_box(x@),
{
    let mut es: Vec<(String, Doc)> = Vec::new();
    let ghost snap46 = es@;
    es.push(("kind".to_owned(), Doc::Text("RULE_BOX".to_owned())));
    proof {
        crate::doc::lemma_entries_view_push(snap46, es@.last());
        assert(es@ =~= snap46.push(es@.last()));
    }
    let ghost snap47 = es@;
    es.push(("name".to_owned(), Doc::Text(x.name.clone())));
    proof {
        crate::doc::lemma_entries_view_push(snap47, es@.last());
        assert(es@ =~= snap47.push(es@.last()));
    }
    let ghost snap48 = es@;
    es.push(("text".to_owned(), Doc::Text(x.text.clone())));
    proof {
        crate::doc::lemma_entries_view_push(snap48, es@.last());
        assert(es@ =~= snap48.push(es@.last()));
    }
    Doc::Object(es)
}

pub open spec fn enc_effect(x: EffectV) -> DocV {
    DocV::Object(
        Map::empty().insert("kind"@, DocV::Text("EFFECT"@)).insert(
            "name"@,
            DocV::Text(x.name),
        ).insert("text"@, DocV::Text(x.text)),
    )
}

pub fn encode_effect(x: &Effect) -> (d: Doc)
    ensures
        d@ == enc_effect(x@),
{
    let mut es: Vec<(String, Doc)> = Vec::new();
    let ghost snap49 = es@;
    es.push(("kind".to_owned(), Doc::Text("EFFECT".to_owned())));
    proof {
        crate::doc::lemma_entries_view_push(snap49, es@.last());
        assert(es@ =~= snap49.push(es@.last()));
    }
    let ghost snap50 = es@;
    es.push(("name".to_owned(), Doc::Text(x.name.clone())));
    proof {
        crate::doc::lemma_entries_view_push(snap50, es@.last());
        assert(es@ =~= snap50.push(es@.last()));
    }
    let ghost snap51 = es@;
    es.push(("text".to_owned(), Doc::Text(x.text.clone())));
    proof {
        crate::doc::lemma_entries_view_push(snap51, es@.last());
        assert(es@ =~= snap51.push(es@.last()));
    }
    Doc::Object(es)
}

pub open spec fn enc_text_box(x: TextBoxV) -> DocV {
    DocV::Object(
        {
            let m = Map::empty().insert("kind"@, DocV::Text("TEXT_BOX"@));
            let m = match x.name {
                Some(s) => m.insert("name"@, DocV::Text(s)),
                None => m,
            };
            m.insert("text"@, DocV::Text(x.text))
        },
    )
}

pub fn encode_text_box(x: &TextBox) -> (d: Doc)
    ensures
        d@ == enc_text_box(x@),
{
    let mut es: Vec<(String, Doc)> = Vec::new();
    let ghost snap52 = es@;
    es.push(("kind".to_owned(), Doc::Text("TEXT_BOX".to_owned())));
    proof {
        crate::doc::lemma_entries_view_push(snap52, es@.last());
        assert(es@ =~= snap52.push(es@.last()));
    }
    if let Some(s) = &x.name {
        let ghost snap53 = es@;
        es.push(("name".to_owned(), Doc::Text(s.clone())));
        proof {
            crate::doc::lemma_entries_view_push(snap53, es@.last());
            assert(es@ =~= snap53.push(es@.last()));
        }
    }
    let ghost snap54 = es@;
    es.push(("text".to_owned(), Doc::Text(x.text.clone())));
    proof {
        crate::doc::lemma_entries_view_push(snap54, es@.last());
        assert(es@ =~= snap54.push(es@.last()));
    }
    Doc::Object(es)
}

pub open spec fn enc_reminder(x: ReminderV) -> DocV {
    DocV::Object(
        Map::empty().insert("kind"@, DocV::Text("REMINDER"@)).insert("text"@, DocV::Text(x.text)),
    )
}

pub fn encode_reminder(x: &Reminder) -> (d: Doc)
    ensures
        d@ == enc_reminder(x@),
{
    let mut es: Vec<(String, Doc)> = Vec::new();
    let ghost snap55 = es@;
    es.push(("kind".to_owned(), Doc::Text("REMINDER".to_owned())));
    proof {
        crate::doc::lemma_entries_view_push(snap55, es@.last());
        assert(es@ =~= snap55.push(es@.last()));
    }
    let ghost snap56 = es@;
    es.push(("text".to_owned(), Doc::Text(x.text.clone())));
    proof {
        crate::doc::lemma_entries_view_push(snap56, es@.last());
        assert(es@ =~= snap56.push(es@.last()));
    }
    Doc::Object(es)
}

/// The canonical document of one rule-text block.
#[verifier::opaque]
pub open spec fn enc_text(x: TextV) -> DocV {
    match x {
        TextV::Attack(y) => enc_attack(y),
        TextV::Ability(y) => enc_ability(y),
        TextV::RuleBox(y) => enc_rule_box(y),
        TextV::Effect(y) => enc_effect(y),
        TextV::TextBox(y) => enc_text_box(y),
        TextV::Reminder(y) => enc_reminder(y),
    }
}

pub fn encode_text(x: &Text) -> (d: Doc)
    ensures
        d@ == enc_text(x@),
{
    reveal(enc_text);
    match x {
        Text::Attack(y) => encode_attack(y),
        Text::Ability(y) => encode_ability(y),
        Text::RuleBox(y) => encode_rule_box(y),
        Text::Effect(y) => encode_effect(y),
        Text::TextBox(y) => encode_text_box(y),
        Text::Reminder(y) => encode_reminder(y),
    }
}

/// The canonical document of a rule-text list.
pub open spec fn enc_text_list(ts: Seq<TextV>) -> Seq<DocV> {
    ts.map_values(|t: TextV| enc_text(t))
}

pub fn encode_text_list(xs: &Vec<Text>) -> (d: Doc)
    ensures
        d@ == DocV::List(enc_text_list(crate::types::texts_view(xs@))),
{
    let mut out: Vec<Doc> = Vec::new();
    let mut i: usize = 0;
    while i < xs.len()
        invariant
            0 <= i <= xs@.len(),
            list_view(out@) =~= enc_text_list(crate::types::texts_view(xs@.take(i as int))),
        decreases xs@.len() - i,
    {
        out.push(encode_text(&xs[i]));
        proof {
            assert(crate::types::texts_view(xs@.take(i + 1)) =~= crate::types::texts_view(
                xs@.take(i as int),
            ).push(xs@[i as int]@));
            assert(enc_text_list(
                crate::types::texts_view(xs@.take(i as int)).push(xs@[i as int]@),
            ) =~= enc_text_list(crate::types::texts_view(xs@.take(i as int))).push(
                enc_text(xs@[i as int]@),
            ));
            assert(list_view(out@) =~= enc_text_list(
                crate::types::texts_view(xs@.take(i + 1)),
            ));
        }
        i = i + 1;
    }
    proof {
        assert(xs@.take(xs@.len() as int) =~= xs@);
    }
    Doc::List(out)
}

} // verus!
