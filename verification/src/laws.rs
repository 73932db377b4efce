//! The library's stated laws: the codec round-trips, re-decoding is
//! stable, unknown fields and unknown variants are rejected, and optional
//! fields that are not set are omitted from the output document.

use vstd::prelude::*;
use crate::datetime::lemma_dt_round_trip;
use crate::dec::d_opt_str;
use crate::dec::d_opt_u8;
use crate::dec::d_req_nz_u16;
use crate::dec::d_req_str;
use crate::dec_parts::d_opt_artists;
use crate::dec_parts::d_opt_copyright;
use crate::dec_parts::d_opt_foil;
use crate::dec_parts::d_opt_rarity;
use crate::dec_parts::d_opt_resistance;
use crate::dec_parts::d_opt_tags;
use crate::dec_parts::d_opt_weakness;
use crate::dec_parts::d_req_back;
use crate::dec_parts::d_req_collector;
use crate::dec_parts::d_req_energy_list;
use crate::dec_parts::d_req_lang;
use crate::dec_parts::d_req_reg;
use crate::dec_parts::d_req_size;
use crate::dec_parts::d_req_stage;
use crate::dec_text::d_req_ext;
use crate::dec_text::d_req_images;
use crate::dec_text::d_req_texts;
use crate::dec::fld;
use crate::dec_card::dec_basic_energy;
use crate::dec_card::dec_card;
use crate::dec_card::dec_card_list;
use crate::dec_card::dec_cards;
use crate::dec_card::dec_energy;
use crate::dec_card::dec_item;
use crate::dec_card::dec_pokemon;
use crate::dec_card::dec_special_energy;
use crate::dec_card::dec_stadium;
use crate::dec_card::dec_supporter;
use crate::dec_card::dec_tool;
use crate::dec_card::dec_trainer;
use crate::dec_card::basic_energy_keys;
use crate::dec_card::item_keys;
use crate::dec_card::pokemon_keys;
use crate::dec_card::special_energy_keys;
use crate::dec_card::stadium_keys;
use crate::dec_card::supporter_keys;
use crate::dec_card::tool_keys;
use crate::dec_parts::artists_keys;
use crate::dec_parts::collector_keys;
use crate::dec_parts::copyright_keys;
use crate::dec_parts::damage_keys;
use crate::dec_parts::dec_artists;
use crate::dec_parts::dec_collector;
use crate::dec_parts::dec_copyright;
use crate::dec_parts::dec_damage;
use crate::dec_parts::dec_energy_list;
use crate::dec_parts::dec_foil;
use crate::dec_parts::dec_rarity;
use crate::dec_parts::dec_resistance;
use crate::dec_parts::dec_str_list;
use crate::dec_parts::dec_tag_list;
use crate::dec_parts::dec_weakness;
use crate::dec_parts::foil_keys;
use crate::dec_parts::rarity_keys;
use crate::dec_parts::resistance_keys;
use crate::dec_parts::weakness_keys;
use crate::dec_text::attack_keys;
use crate::dec_text::dec_ability;
use crate::dec_text::dec_attack;
use crate::dec_text::dec_cost_list;
use crate::dec_text::dec_effect;
use crate::dec_text::dec_ext;
use crate::dec_text::dec_images;
use crate::dec_text::dec_jpg;
use crate::dec_text::dec_png;
use crate::dec_text::dec_reminder;
use crate::dec_text::dec_rule_box;
use crate::dec_text::dec_tcgl;
use crate::dec_text::dec_tcgl_images;
use crate::dec_text::dec_tex;
use crate::dec_text::dec_text;
use crate::dec_text::dec_text_box;
use crate::dec_text::dec_text_list;
use crate::dec_text::ext_keys;
use crate::dec_text::images_keys;
use crate::dec_text::jpg_keys;
use crate::dec_text::named_text_keys;
use crate::dec_text::png_keys;
use crate::dec_text::reminder_keys;
use crate::dec_text::tcgl_images_keys;
use crate::dec_text::tcgl_keys;
use crate::doc::DocV;
use crate::enc::enc_ability;
use crate::enc::enc_artists;
use crate::enc::enc_attack;
use crate::enc::enc_collector;
use crate::enc::enc_copyright;
use crate::enc::enc_cost_list;
use crate::enc::enc_damage;
use crate::enc::enc_effect;
use crate::enc::enc_energy_list;
use crate::enc::enc_ext;
use crate::enc::enc_foil;
use crate::enc::enc_images;
use crate::enc::enc_jpg;
use crate::enc::enc_png;
use crate::enc::enc_rarity;
use crate::enc::enc_reminder;
use crate::enc::enc_resistance;
use crate::enc::enc_rule_box;
use crate::enc::enc_str_list;
use crate::enc::enc_tag_list;
use crate::enc::enc_tcgl;
use crate::enc::enc_tcgl_images;
use crate::enc::enc_tex;
use crate::enc::enc_text;
use crate::enc::enc_text_box;
use crate::enc::enc_text_list;
use crate::enc::enc_weakness;
use crate::enc_card::enc_basic_energy;
use crate::enc_card::enc_card;
use crate::enc_card::enc_card_list;
use crate::enc_card::enc_cards;
use crate::enc_card::enc_energy;
use crate::enc_card::enc_item;
use crate::enc_card::enc_pokemon;
use crate::enc_card::enc_special_energy;
use crate::enc_card::enc_stadium;
use crate::enc_card::enc_supporter;
use crate::enc_card::enc_tool;
use crate::enc_card::enc_trainer;
use crate::err::ErrKind;
use crate::hex_id::lemma_hex_id_round_trip;
use crate::tokens::AttackCost;
use crate::tokens::CardTag;
use crate::tokens::EnergyType;
use crate::tokens::lemma_attack_cost_wire;
use crate::tokens::lemma_card_back_wire;
use crate::tokens::lemma_card_size_wire;
use crate::tokens::lemma_card_tag_wire;
use crate::tokens::lemma_damage_suffix_wire;
use crate::tokens::lemma_energy_type_wire;
use crate::tokens::lemma_foil_mask_wire;
use crate::tokens::lemma_foil_type_wire;
use crate::tokens::lemma_lang_wire;
use crate::tokens::lemma_rarity_designation_wire;
use crate::tokens::lemma_rarity_icon_wire;
use crate::tokens::lemma_regulation_mark_wire;
use crate::tokens::lemma_resistance_operator_wire;
use crate::tokens::lemma_stage_wire;
use crate::tokens::lemma_weakness_operator_wire;
use crate::types::ArtistsV;
use crate::types::BasicEnergyV;
use crate::types::CardV;
use crate::types::CollectorNumberV;
use crate::types::CopyrightV;
use crate::types::Damage;
use crate::types::EnergyV;
use crate::types::ExtV;
use crate::types::Foil;
use crate::types::ImageJpgV;
use crate::types::ImagePngV;
use crate::types::ImageTexV;
use crate::types::ImagesV;
use crate::types::ItemV;
use crate::types::PokemonV;
use crate::types::Rarity;
use crate::types::ResistanceV;
use crate::types::SpecialEnergyV;
use crate::types::StadiumV;
use crate::types::SupporterV;
use crate::types::TcglImagesV;
use crate::types::TcglV;
use crate::types::TextV;
use crate::types::ToolV;
use crate::types::TrainerV;
use crate::types::AbilityV;
use crate::types::AttackV;
use crate::types::EffectV;
use crate::types::ReminderV;
use crate::types::RuleBoxV;
use crate::types::TextBoxV;
use crate::types::WeaknessV;

verus! {

broadcast use {
    vstd::seq::group_seq_axioms,
    vstd::map::group_map_axioms,
    vstd::set::group_set_axioms,
};

/// The entry map of a document known to be an object.
pub open spec fn obj_of(d: DocV) -> Map<Seq<char>, DocV> {
    match d {
        DocV::Object(m) => m,
        _ => Map::empty(),
    }
}

/// Law: an elemental-type list round-trips through its documents.
pub proof fn lemma_energy_list_round(ts: Seq<EnergyType>)
    ensures
        dec_energy_list(enc_energy_list(ts)) == Ok::<Seq<EnergyType>, ErrKind>(ts),
    decreases ts.len(),
{
    if ts.len() == 0 {
        assert(ts =~= Seq::<EnergyType>::empty());
    }
    if ts.len() > 0 {
        lemma_energy_type_wire(ts[0], Seq::empty());
        lemma_energy_list_round(ts.skip(1));
        assert(enc_energy_list(ts).skip(1) =~= enc_energy_list(ts.skip(1)));
        assert(enc_energy_list(ts)[0] == DocV::Text(ts[0].wire_v()));
        assert(seq![ts[0]] + ts.skip(1) =~= ts);
    }
}

/// Law: a card-tag list round-trips through its documents.
pub proof fn lemma_tag_list_round(ts: Seq<CardTag>)
    ensures
        dec_tag_list(enc_tag_list(ts)) == Ok::<Seq<CardTag>, ErrKind>(ts),
    decreases ts.len(),
{
    if ts.len() == 0 {
        assert(ts =~= Seq::<CardTag>::empty());
    }
    if ts.len() > 0 {
        lemma_card_tag_wire(ts[0], Seq::empty());
        lemma_tag_list_round(ts.skip(1));
        assert(enc_tag_list(ts).skip(1) =~= enc_tag_list(ts.skip(1)));
        assert(enc_tag_list(ts)[0] == DocV::Text(ts[0].wire_v()));
        assert(seq![ts[0]] + ts.skip(1) =~= ts);
    }
}

/// Law: an attack-cost list round-trips through its documents.
pub proof fn lemma_cost_list_round(ts: Seq<AttackCost>)
    ensures
        dec_cost_list(enc_cost_list(ts)) == Ok::<Seq<AttackCost>, ErrKind>(ts),
    decreases ts.len(),
{
    if ts.len() == 0 {
        assert(ts =~= Seq::<AttackCost>::empty());
    }
    if ts.len() > 0 {
        lemma_attack_cost_wire(ts[0], Seq::empty());
        lemma_cost_list_round(ts.skip(1));
        assert(enc_cost_list(ts).skip(1) =~= enc_cost_list(ts.skip(1)));
        assert(enc_cost_list(ts)[0] == DocV::Text(ts[0].wire_v()));
        assert(seq![ts[0]] + ts.skip(1) =~= ts);
    }
}

/// Law: a list of name strings round-trips through its documents.
pub proof fn lemma_str_list_round(ts: Seq<Seq<char>>)
    ensures
        dec_str_list(enc_str_list(ts)) == Ok::<Seq<Seq<char>>, ErrKind>(ts),
    decreases ts.len(),
{
    if ts.len() == 0 {
        assert(ts =~= Seq::<Seq<char>>::empty());
    }
    if ts.len() > 0 {
        lemma_str_list_round(ts.skip(1));
        assert(enc_str_list(ts).skip(1) =~= enc_str_list(ts.skip(1)));
        assert(enc_str_list(ts)[0] == DocV::Text(ts[0]));
        assert(seq![ts[0]] + ts.skip(1) =~= ts);
    }
}

/// Law: re-decoding this shape's canonical document yields the value
/// again.
#[verifier::rlimit(100)]
pub proof fn lemma_foil_round(x: Foil)
    ensures
        dec_foil(obj_of(enc_foil(x))) == Ok::<Foil, ErrKind>(x),
{
    reveal_strlit("type");
    reveal_strlit("mask");
    assert("type"@.len() == 4);
    assert("mask"@.len() == 4);
    assert("type"@[0] == 't');
    assert("type"@[1] == 'y');
    assert("type"@[2] == 'p');
    assert("type"@[3] == 'e');
    assert("mask"@[0] == 'm');
    assert("mask"@[1] == 'a');
    assert("mask"@[2] == 's');
    assert("mask"@[3] == 'k');
    lemma_foil_type_wire(x.ty, Seq::empty());
    lemma_foil_mask_wire(x.mask, Seq::empty());
    assert(obj_of(enc_foil(x)).dom().subset_of(foil_keys()));
}

/// Law: re-decoding this shape's canonical document yields the value
/// again.
#[verifier::rlimit(100)]
pub proof fn lemma_rarity_round(x: Rarity)
    ensures
        dec_rarity(obj_of(enc_rarity(x))) == Ok::<Rarity, ErrKind>(x),
{
    reveal_strlit("designation");
    reveal_strlit("icon");
    assert("designation"@.len() == 11);
    assert("icon"@.len() == 4);
    lemma_rarity_designation_wire(x.designation, Seq::empty());
    lemma_rarity_icon_wire(x.icon, Seq::empty());
    assert(obj_of(enc_rarity(x)).dom().subset_of(rarity_keys()));
}

/// Law: re-decoding this shape's canonical document yields the value
/// again.
#[verifier::rlimit(100)]
pub proof fn lemma_copyright_round(x: CopyrightV)
    ensures
        dec_copyright(obj_of(enc_copyright(x))) == Ok::<CopyrightV, ErrKind>(x),
{
    reveal_strlit("text");
    reveal_strlit("year");
    assert("text"@.len() == 4);
    assert("year"@.len() == 4);
    assert("text"@[0] == 't');
    assert("text"@[1] == 'e');
    assert("text"@[2] == 'x');
    assert("text"@[3] == 't');
    assert("year"@[0] == 'y');
    assert("year"@[1] == 'e');
    assert("year"@[2] == 'a');
    assert("year"@[3] == 'r');

    assert(obj_of(enc_copyright(x)).dom().subset_of(copyright_keys()));
}

/// Law: re-decoding this shape's canonical document yields the value
/// again.
#[verifier::rlimit(100)]
pub proof fn lemma_artists_round(x: ArtistsV)
    ensures
        dec_artists(obj_of(enc_artists(x))) == Ok::<ArtistsV, ErrKind>(x),
{
    reveal_strlit("text");
    reveal_strlit("list");
    assert("text"@.len() == 4);
    assert("list"@.len() == 4);
    assert("text"@[0] == 't');
    assert("text"@[1] == 'e');
    assert("text"@[2] == 'x');
    assert("text"@[3] == 't');
    assert("list"@[0] == 'l');
    assert("list"@[1] == 'i');
    assert("list"@[2] == 's');
    assert("list"@[3] == 't');
    lemma_str_list_round(x.list);
    assert(obj_of(enc_artists(x)).dom().subset_of(artists_keys()));
}

/// Law: re-decoding this shape's canonical document yields the value
/// again.
#[verifier::rlimit(100)]
pub proof fn lemma_collector_round(x: CollectorNumberV)
    requires
        x.wf(),
    ensures
        dec_collector(obj_of(enc_collector(x))) == Ok::<CollectorNumberV, ErrKind>(x),
{
    reveal_strlit("full");
    reveal_strlit("numerator");
    reveal_strlit("denominator");
    reveal_strlit("numeric");
    assert("full"@.len() == 4);
    assert("numerator"@.len() == 9);
    assert("denominator"@.len() == 11);
    assert("numeric"@.len() == 7);

    assert(obj_of(enc_collector(x)).dom().subset_of(collector_keys()));
}

/// Law: re-decoding this shape's canonical document yields the value
/// again.
#[verifier::rlimit(100)]
pub proof fn lemma_weakness_round(x: WeaknessV)
    ensures
        dec_weakness(obj_of(enc_weakness(x))) == Ok::<WeaknessV, ErrKind>(x),
{
    reveal_strlit("amount");
    reveal_strlit("operator");
    reveal_strlit("types");
    assert("amount"@.len() == 6);
    assert("operator"@.len() == 8);
    assert("types"@.len() == 5);
    lemma_weakness_operator_wire(x.operator, Seq::empty());
    lemma_energy_list_round(x.types);
    assert(obj_of(enc_weakness(x)).dom().subset_of(weakness_keys()));
}

/// Law: re-decoding this shape's canonical document yields the value
/// again.
#[verifier::rlimit(100)]
pub proof fn lemma_resistance_round(x: ResistanceV)
    ensures
        dec_resistance(obj_of(enc_resistance(x))) == Ok::<ResistanceV, ErrKind>(x),
{
    reveal_strlit("amount");
    reveal_strlit("operator");
    reveal_strlit("types");
    assert("amount"@.len() == 6);
    assert("operator"@.len() == 8);
    assert("types"@.len() == 5);
    lemma_resistance_operator_wire(x.operator, Seq::empty());
    lemma_energy_list_round(x.types);
    assert(obj_of(enc_resistance(x)).dom().subset_of(resistance_keys()));
}

/// Law: re-decoding this shape's canonical document yields the value
/// again.
#[verifier::rlimit(100)]
pub proof fn lemma_damage_round(x: Damage)
    ensures
        dec_damage(obj_of(enc_damage(x))) == Ok::<Damage, ErrKind>(x),
{
    reveal_strlit("amount");
    reveal_strlit("suffix");
    assert("amount"@.len() == 6);
    assert("suffix"@.len() == 6);
    assert("amount"@[0] == 'a');
    assert("amount"@[1] == 'm');
    assert("amount"@[2] == 'o');
    assert("amount"@[3] == 'u');
    assert("amount"@[4] == 'n');
    assert("amount"@[5] == 't');
    assert("suffix"@[0] == 's');
    assert("suffix"@[1] == 'u');
    assert("suffix"@[2] == 'f');
    assert("suffix"@[3] == 'f');
    assert("suffix"@[4] == 'i');
    assert("suffix"@[5] == 'x');
    match x.suffix {
        Some(v) => {
            lemma_damage_suffix_wire(v, Seq::empty());
        },
        None => {},
    }
    assert(obj_of(enc_damage(x)).dom().subset_of(damage_keys()));
}

/// Law: re-decoding this shape's canonical document yields the value
/// again.
#[verifier::rlimit(100)]
pub proof fn lemma_tcgl_round(x: TcglV)
    requires
        x.wf(),
    ensures
        dec_tcgl(obj_of(enc_tcgl(x))) == Ok::<TcglV, ErrKind>(x),
{
    reveal_strlit("archetypeID");
    reveal_strlit("cardID");
    reveal_strlit("key");
    reveal_strlit("longFormID");
    reveal_strlit("reldate");
    assert("archetypeID"@.len() == 11);
    assert("cardID"@.len() == 6);
    assert("key"@.len() == 3);
    assert("longFormID"@.len() == 10);
    assert("reldate"@.len() == 7);
    lemma_hex_id_round_trip(x.archetype_id);
    lemma_dt_round_trip(x.reldate);
    assert(obj_of(enc_tcgl(x)).dom().subset_of(tcgl_keys()));
}

/// Law: re-decoding this shape's canonical document yields the value
/// again.
#[verifier::rlimit(100)]
pub proof fn lemma_ext_round(x: ExtV)
    requires
        x.wf(),
    ensures
        dec_ext(obj_of(enc_ext(x))) == Ok::<ExtV, ErrKind>(x),
{
    reveal_strlit("tcgl");
    assert("tcgl"@.len() == 4);
    lemma_tcgl_round(x.tcgl);
    assert(obj_of(enc_ext(x)).dom().subset_of(ext_keys()));
}

/// Law: re-decoding this shape's canonical document yields the value
/// again.
#[verifier::rlimit(100)]
pub proof fn lemma_jpg_round(x: ImageJpgV)
    requires
        x.wf(),
    ensures
        dec_jpg(obj_of(enc_jpg(x))) == Ok::<ImageJpgV, ErrKind>(x),
{
    reveal_strlit("front");
    assert("front"@.len() == 5);

    assert(obj_of(enc_jpg(x)).dom().subset_of(jpg_keys()));
}

/// Law: re-decoding this shape's canonical document yields the value
/// again.
#[verifier::rlimit(100)]
pub proof fn lemma_png_round(x: ImagePngV)
    requires
        x.wf(),
    ensures
        dec_png(obj_of(enc_png(x))) == Ok::<ImagePngV, ErrKind>(x),
{
    reveal_strlit("front");
    reveal_strlit("foil");
    reveal_strlit("etch");
    assert("front"@.len() == 5);
    assert("foil"@.len() == 4);
    assert("etch"@.len() == 4);
    assert("foil"@[0] == 'f');
    assert("foil"@[1] == 'o');
    assert("foil"@[2] == 'i');
    assert("foil"@[3] == 'l');
    assert("etch"@[0] == 'e');
    assert("etch"@[1] == 't');
    assert("etch"@[2] == 'c');
    assert("etch"@[3] == 'h');

    assert(obj_of(enc_png(x)).dom().subset_of(png_keys()));
}

/// Law: re-decoding this shape's canonical document yields the value
/// again.
#[verifier::rlimit(100)]
pub proof fn lemma_tex_round(x: ImageTexV)
    requires
        x.wf(),
    ensures
        dec_tex(obj_of(enc_tex(x))) == Ok::<ImageTexV, ErrKind>(x),
{
    reveal_strlit("front");
    reveal_strlit("foil");
    reveal_strlit("etch");
    assert("front"@.len() == 5);
    assert("foil"@.len() == 4);
    assert("etch"@.len() == 4);
    assert("foil"@[0] == 'f');
    assert("foil"@[1] == 'o');
    assert("foil"@[2] == 'i');
    assert("foil"@[3] == 'l');
    assert("etch"@[0] == 'e');
    assert("etch"@[1] == 't');
    assert("etch"@[2] == 'c');
    assert("etch"@[3] == 'h');

    assert(obj_of(enc_tex(x)).dom().subset_of(png_keys()));
}

/// Law: re-decoding this shape's canonical document yields the value
/// again.
#[verifier::rlimit(100)]
pub proof fn lemma_tcgl_images_round(x: TcglImagesV)
    requires
        x.wf(),
    ensures
        dec_tcgl_images(obj_of(enc_tcgl_images(x))) == Ok::<TcglImagesV, ErrKind>(x),
{
    reveal_strlit("jpg");
    reveal_strlit("png");
    reveal_strlit("tex");
    assert("jpg"@.len() == 3);
    assert("png"@.len() == 3);
    assert("tex"@.len() == 3);
    assert("jpg"@[0] == 'j');
    assert("jpg"@[1] == 'p');
    assert("jpg"@[2] == 'g');
    assert("png"@[0] == 'p');
    assert("png"@[1] == 'n');
    assert("png"@[2] == 'g');
    assert("tex"@[0] == 't');
    assert("tex"@[1] == 'e');
    assert("tex"@[2] == 'x');
    lemma_jpg_round(x.jpg);
    lemma_png_round(x.png);
    lemma_tex_round(x.tex);
    assert(obj_of(enc_tcgl_images(x)).dom().subset_of(tcgl_images_keys()));
}

/// Law: re-decoding this shape's canonical document yields the value
/// again.
#[verifier::rlimit(100)]
pub proof fn lemma_images_round(x: ImagesV)
    requires
        x.wf(),
    ensures
        dec_images(obj_of(enc_images(x))) == Ok::<ImagesV, ErrKind>(x),
{
    reveal_strlit("tcgl");
    assert("tcgl"@.len() == 4);
    lemma_tcgl_images_round(x.tcgl);
    assert(obj_of(enc_images(x)).dom().subset_of(images_keys()));
}

/// Law: re-decoding this shape's canonical document yields the value
/// again.
#[verifier::rlimit(100)]
pub proof fn lemma_attack_round(x: AttackV)
    ensures
        dec_attack(obj_of(enc_attack(x))) == Ok::<AttackV, ErrKind>(x),
{
    reveal_strlit("kind");
    reveal_strlit("name");
    reveal_strlit("text");
    reveal_strlit("cost");
    reveal_strlit("damage");
    reveal_strlit("ATTACK");
    assert("kind"@.len() == 4);
    assert("name"@.len() == 4);
    assert("text"@.len() == 4);
    assert("cost"@.len() == 4);
    assert("damage"@.len() == 6);
    assert("ATTACK"@.len() == 6);
    assert("kind"@[0] == 'k');
    assert("kind"@[1] == 'i');
    assert("kind"@[2] == 'n');
    assert("kind"@[3] == 'd');
    assert("name"@[0] == 'n');
    assert("name"@[1] == 'a');
    assert("name"@[2] == 'm');
    assert("name"@[3] == 'e');
    assert("text"@[0] == 't');
    assert("text"@[1] == 'e');
    assert("text"@[2] == 'x');
    assert("text"@[3] == 't');
    assert("cost"@[0] == 'c');
    assert("cost"@[1] == 'o');
    assert("cost"@[2] == 's');
    assert("cost"@[3] == 't');
    assert("damage"@[0] == 'd');
    assert("damage"@[1] == 'a');
    assert("damage"@[2] == 'm');
    assert("damage"@[3] == 'a');
    assert("damage"@[4] == 'g');
    assert("damage"@[5] == 'e');
    assert("ATTACK"@[0] == 'A');
    assert("ATTACK"@[1] == 'T');
    assert("ATTACK"@[2] == 'T');
    assert("ATTACK"@[3] == 'A');
    assert("ATTACK"@[4] == 'C');
    assert("ATTACK"@[5] == 'K');
    lemma_cost_list_round(x.cost);
    match x.damage {
        Some(v) => {
            lemma_damage_round(v);
        },
        None => {},
    }
    assert(obj_of(enc_attack(x)).dom().subset_of(attack_keys()));
}

/// Law: re-decoding this shape's canonical document yields the value
/// again.
#[verifier::rlimit(100)]
pub proof fn lemma_ability_round(x: AbilityV)
    ensures
        dec_ability(obj_of(enc_ability(x))) == Ok::<AbilityV, ErrKind>(x),
{
    reveal_strlit("kind");
    reveal_strlit("name");
    reveal_strlit("text");
    reveal_strlit("ABILITY");
    assert("kind"@.len() == 4);
    assert("name"@.len() == 4);
    assert("text"@.len() == 4);
    assert("ABILITY"@.len() == 7);
    assert("kind"@[0] == 'k');
    assert("kind"@[1] == 'i');
    assert("kind"@[2] == 'n');
    assert("kind"@[3] == 'd');
    assert("name"@[0] == 'n');
    assert("name"@[1] == 'a');
    assert("name"@[2] == 'm');
    assert("name"@[3] == 'e');
    assert("text"@[0] == 't');
    assert("text"@[1] == 'e');
    assert("text"@[2] == 'x');
    assert("text"@[3] == 't');

    assert(obj_of(enc_ability(x)).dom().subset_of(named_text_keys()));
}

/// Law: re-decoding this shape's canonical document yields the value
/// again.
#[verifier::rlimit(100)]
pub proof fn lemma_rule_box_round(x: RuleBoxV)
    ensures
        dec_rule_box(obj_of(enc_rule_box(x))) == Ok::<RuleBoxV, ErrKind>(x),
{
    reveal_strlit("kind");
    reveal_strlit("name");
    reveal_strlit("text");
    reveal_strlit("RULE_BOX");
    assert("kind"@.len() == 4);
    assert("name"@.len() == 4);
    assert("text"@.len() == 4);
    assert("RULE_BOX"@.len() == 8);
    assert("kind"@[0] == 'k');
    assert("kind"@[1] == 'i');
    assert("kind"@[2] == 'n');
    assert("kind"@[3] == 'd');
    assert("name"@[0] == 'n');
    assert("name"@[1] == 'a');
    assert("name"@[2] == 'm');
    assert("name"@[3] == 'e');
    assert("text"@[0] == 't');
    assert("text"@[1] == 'e');
    assert("text"@[2] == 'x');
    assert("text"@[3] == 't');

    assert(obj_of(enc_rule_box(x)).dom().subset_of(named_text_keys()));
}

/// Law: re-decoding this shape's canonical document yields the value
/// again.
#[verifier::rlimit(100)]
pub proof fn lemma_effect_round(x: EffectV)
    ensures
        dec_effect(obj_of(enc_effect(x))) == Ok::<EffectV, ErrKind>(x),
{
    reveal_strlit("kind");
    reveal_strlit("name");
    reveal_strlit("text");
    reveal_strlit("EFFECT");
    assert("kind"@.len() == 4);
    assert("name"@.len() == 4);
    assert("text"@.len() == 4);
    assert("EFFECT"@.len() == 6);
    assert("kind"@[0] == 'k');
    assert("kind"@[1] == 'i');
    assert("kind"@[2] == 'n');
    assert("kind"@[3] == 'd');
    assert("name"@[0] == 'n');
    assert("name"@[1] == 'a');
    assert("name"@[2] == 'm');
    assert("name"@[3] == 'e');
    assert("text"@[0] == 't');
    assert("text"@[1] == 'e');
    assert("text"@[2] == 'x');
    assert("text"@[3] == 't');

    assert(obj_of(enc_effect(x)).dom().subset_of(named_text_keys()));
}

/// Law: re-decoding this shape's canonical document yields the value
/// again.
#[verifier::rlimit(100)]
pub proof fn lemma_text_box_round(x: TextBoxV)
    ensures
        dec_text_box(obj_of(enc_text_box(x))) == Ok::<TextBoxV, ErrKind>(x),
{
    reveal_strlit("kind");
    reveal_strlit("name");
    reveal_strlit("text");
    reveal_strlit("TEXT_BOX");
    assert("kind"@.len() == 4);
    assert("name"@.len() == 4);
    assert("text"@.len() == 4);
    assert("TEXT_BOX"@.len() == 8);
    assert("kind"@[0] == 'k');
    assert("kind"@[1] == 'i');
    assert("kind"@[2] == 'n');
    assert("kind"@[3] == 'd');
    assert("name"@[0] == 'n');
    assert("name"@[1] == 'a');
    assert("name"@[2] == 'm');
    assert("name"@[3] == 'e');
    assert("text"@[0] == 't');
    assert("text"@[1] == 'e');
    assert("text"@[2] == 'x');
    assert("text"@[3] == 't');

    assert(obj_of(enc_text_box(x)).dom().subset_of(named_text_keys()));
}

/// Law: re-decoding this shape's canonical document yields the value
/// again.
#[verifier::rlimit(100)]
pub proof fn lemma_reminder_round(x: ReminderV)
    ensures
        dec_reminder(obj_of(enc_reminder(x))) == Ok::<ReminderV, ErrKind>(x),
{
    reveal_strlit("kind");
    reveal_strlit("text");
    reveal_strlit("REMINDER");
    assert("kind"@.len() == 4);
    assert("text"@.len() == 4);
    assert("REMINDER"@.len() == 8);
    assert("kind"@[0] == 'k');
    assert("kind"@[1] == 'i');
    assert("kind"@[2] == 'n');
    assert("kind"@[3] == 'd');
    assert("text"@[0] == 't');
    assert("text"@[1] == 'e');
    assert("text"@[2] == 'x');
    assert("text"@[3] == 't');

    assert(obj_of(enc_reminder(x)).dom().subset_of(reminder_keys()));
}

/// The field lookups of a creature record's canonical document.
#[verifier::rlimit(100)]
pub proof fn lemma_pokemon_fields(x: PokemonV)
    ensures
        enc_pokemon(x) == DocV::Object(obj_of(enc_pokemon(x))),
        obj_of(enc_pokemon(x)).dom().subset_of(pokemon_keys()),
        fld(obj_of(enc_pokemon(x)), "card_type"@) == Some(DocV::Text("POKEMON"@)),
        fld(obj_of(enc_pokemon(x)), "name"@) == Some(DocV::Text(x.name)),
        fld(obj_of(enc_pokemon(x)), "lang"@) == Some(DocV::Text(x.lang.wire_v())),
        x.foil matches Some(v) ==> fld(obj_of(enc_pokemon(x)), "foil"@) == Some(enc_foil(v)),
        x.foil is None ==> fld(obj_of(enc_pokemon(x)), "foil"@) is None,
        fld(obj_of(enc_pokemon(x)), "size"@) == Some(DocV::Text(x.size.wire_v())),
        fld(obj_of(enc_pokemon(x)), "back"@) == Some(DocV::Text(x.back.wire_v())),
        x.artists matches Some(v) ==> fld(obj_of(enc_pokemon(x)), "artists"@) == Some(enc_artists(v)),
        x.artists is None ==> fld(obj_of(enc_pokemon(x)), "artists"@) is None,
        fld(obj_of(enc_pokemon(x)), "regulation_mark"@) == Some(DocV::Text(x.regulation_mark.wire_v())),
        fld(obj_of(enc_pokemon(x)), "set_icon"@) == Some(DocV::Text(x.set_icon)),
        fld(obj_of(enc_pokemon(x)), "collector_number"@) == Some(enc_collector(x.collector_number)),
        x.rarity matches Some(v) ==> fld(obj_of(enc_pokemon(x)), "rarity"@) == Some(enc_rarity(v)),
        x.rarity is None ==> fld(obj_of(enc_pokemon(x)), "rarity"@) is None,
        x.copyright matches Some(v) ==> fld(obj_of(enc_pokemon(x)), "copyright"@) == Some(enc_copyright(v)),
        x.copyright is None ==> fld(obj_of(enc_pokemon(x)), "copyright"@) is None,
        x.tags matches Some(v) ==> fld(obj_of(enc_pokemon(x)), "tags"@) == Some(DocV::List(enc_tag_list(v))),
        x.tags is None ==> fld(obj_of(enc_pokemon(x)), "tags"@) is None,
        fld(obj_of(enc_pokemon(x)), "stage"@) == Some(DocV::Text(x.stage.wire_v())),
        x.stage_text matches Some(v) ==> fld(obj_of(enc_pokemon(x)), "stage_text"@) == Some(DocV::Text(v)),
        x.stage_text is None ==> fld(obj_of(enc_pokemon(x)), "stage_text"@) is None,
        fld(obj_of(enc_pokemon(x)), "hp"@) == Some(DocV::Int(x.hp as int)),
        x.weakness matches Some(v) ==> fld(obj_of(enc_pokemon(x)), "weakness"@) == Some(enc_weakness(v)),
        x.weakness is None ==> fld(obj_of(enc_pokemon(x)), "weakness"@) is None,
        x.resistance matches Some(v) ==> fld(obj_of(enc_pokemon(x)), "resistance"@) == Some(enc_resistance(v)),
        x.resistance is None ==> fld(obj_of(enc_pokemon(x)), "resistance"@) is None,
        x.retreat matches Some(v) ==> fld(obj_of(enc_pokemon(x)), "retreat"@) == Some(DocV::Int(v as int)),
        x.retreat is None ==> fld(obj_of(enc_pokemon(x)), "retreat"@) is None,
        x.flavor_text matches Some(v) ==> fld(obj_of(enc_pokemon(x)), "flavor_text"@) == Some(DocV::Text(v)),
        x.flavor_text is None ==> fld(obj_of(enc_pokemon(x)), "flavor_text"@) is None,
        fld(obj_of(enc_pokemon(x)), "text"@) == Some(DocV::List(enc_text_list(x.text))),
        fld(obj_of(enc_pokemon(x)), "ext"@) == Some(enc_ext(x.ext)),
        fld(obj_of(enc_pokemon(x)), "images"@) == Some(enc_images(x.images)),
        fld(obj_of(enc_pokemon(x)), "types"@) == Some(DocV::List(enc_energy_list(x.types))),
{
    reveal_strlit("card_type");
    reveal_strlit("name");
    reveal_strlit("lang");
    reveal_strlit("foil");
    reveal_strlit("size");
    reveal_strlit("back");
    reveal_strlit("artists");
    reveal_strlit("regulation_mark");
    reveal_strlit("set_icon");
    reveal_strlit("collector_number");
    reveal_strlit("rarity");
    reveal_strlit("copyright");
    reveal_strlit("tags");
    reveal_strlit("stage");
    reveal_strlit("stage_text");
    reveal_strlit("hp");
    reveal_strlit("weakness");
    reveal_strlit("resistance");
    reveal_strlit("retreat");
    reveal_strlit("flavor_text");
    reveal_strlit("text");
    reveal_strlit("ext");
    reveal_strlit("images");
    reveal_strlit("types");
    reveal_strlit("POKEMON");
    assert("card_type"@.len() == 9);
    assert("name"@.len() == 4);
    assert("lang"@.len() == 4);
    assert("foil"@.len() == 4);
    assert("size"@.len() == 4);
    assert("back"@.len() == 4);
    assert("artists"@.len() == 7);
    assert("regulation_mark"@.len() == 15);
    assert("set_icon"@.len() == 8);
    assert("collector_number"@.len() == 16);
    assert("rarity"@.len() == 6);
    assert("copyright"@.len() == 9);
    assert("tags"@.len() == 4);
    assert("stage"@.len() == 5);
    assert("stage_text"@.len() == 10);
    assert("hp"@.len() == 2);
    assert("weakness"@.len() == 8);
    assert("resistance"@.len() == 10);
    assert("retreat"@.len() == 7);
    assert("flavor_text"@.len() == 11);
    assert("text"@.len() == 4);
    assert("ext"@.len() == 3);
    assert("images"@.len() == 6);
    assert("types"@.len() == 5);
    assert("POKEMON"@.len() == 7);
    assert("card_type"@[0] == 'c');
    assert("card_type"@[1] == 'a');
    assert("card_type"@[2] == 'r');
    assert("card_type"@[3] == 'd');
    assert("card_type"@[4] == '_');
    assert("card_type"@[5] == 't');
    assert("card_type"@[6] == 'y');
    assert("card_type"@[7] == 'p');
    assert("card_type"@[8] == 'e');
    assert("copyright"@[0] == 'c');
    assert("copyright"@[1] == 'o');
    assert("copyright"@[2] == 'p');
    assert("copyright"@[3] == 'y');
    assert("copyright"@[4] == 'r');
    assert("copyright"@[5] == 'i');
    assert("copyright"@[6] == 'g');
    assert("copyright"@[7] == 'h');
    assert("copyright"@[8] == 't');
    assert("name"@[0] == 'n');
    assert("name"@[1] == 'a');
    assert("name"@[2] == 'm');
    assert("name"@[3] == 'e');
    assert("lang"@[0] == 'l');
    assert("lang"@[1] == 'a');
    assert("lang"@[2] == 'n');
    assert("lang"@[3] == 'g');
    assert("foil"@[0] == 'f');
    assert("foil"@[1] == 'o');
    assert("foil"@[2] == 'i');
    assert("foil"@[3] == 'l');
    assert("size"@[0] == 's');
    assert("size"@[1] == 'i');
    assert("size"@[2] == 'z');
    assert("size"@[3] == 'e');
    assert("back"@[0] == 'b');
    assert("back"@[1] == 'a');
    assert("back"@[2] == 'c');
    assert("back"@[3] == 'k');
    assert("tags"@[0] == 't');
    assert("tags"@[1] == 'a');
    assert("tags"@[2] == 'g');
    assert("tags"@[3] == 's');
    assert("text"@[0] == 't');
    assert("text"@[1] == 'e');
    assert("text"@[2] == 'x');
    assert("text"@[3] == 't');
    assert("artists"@[0] == 'a');
    assert("artists"@[1] == 'r');
    assert("artists"@[2] == 't');
    assert("artists"@[3] == 'i');
    assert("artists"@[4] == 's');
    assert("artists"@[5] == 't');
    assert("artists"@[6] == 's');
    assert("retreat"@[0] == 'r');
    assert("retreat"@[1] == 'e');
    assert("retreat"@[2] == 't');
    assert("retreat"@[3] == 'r');
    assert("retreat"@[4] == 'e');
    assert("retreat"@[5] == 'a');
    assert("retreat"@[6] == 't');
    assert("POKEMON"@[0] == 'P');
    assert("POKEMON"@[1] == 'O');
    assert("POKEMON"@[2] == 'K');
    assert("POKEMON"@[3] == 'E');
    assert("POKEMON"@[4] == 'M');
    assert("POKEMON"@[5] == 'O');
    assert("POKEMON"@[6] == 'N');
    assert("set_icon"@[0] == 's');
    assert("set_icon"@[1] == 'e');
    assert("set_icon"@[2] == 't');
    assert("set_icon"@[3] == '_');
    assert("set_icon"@[4] == 'i');
    assert("set_icon"@[5] == 'c');
    assert("set_icon"@[6] == 'o');
    assert("set_icon"@[7] == 'n');
    assert("weakness"@[0] == 'w');
    assert("weakness"@[1] == 'e');
    assert("weakness"@[2] == 'a');
    assert("weakness"@[3] == 'k');
    assert("weakness"@[4] == 'n');
    assert("weakness"@[5] == 'e');
    assert("weakness"@[6] == 's');
    assert("weakness"@[7] == 's');
    assert("rarity"@[0] == 'r');
    assert("rarity"@[1] == 'a');
    assert("rarity"@[2] == 'r');
    assert("rarity"@[3] == 'i');
    assert("rarity"@[4] == 't');
    assert("rarity"@[5] == 'y');
    assert("images"@[0] == 'i');
    assert("images"@[1] == 'm');
    assert("images"@[2] == 'a');
    assert("images"@[3] == 'g');
    assert("images"@[4] == 'e');
    assert("images"@[5] == 's');
    assert("stage"@[0] == 's');
    assert("stage"@[1] == 't');
    assert("stage"@[2] == 'a');
    assert("stage"@[3] == 'g');
    assert("stage"@[4] == 'e');
    assert("types"@[0] == 't');
    assert("types"@[1] == 'y');
    assert("types"@[2] == 'p');
    assert("types"@[3] == 'e');
    assert("types"@[4] == 's');
    assert("stage_text"@[0] == 's');
    assert("stage_text"@[1] == 't');
    assert("stage_text"@[2] == 'a');
    assert("stage_text"@[3] == 'g');
    assert("stage_text"@[4] == 'e');
    assert("stage_text"@[5] == '_');
    assert("stage_text"@[6] == 't');
    assert("stage_text"@[7] == 'e');
    assert("stage_text"@[8] == 'x');
    assert("stage_text"@[9] == 't');
    assert("resistance"@[0] == 'r');
    assert("resistance"@[1] == 'e');
    assert("resistance"@[2] == 's');
    assert("resistance"@[3] == 'i');
    assert("resistance"@[4] == 's');
    assert("resistance"@[5] == 't');
    assert("resistance"@[6] == 'a');
    assert("resistance"@[7] == 'n');
    assert("resistance"@[8] == 'c');
    assert("resistance"@[9] == 'e');
    let m = obj_of(enc_pokemon(x));
    assert(fld(m, "name"@) == Some(DocV::Text(x.name))) by { reveal(enc_pokemon); };
    assert(fld(m, "lang"@) == Some(DocV::Text(x.lang.wire_v()))) by { reveal(enc_pokemon); };
    match x.foil {
        Some(v) => {
            assert(fld(m, "foil"@) == Some(enc_foil(v))) by { reveal(enc_pokemon); };
        },
        None => {
            assert(fld(m, "foil"@) is None) by { reveal(enc_pokemon); };
        },
    }
    assert(fld(m, "size"@) == Some(DocV::Text(x.size.wire_v()))) by { reveal(enc_pokemon); };
    assert(fld(m, "back"@) == Some(DocV::Text(x.back.wire_v()))) by { reveal(enc_pokemon); };
    match x.artists {
        Some(v) => {
            assert(fld(m, "artists"@) == Some(enc_artists(v))) by { reveal(enc_pokemon); };
        },
        None => {
            assert(fld(m, "artists"@) is None) by { reveal(enc_pokemon); };
        },
    }
    assert(fld(m, "regulation_mark"@) == Some(DocV::Text(x.regulation_mark.wire_v()))) by { reveal(enc_pokemon); };
    assert(fld(m, "set_icon"@) == Some(DocV::Text(x.set_icon))) by { reveal(enc_pokemon); };
    assert(fld(m, "collector_number"@) == Some(enc_collector(x.collector_number))) by { reveal(enc_pokemon); };
    match x.rarity {
        Some(v) => {
            assert(fld(m, "rarity"@) == Some(enc_rarity(v))) by { reveal(enc_pokemon); };
        },
        None => {
            assert(fld(m, "rarity"@) is None) by { reveal(enc_pokemon); };
        },
    }
    match x.copyright {
        Some(v) => {
            assert(fld(m, "copyright"@) == Some(enc_copyright(v))) by { reveal(enc_pokemon); };
        },
        None => {
            assert(fld(m, "copyright"@) is None) by { reveal(enc_pokemon); };
        },
    }
    match x.tags {
        Some(v) => {
            assert(fld(m, "tags"@) == Some(DocV::List(enc_tag_list(v)))) by { reveal(enc_pokemon); };
        },
        None => {
            assert(fld(m, "tags"@) is None) by { reveal(enc_pokemon); };
        },
    }
    assert(fld(m, "stage"@) == Some(DocV::Text(x.stage.wire_v()))) by { reveal(enc_pokemon); };
    match x.stage_text {
        Some(v) => {
            assert(fld(m, "stage_text"@) == Some(DocV::Text(v))) by { reveal(enc_pokemon); };
        },
        None => {
            assert(fld(m, "stage_text"@) is None) by { reveal(enc_pokemon); };
        },
    }
    assert(fld(m, "hp"@) == Some(DocV::Int(x.hp as int))) by { reveal(enc_pokemon); };
    match x.weakness {
        Some(v) => {
            assert(fld(m, "weakness"@) == Some(enc_weakness(v))) by { reveal(enc_pokemon); };
        },
        None => {
            assert(fld(m, "weakness"@) is None) by { reveal(enc_pokemon); };
        },
    }
    match x.resistance {
        Some(v) => {
            assert(fld(m, "resistance"@) == Some(enc_resistance(v))) by { reveal(enc_pokemon); };
        },
        None => {
            assert(fld(m, "resistance"@) is None) by { reveal(enc_pokemon); };
        },
    }
    match x.retreat {
        Some(v) => {
            assert(fld(m, "retreat"@) == Some(DocV::Int(v as int))) by { reveal(enc_pokemon); };
        },
        None => {
            assert(fld(m, "retreat"@) is None) by { reveal(enc_pokemon); };
        },
    }
    match x.flavor_text {
        Some(v) => {
            assert(fld(m, "flavor_text"@) == Some(DocV::Text(v))) by { reveal(enc_pokemon); };
        },
        None => {
            assert(fld(m, "flavor_text"@) is None) by { reveal(enc_pokemon); };
        },
    }
    assert(fld(m, "text"@) == Some(DocV::List(enc_text_list(x.text)))) by { reveal(enc_pokemon); };
    assert(fld(m, "ext"@) == Some(enc_ext(x.ext))) by { reveal(enc_pokemon); };
    assert(fld(m, "images"@) == Some(enc_images(x.images))) by { reveal(enc_pokemon); };
    assert(fld(m, "types"@) == Some(DocV::List(enc_energy_list(x.types)))) by { reveal(enc_pokemon); };
    assert(m.dom().subset_of(pokemon_keys())) by { reveal(enc_pokemon); };
    assert(enc_pokemon(x) is Object) by { reveal(enc_pokemon); };
    assert(fld(obj_of(enc_pokemon(x)), "card_type"@) == Some(DocV::Text("POKEMON"@))) by { reveal(enc_pokemon); };

}

/// Law: re-decoding this shape's canonical document yields the value
/// again.
#[verifier::rlimit(100)]
pub proof fn lemma_pokemon_round(x: PokemonV)
    requires
        x.wf(),
    ensures
        enc_pokemon(x) == DocV::Object(obj_of(enc_pokemon(x))),
        fld(obj_of(enc_pokemon(x)), "card_type"@) == Some(DocV::Text("POKEMON"@)),
        dec_pokemon(obj_of(enc_pokemon(x))) == Ok::<PokemonV, ErrKind>(x),
{
    lemma_pokemon_fields(x);
    reveal(dec_pokemon);
    lemma_lang_wire(x.lang, Seq::empty());
    match x.foil {
        Some(v) => {
            lemma_foil_round(v);
        },
        None => {},
    }
    lemma_card_size_wire(x.size, Seq::empty());
    lemma_card_back_wire(x.back, Seq::empty());
    match x.artists {
        Some(v) => {
            lemma_artists_round(v);
        },
        None => {},
    }
    lemma_regulation_mark_wire(x.regulation_mark, Seq::empty());
    lemma_collector_round(x.collector_number);
    match x.rarity {
        Some(v) => {
            lemma_rarity_round(v);
        },
        None => {},
    }
    match x.copyright {
        Some(v) => {
            lemma_copyright_round(v);
        },
        None => {},
    }
    match x.tags {
        Some(v) => {
            lemma_tag_list_round(v);
        },
        None => {},
    }
    lemma_stage_wire(x.stage, Seq::empty());
    match x.weakness {
        Some(v) => {
            lemma_weakness_round(v);
        },
        None => {},
    }
    match x.resistance {
        Some(v) => {
            lemma_resistance_round(v);
        },
        None => {},
    }
    lemma_text_list_round(x.text);
    lemma_ext_round(x.ext);
    lemma_images_round(x.images);
    lemma_energy_list_round(x.types);
}

/// Law: re-decoding this shape's canonical document yields the value
/// again.
#[verifier::rlimit(100)]
pub proof fn lemma_item_round(x: ItemV)
    requires
        x.wf(),
    ensures
        enc_item(x) == DocV::Object(obj_of(enc_item(x))),
        fld(obj_of(enc_item(x)), "card_type"@) == Some(DocV::Text("TRAINER"@)),
        fld(obj_of(enc_item(x)), "subtype"@) == Some(DocV::Text("ITEM"@)),
        dec_item(obj_of(enc_item(x))) == Ok::<ItemV, ErrKind>(x),
{
    reveal(dec_item);
    reveal(enc_item);
    reveal_strlit("card_type");
    reveal_strlit("subtype");
    reveal_strlit("name");
    reveal_strlit("lang");
    reveal_strlit("foil");
    reveal_strlit("size");
    reveal_strlit("back");
    reveal_strlit("artists");
    reveal_strlit("regulation_mark");
    reveal_strlit("set_icon");
    reveal_strlit("collector_number");
    reveal_strlit("rarity");
    reveal_strlit("copyright");
    reveal_strlit("tags");
    reveal_strlit("stage_text");
    reveal_strlit("hp");
    reveal_strlit("flavor_text");
    reveal_strlit("text");
    reveal_strlit("ext");
    reveal_strlit("images");
    reveal_strlit("TRAINER");
    reveal_strlit("ITEM");
    assert("card_type"@.len() == 9);
    assert("subtype"@.len() == 7);
    assert("name"@.len() == 4);
    assert("lang"@.len() == 4);
    assert("foil"@.len() == 4);
    assert("size"@.len() == 4);
    assert("back"@.len() == 4);
    assert("artists"@.len() == 7);
    assert("regulation_mark"@.len() == 15);
    assert("set_icon"@.len() == 8);
    assert("collector_number"@.len() == 16);
    assert("rarity"@.len() == 6);
    assert("copyright"@.len() == 9);
    assert("tags"@.len() == 4);
    assert("stage_text"@.len() == 10);
    assert("hp"@.len() == 2);
    assert("flavor_text"@.len() == 11);
    assert("text"@.len() == 4);
    assert("ext"@.len() == 3);
    assert("images"@.len() == 6);
    assert("TRAINER"@.len() == 7);
    assert("ITEM"@.len() == 4);
    assert("card_type"@[0] == 'c');
    assert("card_type"@[1] == 'a');
    assert("card_type"@[2] == 'r');
    assert("card_type"@[3] == 'd');
    assert("card_type"@[4] == '_');
    assert("card_type"@[5] == 't');
    assert("card_type"@[6] == 'y');
    assert("card_type"@[7] == 'p');
    assert("card_type"@[8] == 'e');
    assert("copyright"@[0] == 'c');
    assert("copyright"@[1] == 'o');
    assert("copyright"@[2] == 'p');
    assert("copyright"@[3] == 'y');
    assert("copyright"@[4] == 'r');
    assert("copyright"@[5] == 'i');
    assert("copyright"@[6] == 'g');
    assert("copyright"@[7] == 'h');
    assert("copyright"@[8] == 't');
    assert("subtype"@[0] == 's');
    assert("subtype"@[1] == 'u');
    assert("subtype"@[2] == 'b');
    assert("subtype"@[3] == 't');
    assert("subtype"@[4] == 'y');
    assert("subtype"@[5] == 'p');
    assert("subtype"@[6] == 'e');
    assert("artists"@[0] == 'a');
    assert("artists"@[1] == 'r');
    assert("artists"@[2] == 't');
    assert("artists"@[3] == 'i');
    assert("artists"@[4] == 's');
    assert("artists"@[5] == 't');
    assert("artists"@[6] == 's');
    assert("TRAINER"@[0] == 'T');
    assert("TRAINER"@[1] == 'R');
    assert("TRAINER"@[2] == 'A');
    assert("TRAINER"@[3] == 'I');
    assert("TRAINER"@[4] == 'N');
    assert("TRAINER"@[5] == 'E');
    assert("TRAINER"@[6] == 'R');
    assert("name"@[0] == 'n');
    assert("name"@[1] == 'a');
    assert("name"@[2] == 'm');
    assert("name"@[3] == 'e');
    assert("lang"@[0] == 'l');
    assert("lang"@[1] == 'a');
    assert("lang"@[2] == 'n');
    assert("lang"@[3] == 'g');
    assert("foil"@[0] == 'f');
    assert("foil"@[1] == 'o');
    assert("foil"@[2] == 'i');
    assert("foil"@[3] == 'l');
    assert("size"@[0] == 's');
    assert("size"@[1] == 'i');
    assert("size"@[2] == 'z');
    assert("size"@[3] == 'e');
    assert("back"@[0] == 'b');
    assert("back"@[1] == 'a');
    assert("back"@[2] == 'c');
    assert("back"@[3] == 'k');
    assert("tags"@[0] == 't');
    assert("tags"@[1] == 'a');
    assert("tags"@[2] == 'g');
    assert("tags"@[3] == 's');
    assert("text"@[0] == 't');
    assert("text"@[1] == 'e');
    assert("text"@[2] == 'x');
    assert("text"@[3] == 't');
    assert("ITEM"@[0] == 'I');
    assert("ITEM"@[1] == 'T');
    assert("ITEM"@[2] == 'E');
    assert("ITEM"@[3] == 'M');
    assert("rarity"@[0] == 'r');
    assert("rarity"@[1] == 'a');
    assert("rarity"@[2] == 'r');
    assert("rarity"@[3] == 'i');
    assert("rarity"@[4] == 't');
    assert("rarity"@[5] == 'y');
    assert("images"@[0] == 'i');
    assert("images"@[1] == 'm');
    assert("images"@[2] == 'a');
    assert("images"@[3] == 'g');
    assert("images"@[4] == 'e');
    assert("images"@[5] == 's');
    lemma_lang_wire(x.lang, Seq::empty());
    match x.foil {
        Some(v) => {
            lemma_foil_round(v);
        },
        None => {},
    }
    lemma_card_size_wire(x.size, Seq::empty());
    lemma_card_back_wire(x.back, Seq::empty());
    match x.artists {
        Some(v) => {
            lemma_artists_round(v);
        },
        None => {},
    }
    lemma_regulation_mark_wire(x.regulation_mark, Seq::empty());
    lemma_collector_round(x.collector_number);
    match x.rarity {
        Some(v) => {
            lemma_rarity_round(v);
        },
        None => {},
    }
    match x.copyright {
        Some(v) => {
            lemma_copyright_round(v);
        },
        None => {},
    }
    match x.tags {
        Some(v) => {
            lemma_tag_list_round(v);
        },
        None => {},
    }
    lemma_text_list_round(x.text);
    lemma_ext_round(x.ext);
    lemma_images_round(x.images);
    let m = obj_of(enc_item(x));
    assert(fld(m, "name"@) == Some(DocV::Text(x.name))) by {};
    assert(fld(m, "lang"@) == Some(DocV::Text(x.lang.wire_v()))) by {};
    match x.foil {
        Some(v) => {
            assert(fld(m, "foil"@) == Some(enc_foil(v))) by {};
        },
        None => {
            assert(fld(m, "foil"@) is None) by {};
        },
    }
    assert(fld(m, "size"@) == Some(DocV::Text(x.size.wire_v()))) by {};
    assert(fld(m, "back"@) == Some(DocV::Text(x.back.wire_v()))) by {};
    match x.artists {
        Some(v) => {
            assert(fld(m, "artists"@) == Some(enc_artists(v))) by {};
        },
        None => {
            assert(fld(m, "artists"@) is None) by {};
        },
    }
    assert(fld(m, "regulation_mark"@) == Some(DocV::Text(x.regulation_mark.wire_v()))) by {};
    assert(fld(m, "set_icon"@) == Some(DocV::Text(x.set_icon))) by {};
    assert(fld(m, "collector_number"@) == Some(enc_collector(x.collector_number))) by {};
    match x.rarity {
        Some(v) => {
            assert(fld(m, "rarity"@) == Some(enc_rarity(v))) by {};
        },
        None => {
            assert(fld(m, "rarity"@) is None) by {};
        },
    }
    match x.copyright {
        Some(v) => {
            assert(fld(m, "copyright"@) == Some(enc_copyright(v))) by {};
        },
        None => {
            assert(fld(m, "copyright"@) is None) by {};
        },
    }
    match x.tags {
        Some(v) => {
            assert(fld(m, "tags"@) == Some(DocV::List(enc_tag_list(v)))) by {};
        },
        None => {
            assert(fld(m, "tags"@) is None) by {};
        },
    }
    match x.stage_text {
        Some(v) => {
            assert(fld(m, "stage_text"@) == Some(DocV::Text(v))) by {};
        },
        None => {
            assert(fld(m, "stage_text"@) is None) by {};
        },
    }
    match x.hp {
        Some(v) => {
            assert(fld(m, "hp"@) == Some(DocV::Int(v as int))) by {};
        },
        None => {
            assert(fld(m, "hp"@) is None) by {};
        },
    }
    match x.flavor_text {
        Some(v) => {
            assert(fld(m, "flavor_text"@) == Some(DocV::Text(v))) by {};
        },
        None => {
            assert(fld(m, "flavor_text"@) is None) by {};
        },
    }
    assert(fld(m, "text"@) == Some(DocV::List(enc_text_list(x.text)))) by {};
    assert(fld(m, "ext"@) == Some(enc_ext(x.ext))) by {};
    assert(fld(m, "images"@) == Some(enc_images(x.images))) by {};
    assert(m.dom().subset_of(item_keys())) by {};
    assert(enc_item(x) is Object) by {};
    assert(fld(obj_of(enc_item(x)), "card_type"@) == Some(DocV::Text("TRAINER"@))) by {};
    assert(fld(obj_of(enc_item(x)), "subtype"@) == Some(DocV::Text("ITEM"@))) by {};
}

/// Law: re-decoding this shape's canonical document yields the value
/// again.
#[verifier::rlimit(100)]
pub proof fn lemma_supporter_round(x: SupporterV)
    requires
        x.wf(),
    ensures
        enc_supporter(x) == DocV::Object(obj_of(enc_supporter(x))),
        fld(obj_of(enc_supporter(x)), "card_type"@) == Some(DocV::Text("TRAINER"@)),
        fld(obj_of(enc_supporter(x)), "subtype"@) == Some(DocV::Text("SUPPORTER"@)),
        dec_supporter(obj_of(enc_supporter(x))) == Ok::<SupporterV, ErrKind>(x),
{
    reveal(dec_supporter);
    reveal(enc_supporter);
    reveal_strlit("card_type");
    reveal_strlit("subtype");
    reveal_strlit("name");
    reveal_strlit("subtitle");
    reveal_strlit("lang");
    reveal_strlit("foil");
    reveal_strlit("size");
    reveal_strlit("back");
    reveal_strlit("artists");
    reveal_strlit("regulation_mark");
    reveal_strlit("set_icon");
    reveal_strlit("collector_number");
    reveal_strlit("rarity");
    reveal_strlit("copyright");
    reveal_strlit("tags");
    reveal_strlit("text");
    reveal_strlit("ext");
    reveal_strlit("images");
    reveal_strlit("TRAINER");
    reveal_strlit("SUPPORTER");
    assert("card_type"@.len() == 9);
    assert("subtype"@.len() == 7);
    assert("name"@.len() == 4);
    assert("subtitle"@.len() == 8);
    assert("lang"@.len() == 4);
    assert("foil"@.len() == 4);
    assert("size"@.len() == 4);
    assert("back"@.len() == 4);
    assert("artists"@.len() == 7);
    assert("regulation_mark"@.len() == 15);
    assert("set_icon"@.len() == 8);
    assert("collector_number"@.len() == 16);
    assert("rarity"@.len() == 6);
    assert("copyright"@.len() == 9);
    assert("tags"@.len() == 4);
    assert("text"@.len() == 4);
    assert("ext"@.len() == 3);
    assert("images"@.len() == 6);
    assert("TRAINER"@.len() == 7);
    assert("SUPPORTER"@.len() == 9);
    assert("card_type"@[0] == 'c');
    assert("card_type"@[1] == 'a');
    assert("card_type"@[2] == 'r');
    assert("card_type"@[3] == 'd');
    assert("card_type"@[4] == '_');
    assert("card_type"@[5] == 't');
    assert("card_type"@[6] == 'y');
    assert("card_type"@[7] == 'p');
    assert("card_type"@[8] == 'e');
    assert("copyright"@[0] == 'c');
    assert("copyright"@[1] == 'o');
    assert("copyright"@[2] == 'p');
    assert("copyright"@[3] == 'y');
    assert("copyright"@[4] == 'r');
    assert("copyright"@[5] == 'i');
    assert("copyright"@[6] == 'g');
    assert("copyright"@[7] == 'h');
    assert("copyright"@[8] == 't');
    assert("SUPPORTER"@[0] == 'S');
    assert("SUPPORTER"@[1] == 'U');
    assert("SUPPORTER"@[2] == 'P');
    assert("SUPPORTER"@[3] == 'P');
    assert("SUPPORTER"@[4] == 'O');
    assert("SUPPORTER"@[5] == 'R');
    assert("SUPPORTER"@[6] == 'T');
    assert("SUPPORTER"@[7] == 'E');
    assert("SUPPORTER"@[8] == 'R');
    assert("subtype"@[0] == 's');
    assert("subtype"@[1] == 'u');
    assert("subtype"@[2] == 'b');
    assert("subtype"@[3] == 't');
    assert("subtype"@[4] == 'y');
    assert("subtype"@[5] == 'p');
    assert("subtype"@[6] == 'e');
    assert("artists"@[0] == 'a');
    assert("artists"@[1] == 'r');
    assert("artists"@[2] == 't');
    assert("artists"@[3] == 'i');
    assert("artists"@[4] == 's');
    assert("artists"@[5] == 't');
    assert("artists"@[6] == 's');
    assert("TRAINER"@[0] == 'T');
    assert("TRAINER"@[1] == 'R');
    assert("TRAINER"@[2] == 'A');
    assert("TRAINER"@[3] == 'I');
    assert("TRAINER"@[4] == 'N');
    assert("TRAINER"@[5] == 'E');
    assert("TRAINER"@[6] == 'R');
    assert("name"@[0] == 'n');
    assert("name"@[1] == 'a');
    assert("name"@[2] == 'm');
    assert("name"@[3] == 'e');
    assert("lang"@[0] == 'l');
    assert("lang"@[1] == 'a');
    assert("lang"@[2] == 'n');
    assert("lang"@[3] == 'g');
    assert("foil"@[0] == 'f');
    assert("foil"@[1] == 'o');
    assert("foil"@[2] == 'i');
    assert("foil"@[3] == 'l');
    assert("size"@[0] == 's');
    assert("size"@[1] == 'i');
    assert("size"@[2] == 'z');
    assert("size"@[3] == 'e');
    assert("back"@[0] == 'b');
    assert("back"@[1] == 'a');
    assert("back"@[2] == 'c');
    assert("back"@[3] == 'k');
    assert("tags"@[0] == 't');
    assert("tags"@[1] == 'a');
    assert("tags"@[2] == 'g');
    assert("tags"@[3] == 's');
    assert("text"@[0] == 't');
    assert("text"@[1] == 'e');
    assert("text"@[2] == 'x');
    assert("text"@[3] == 't');
    assert("subtitle"@[0] == 's');
    assert("subtitle"@[1] == 'u');
    assert("subtitle"@[2] == 'b');
    assert("subtitle"@[3] == 't');
    assert("subtitle"@[4] == 'i');
    assert("subtitle"@[5] == 't');
    assert("subtitle"@[6] == 'l');
    assert("subtitle"@[7] == 'e');
    assert("set_icon"@[0] == 's');
    assert("set_icon"@[1] == 'e');
    assert("set_icon"@[2] == 't');
    assert("set_icon"@[3] == '_');
    assert("set_icon"@[4] == 'i');
    assert("set_icon"@[5] == 'c');
    assert("set_icon"@[6] == 'o');
    assert("set_icon"@[7] == 'n');
    assert("rarity"@[0] == 'r');
    assert("rarity"@[1] == 'a');
    assert("rarity"@[2] == 'r');
    assert("rarity"@[3] == 'i');
    assert("rarity"@[4] == 't');
    assert("rarity"@[5] == 'y');
    assert("images"@[0] == 'i');
    assert("images"@[1] == 'm');
    assert("images"@[2] == 'a');
    assert("images"@[3] == 'g');
    assert("images"@[4] == 'e');
    assert("images"@[5] == 's');
    lemma_lang_wire(x.lang, Seq::empty());
    match x.foil {
        Some(v) => {
            lemma_foil_round(v);
        },
        None => {},
    }
    lemma_card_size_wire(x.size, Seq::empty());
    lemma_card_back_wire(x.back, Seq::empty());
    match x.artists {
        Some(v) => {
            lemma_artists_round(v);
        },
        None => {},
    }
    lemma_regulation_mark_wire(x.regulation_mark, Seq::empty());
    lemma_collector_round(x.collector_number);
    match x.rarity {
        Some(v) => {
            lemma_rarity_round(v);
        },
        None => {},
    }
    match x.copyright {
        Some(v) => {
            lemma_copyright_round(v);
        },
        None => {},
    }
    match x.tags {
        Some(v) => {
            lemma_tag_list_round(v);
        },
        None => {},
    }
    lemma_text_list_round(x.text);
    lemma_ext_round(x.ext);
    lemma_images_round(x.images);
    assert(obj_of(enc_supporter(x)).dom().subset_of(supporter_keys()));
    assert(enc_supporter(x) is Object) by {};
    assert(fld(obj_of(enc_supporter(x)), "card_type"@) == Some(DocV::Text("TRAINER"@))) by {};
    assert(fld(obj_of(enc_supporter(x)), "subtype"@) == Some(DocV::Text("SUPPORTER"@))) by {};
}

/// Law: re-decoding this shape's canonical document yields the value
/// again.
#[verifier::rlimit(100)]
pub proof fn lemma_tool_round(x: ToolV)
    requires
        x.wf(),
    ensures
        enc_tool(x) == DocV::Object(obj_of(enc_tool(x))),
        fld(obj_of(enc_tool(x)), "card_type"@) == Some(DocV::Text("TRAINER"@)),
        fld(obj_of(enc_tool(x)), "subtype"@) == Some(DocV::Text("TOOL"@)),
        dec_tool(obj_of(enc_tool(x))) == Ok::<ToolV, ErrKind>(x),
{
    reveal(dec_tool);
    reveal(enc_tool);
    reveal_strlit("card_type");
    reveal_strlit("subtype");
    reveal_strlit("name");
    reveal_strlit("lang");
    reveal_strlit("foil");
    reveal_strlit("size");
    reveal_strlit("back");
    reveal_strlit("artists");
    reveal_strlit("regulation_mark");
    reveal_strlit("set_icon");
    reveal_strlit("collector_number");
    reveal_strlit("rarity");
    reveal_strlit("copyright");
    reveal_strlit("tags");
    reveal_strlit("flavor_text");
    reveal_strlit("text");
    reveal_strlit("ext");
    reveal_strlit("images");
    reveal_strlit("TRAINER");
    reveal_strlit("TOOL");
    assert("card_type"@.len() == 9);
    assert("subtype"@.len() == 7);
    assert("name"@.len() == 4);
    assert("lang"@.len() == 4);
    assert("foil"@.len() == 4);
    assert("size"@.len() == 4);
    assert("back"@.len() == 4);
    assert("artists"@.len() == 7);
    assert("regulation_mark"@.len() == 15);
    assert("set_icon"@.len() == 8);
    assert("collector_number"@.len() == 16);
    assert("rarity"@.len() == 6);
    assert("copyright"@.len() == 9);
    assert("tags"@.len() == 4);
    assert("flavor_text"@.len() == 11);
    assert("text"@.len() == 4);
    assert("ext"@.len() == 3);
    assert("images"@.len() == 6);
    assert("TRAINER"@.len() == 7);
    assert("TOOL"@.len() == 4);
    assert("card_type"@[0] == 'c');
    assert("card_type"@[1] == 'a');
    assert("card_type"@[2] == 'r');
    assert("card_type"@[3] == 'd');
    assert("card_type"@[4] == '_');
    assert("card_type"@[5] == 't');
    assert("card_type"@[6] == 'y');
    assert("card_type"@[7] == 'p');
    assert("card_type"@[8] == 'e');
    assert("copyright"@[0] == 'c');
    assert("copyright"@[1] == 'o');
    assert("copyright"@[2] == 'p');
    assert("copyright"@[3] == 'y');
    assert("copyright"@[4] == 'r');
    assert("copyright"@[5] == 'i');
    assert("copyright"@[6] == 'g');
    assert("copyright"@[7] == 'h');
    assert("copyright"@[8] == 't');
    assert("subtype"@[0] == 's');
    assert("subtype"@[1] == 'u');
    assert("subtype"@[2] == 'b');
    assert("subtype"@[3] == 't');
    assert("subtype"@[4] == 'y');
    assert("subtype"@[5] == 'p');
    assert("subtype"@[6] == 'e');
    assert("artists"@[0] == 'a');
    assert("artists"@[1] == 'r');
    assert("artists"@[2] == 't');
    assert("artists"@[3] == 'i');
    assert("artists"@[4] == 's');
    assert("artists"@[5] == 't');
    assert("artists"@[6] == 's');
    assert("TRAINER"@[0] == 'T');
    assert("TRAINER"@[1] == 'R');
    assert("TRAINER"@[2] == 'A');
    assert("TRAINER"@[3] == 'I');
    assert("TRAINER"@[4] == 'N');
    assert("TRAINER"@[5] == 'E');
    assert("TRAINER"@[6] == 'R');
    assert("name"@[0] == 'n');
    assert("name"@[1] == 'a');
    assert("name"@[2] == 'm');
    assert("name"@[3] == 'e');
    assert("lang"@[0] == 'l');
    assert("lang"@[1] == 'a');
    assert("lang"@[2] == 'n');
    assert("lang"@[3] == 'g');
    assert("foil"@[0] == 'f');
    assert("foil"@[1] == 'o');
    assert("foil"@[2] == 'i');
    assert("foil"@[3] == 'l');
    assert("size"@[0] == 's');
    assert("size"@[1] == 'i');
    assert("size"@[2] == 'z');
    assert("size"@[3] == 'e');
    assert("back"@[0] == 'b');
    assert("back"@[1] == 'a');
    assert("back"@[2] == 'c');
    assert("back"@[3] == 'k');
    assert("tags"@[0] == 't');
    assert("tags"@[1] == 'a');
    assert("tags"@[2] == 'g');
    assert("tags"@[3] == 's');
    assert("text"@[0] == 't');
    assert("text"@[1] == 'e');
    assert("text"@[2] == 'x');
    assert("text"@[3] == 't');
    assert("TOOL"@[0] == 'T');
    assert("TOOL"@[1] == 'O');
    assert("TOOL"@[2] == 'O');
    assert("TOOL"@[3] == 'L');
    assert("rarity"@[0] == 'r');
    assert("rarity"@[1] == 'a');
    assert("rarity"@[2] == 'r');
    assert("rarity"@[3] == 'i');
    assert("rarity"@[4] == 't');
    assert("rarity"@[5] == 'y');
    assert("images"@[0] == 'i');
    assert("images"@[1] == 'm');
    assert("images"@[2] == 'a');
    assert("images"@[3] == 'g');
    assert("images"@[4] == 'e');
    assert("images"@[5] == 's');
    lemma_lang_wire(x.lang, Seq::empty());
    match x.foil {
        Some(v) => {
            lemma_foil_round(v);
        },
        None => {},
    }
    lemma_card_size_wire(x.size, Seq::empty());
    lemma_card_back_wire(x.back, Seq::empty());
    match x.artists {
        Some(v) => {
            lemma_artists_round(v);
        },
        None => {},
    }
    lemma_regulation_mark_wire(x.regulation_mark, Seq::empty());
    lemma_collector_round(x.collector_number);
    match x.rarity {
        Some(v) => {
            lemma_rarity_round(v);
        },
        None => {},
    }
    match x.copyright {
        Some(v) => {
            lemma_copyright_round(v);
        },
        None => {},
    }
    match x.tags {
        Some(v) => {
            lemma_tag_list_round(v);
        },
        None => {},
    }
    lemma_text_list_round(x.text);
    lemma_ext_round(x.ext);
    lemma_images_round(x.images);
    assert(obj_of(enc_tool(x)).dom().subset_of(tool_keys()));
    assert(enc_tool(x) is Object) by {};
    assert(fld(obj_of(enc_tool(x)), "card_type"@) == Some(DocV::Text("TRAINER"@))) by {};
    assert(fld(obj_of(enc_tool(x)), "subtype"@) == Some(DocV::Text("TOOL"@))) by {};
}

/// Law: re-decoding this shape's canonical document yields the value
/// again.
#[verifier::rlimit(100)]
pub proof fn lemma_stadium_round(x: StadiumV)
    requires
        x.wf(),
    ensures
        enc_stadium(x) == DocV::Object(obj_of(enc_stadium(x))),
        fld(obj_of(enc_stadium(x)), "card_type"@) == Some(DocV::Text("TRAINER"@)),
        fld(obj_of(enc_stadium(x)), "subtype"@) == Some(DocV::Text("STADIUM"@)),
        dec_stadium(obj_of(enc_stadium(x))) == Ok::<StadiumV, ErrKind>(x),
{
    reveal(dec_stadium);
    reveal(enc_stadium);
    reveal_strlit("card_type");
    reveal_strlit("subtype");
    reveal_strlit("name");
    reveal_strlit("lang");
    reveal_strlit("foil");
    reveal_strlit("size");
    reveal_strlit("back");
    reveal_strlit("artists");
    reveal_strlit("regulation_mark");
    reveal_strlit("set_icon");
    reveal_strlit("collector_number");
    reveal_strlit("rarity");
    reveal_strlit("copyright");
    reveal_strlit("tags");
    reveal_strlit("flavor_text");
    reveal_strlit("text");
    reveal_strlit("ext");
    reveal_strlit("images");
    reveal_strlit("TRAINER");
    reveal_strlit("STADIUM");
    assert("card_type"@.len() == 9);
    assert("subtype"@.len() == 7);
    assert("name"@.len() == 4);
    assert("lang"@.len() == 4);
    assert("foil"@.len() == 4);
    assert("size"@.len() == 4);
    assert("back"@.len() == 4);
    assert("artists"@.len() == 7);
    assert("regulation_mark"@.len() == 15);
    assert("set_icon"@.len() == 8);
    assert("collector_number"@.len() == 16);
    assert("rarity"@.len() == 6);
    assert("copyright"@.len() == 9);
    assert("tags"@.len() == 4);
    assert("flavor_text"@.len() == 11);
    assert("text"@.len() == 4);
    assert("ext"@.len() == 3);
    assert("images"@.len() == 6);
    assert("TRAINER"@.len() == 7);
    assert("STADIUM"@.len() == 7);
    assert("card_type"@[0] == 'c');
    assert("card_type"@[1] == 'a');
    assert("card_type"@[2] == 'r');
    assert("card_type"@[3] == 'd');
    assert("card_type"@[4] == '_');
    assert("card_type"@[5] == 't');
    assert("card_type"@[6] == 'y');
    assert("card_type"@[7] == 'p');
    assert("card_type"@[8] == 'e');
    assert("copyright"@[0] == 'c');
    assert("copyright"@[1] == 'o');
    assert("copyright"@[2] == 'p');
    assert("copyright"@[3] == 'y');
    assert("copyright"@[4] == 'r');
    assert("copyright"@[5] == 'i');
    assert("copyright"@[6] == 'g');
    assert("copyright"@[7] == 'h');
    assert("copyright"@[8] == 't');
    assert("subtype"@[0] == 's');
    assert("subtype"@[1] == 'u');
    assert("subtype"@[2] == 'b');
    assert("subtype"@[3] == 't');
    assert("subtype"@[4] == 'y');
    assert("subtype"@[5] == 'p');
    assert("subtype"@[6] == 'e');
    assert("artists"@[0] == 'a');
    assert("artists"@[1] == 'r');
    assert("artists"@[2] == 't');
    assert("artists"@[3] == 'i');
    assert("artists"@[4] == 's');
    assert("artists"@[5] == 't');
    assert("artists"@[6] == 's');
    assert("TRAINER"@[0] == 'T');
    assert("TRAINER"@[1] == 'R');
    assert("TRAINER"@[2] == 'A');
    assert("TRAINER"@[3] == 'I');
    assert("TRAINER"@[4] == 'N');
    assert("TRAINER"@[5] == 'E');
    assert("TRAINER"@[6] == 'R');
    assert("STADIUM"@[0] == 'S');
    assert("STADIUM"@[1] == 'T');
    assert("STADIUM"@[2] == 'A');
    assert("STADIUM"@[3] == 'D');
    assert("STADIUM"@[4] == 'I');
    assert("STADIUM"@[5] == 'U');
    assert("STADIUM"@[6] == 'M');
    assert("name"@[0] == 'n');
    assert("name"@[1] == 'a');
    assert("name"@[2] == 'm');
    assert("name"@[3] == 'e');
    assert("lang"@[0] == 'l');
    assert("lang"@[1] == 'a');
    assert("lang"@[2] == 'n');
    assert("lang"@[3] == 'g');
    assert("foil"@[0] == 'f');
    assert("foil"@[1] == 'o');
    assert("foil"@[2] == 'i');
    assert("foil"@[3] == 'l');
    assert("size"@[0] == 's');
    assert("size"@[1] == 'i');
    assert("size"@[2] == 'z');
    assert("size"@[3] == 'e');
    assert("back"@[0] == 'b');
    assert("back"@[1] == 'a');
    assert("back"@[2] == 'c');
    assert("back"@[3] == 'k');
    assert("tags"@[0] == 't');
    assert("tags"@[1] == 'a');
    assert("tags"@[2] == 'g');
    assert("tags"@[3] == 's');
    assert("text"@[0] == 't');
    assert("text"@[1] == 'e');
    assert("text"@[2] == 'x');
    assert("text"@[3] == 't');
    assert("rarity"@[0] == 'r');
    assert("rarity"@[1] == 'a');
    assert("rarity"@[2] == 'r');
    assert("rarity"@[3] == 'i');
    assert("rarity"@[4] == 't');
    assert("rarity"@[5] == 'y');
    assert("images"@[0] == 'i');
    assert("images"@[1] == 'm');
    assert("images"@[2] == 'a');
    assert("images"@[3] == 'g');
    assert("images"@[4] == 'e');
    assert("images"@[5] == 's');
    lemma_lang_wire(x.lang, Seq::empty());
    match x.foil {
        Some(v) => {
            lemma_foil_round(v);
        },
        None => {},
    }
    lemma_card_size_wire(x.size, Seq::empty());
    lemma_card_back_wire(x.back, Seq::empty());
    match x.artists {
        Some(v) => {
            lemma_artists_round(v);
        },
        None => {},
    }
    lemma_regulation_mark_wire(x.regulation_mark, Seq::empty());
    lemma_collector_round(x.collector_number);
    match x.rarity {
        Some(v) => {
            lemma_rarity_round(v);
        },
        None => {},
    }
    match x.copyright {
        Some(v) => {
            lemma_copyright_round(v);
        },
        None => {},
    }
    match x.tags {
        Some(v) => {
            lemma_tag_list_round(v);
        },
        None => {},
    }
    lemma_text_list_round(x.text);
    lemma_ext_round(x.ext);
    lemma_images_round(x.images);
    assert(obj_of(enc_stadium(x)).dom().subset_of(stadium_keys()));
    assert(enc_stadium(x) is Object) by {};
    assert(fld(obj_of(enc_stadium(x)), "card_type"@) == Some(DocV::Text("TRAINER"@))) by {};
    assert(fld(obj_of(enc_stadium(x)), "subtype"@) == Some(DocV::Text("STADIUM"@))) by {};
}

/// Law: re-decoding this shape's canonical document yields the value
/// again.
#[verifier::rlimit(100)]
pub proof fn lemma_basic_energy_round(x: BasicEnergyV)
    requires
        x.wf(),
    ensures
        enc_basic_energy(x) == DocV::Object(obj_of(enc_basic_energy(x))),
        fld(obj_of(enc_basic_energy(x)), "card_type"@) == Some(DocV::Text("ENERGY"@)),
        fld(obj_of(enc_basic_energy(x)), "subtype"@) == Some(DocV::Text("BASIC"@)),
        dec_basic_energy(obj_of(enc_basic_energy(x))) == Ok::<BasicEnergyV, ErrKind>(x),
{
    reveal(dec_basic_energy);
    reveal(enc_basic_energy);
    reveal_strlit("card_type");
    reveal_strlit("subtype");
    reveal_strlit("name");
    reveal_strlit("lang");
    reveal_strlit("foil");
    reveal_strlit("size");
    reveal_strlit("back");
    reveal_strlit("set_icon");
    reveal_strlit("collector_number");
    reveal_strlit("rarity");
    reveal_strlit("copyright");
    reveal_strlit("tags");
    reveal_strlit("ext");
    reveal_strlit("images");
    reveal_strlit("types");
    reveal_strlit("ENERGY");
    reveal_strlit("BASIC");
    assert("card_type"@.len() == 9);
    assert("subtype"@.len() == 7);
    assert("name"@.len() == 4);
    assert("lang"@.len() == 4);
    assert("foil"@.len() == 4);
    assert("size"@.len() == 4);
    assert("back"@.len() == 4);
    assert("set_icon"@.len() == 8);
    assert("collector_number"@.len() == 16);
    assert("rarity"@.len() == 6);
    assert("copyright"@.len() == 9);
    assert("tags"@.len() == 4);
    assert("ext"@.len() == 3);
    assert("images"@.len() == 6);
    assert("types"@.len() == 5);
    assert("ENERGY"@.len() == 6);
    assert("BASIC"@.len() == 5);
    assert("card_type"@[0] == 'c');
    assert("card_type"@[1] == 'a');
    assert("card_type"@[2] == 'r');
    assert("card_type"@[3] == 'd');
    assert("card_type"@[4] == '_');
    assert("card_type"@[5] == 't');
    assert("card_type"@[6] == 'y');
    assert("card_type"@[7] == 'p');
    assert("card_type"@[8] == 'e');
    assert("copyright"@[0] == 'c');
    assert("copyright"@[1] == 'o');
    assert("copyright"@[2] == 'p');
    assert("copyright"@[3] == 'y');
    assert("copyright"@[4] == 'r');
    assert("copyright"@[5] == 'i');
    assert("copyright"@[6] == 'g');
    assert("copyright"@[7] == 'h');
    assert("copyright"@[8] == 't');
    assert("name"@[0] == 'n');
    assert("name"@[1] == 'a');
    assert("name"@[2] == 'm');
    assert("name"@[3] == 'e');
    assert("lang"@[0] == 'l');
    assert("lang"@[1] == 'a');
    assert("lang"@[2] == 'n');
    assert("lang"@[3] == 'g');
    assert("foil"@[0] == 'f');
    assert("foil"@[1] == 'o');
    assert("foil"@[2] == 'i');
    assert("foil"@[3] == 'l');
    assert("size"@[0] == 's');
    assert("size"@[1] == 'i');
    assert("size"@[2] == 'z');
    assert("size"@[3] == 'e');
    assert("back"@[0] == 'b');
    assert("back"@[1] == 'a');
    assert("back"@[2] == 'c');
    assert("back"@[3] == 'k');
    assert("tags"@[0] == 't');
    assert("tags"@[1] == 'a');
    assert("tags"@[2] == 'g');
    assert("tags"@[3] == 's');
    assert("rarity"@[0] == 'r');
    assert("rarity"@[1] == 'a');
    assert("rarity"@[2] == 'r');
    assert("rarity"@[3] == 'i');
    assert("rarity"@[4] == 't');
    assert("rarity"@[5] == 'y');
    assert("images"@[0] == 'i');
    assert("images"@[1] == 'm');
    assert("images"@[2] == 'a');
    assert("images"@[3] == 'g');
    assert("images"@[4] == 'e');
    assert("images"@[5] == 's');
    assert("ENERGY"@[0] == 'E');
    assert("ENERGY"@[1] == 'N');
    assert("ENERGY"@[2] == 'E');
    assert("ENERGY"@[3] == 'R');
    assert("ENERGY"@[4] == 'G');
    assert("ENERGY"@[5] == 'Y');
    assert("types"@[0] == 't');
    assert("types"@[1] == 'y');
    assert("types"@[2] == 'p');
    assert("types"@[3] == 'e');
    assert("types"@[4] == 's');
    assert("BASIC"@[0] == 'B');
    assert("BASIC"@[1] == 'A');
    assert("BASIC"@[2] == 'S');
    assert("BASIC"@[3] == 'I');
    assert("BASIC"@[4] == 'C');
    lemma_lang_wire(x.lang, Seq::empty());
    match x.foil {
        Some(v) => {
            lemma_foil_round(v);
        },
        None => {},
    }
    lemma_card_size_wire(x.size, Seq::empty());
    lemma_card_back_wire(x.back, Seq::empty());
    lemma_collector_round(x.collector_number);
    match x.rarity {
        Some(v) => {
            lemma_rarity_round(v);
        },
        None => {},
    }
    match x.copyright {
        Some(v) => {
            lemma_copyright_round(v);
        },
        None => {},
    }
    match x.tags {
        Some(v) => {
            lemma_tag_list_round(v);
        },
        None => {},
    }
    lemma_ext_round(x.ext);
    lemma_images_round(x.images);
    lemma_energy_list_round(x.types);
    assert(obj_of(enc_basic_energy(x)).dom().subset_of(basic_energy_keys()));
    assert(enc_basic_energy(x) is Object) by {};
    assert(fld(obj_of(enc_basic_energy(x)), "card_type"@) == Some(DocV::Text("ENERGY"@))) by {};
    assert(fld(obj_of(enc_basic_energy(x)), "subtype"@) == Some(DocV::Text("BASIC"@))) by {};
}

/// Law: re-decoding this shape's canonical document yields the value
/// again.
#[verifier::rlimit(100)]
pub proof fn lemma_special_energy_round(x: SpecialEnergyV)
    requires
        x.wf(),
    ensures
        enc_special_energy(x) == DocV::Object(obj_of(enc_special_energy(x))),
        fld(obj_of(enc_special_energy(x)), "card_type"@) == Some(DocV::Text("ENERGY"@)),
        fld(obj_of(enc_special_energy(x)), "subtype"@) == Some(DocV::Text("SPECIAL"@)),
        dec_special_energy(obj_of(enc_special_energy(x))) == Ok::<SpecialEnergyV, ErrKind>(x),
{
    reveal(dec_special_energy);
    reveal(enc_special_energy);
    reveal_strlit("card_type");
    reveal_strlit("subtype");
    reveal_strlit("name");
    reveal_strlit("lang");
    reveal_strlit("foil");
    reveal_strlit("size");
    reveal_strlit("back");
    reveal_strlit("regulation_mark");
    reveal_strlit("set_icon");
    reveal_strlit("collector_number");
    reveal_strlit("rarity");
    reveal_strlit("copyright");
    reveal_strlit("tags");
    reveal_strlit("flavor_text");
    reveal_strlit("text");
    reveal_strlit("ext");
    reveal_strlit("images");
    reveal_strlit("ENERGY");
    reveal_strlit("SPECIAL");
    assert("card_type"@.len() == 9);
    assert("subtype"@.len() == 7);
    assert("name"@.len() == 4);
    assert("lang"@.len() == 4);
    assert("foil"@.len() == 4);
    assert("size"@.len() == 4);
    assert("back"@.len() == 4);
    assert("regulation_mark"@.len() == 15);
    assert("set_icon"@.len() == 8);
    assert("collector_number"@.len() == 16);
    assert("rarity"@.len() == 6);
    assert("copyright"@.len() == 9);
    assert("tags"@.len() == 4);
    assert("flavor_text"@.len() == 11);
    assert("text"@.len() == 4);
    assert("ext"@.len() == 3);
    assert("images"@.len() == 6);
    assert("ENERGY"@.len() == 6);
    assert("SPECIAL"@.len() == 7);
    assert("card_type"@[0] == 'c');
    assert("card_type"@[1] == 'a');
    assert("card_type"@[2] == 'r');
    assert("card_type"@[3] == 'd');
    assert("card_type"@[4] == '_');
    assert("card_type"@[5] == 't');
    assert("card_type"@[6] == 'y');
    assert("card_type"@[7] == 'p');
    assert("card_type"@[8] == 'e');
    assert("copyright"@[0] == 'c');
    assert("copyright"@[1] == 'o');
    assert("copyright"@[2] == 'p');
    assert("copyright"@[3] == 'y');
    assert("copyright"@[4] == 'r');
    assert("copyright"@[5] == 'i');
    assert("copyright"@[6] == 'g');
    assert("copyright"@[7] == 'h');
    assert("copyright"@[8] == 't');
    assert("subtype"@[0] == 's');
    assert("subtype"@[1] == 'u');
    assert("subtype"@[2] == 'b');
    assert("subtype"@[3] == 't');
    assert("subtype"@[4] == 'y');
    assert("subtype"@[5] == 'p');
    assert("subtype"@[6] == 'e');
    assert("SPECIAL"@[0] == 'S');
    assert("SPECIAL"@[1] == 'P');
    assert("SPECIAL"@[2] == 'E');
    assert("SPECIAL"@[3] == 'C');
    assert("SPECIAL"@[4] == 'I');
    assert("SPECIAL"@[5] == 'A');
    assert("SPECIAL"@[6] == 'L');
    assert("name"@[0] == 'n');
    assert("name"@[1] == 'a');
    assert("name"@[2] == 'm');
    assert("name"@[3] == 'e');
    assert("lang"@[0] == 'l');
    assert("lang"@[1] == 'a');
    assert("lang"@[2] == 'n');
    assert("lang"@[3] == 'g');
    assert("foil"@[0] == 'f');
    assert("foil"@[1] == 'o');
    assert("foil"@[2] == 'i');
    assert("foil"@[3] == 'l');
    assert("size"@[0] == 's');
    assert("size"@[1] == 'i');
    assert("size"@[2] == 'z');
    assert("size"@[3] == 'e');
    assert("back"@[0] == 'b');
    assert("back"@[1] == 'a');
    assert("back"@[2] == 'c');
    assert("back"@[3] == 'k');
    assert("tags"@[0] == 't');
    assert("tags"@[1] == 'a');
    assert("tags"@[2] == 'g');
    assert("tags"@[3] == 's');
    assert("text"@[0] == 't');
    assert("text"@[1] == 'e');
    assert("text"@[2] == 'x');
    assert("text"@[3] == 't');
    assert("rarity"@[0] == 'r');
    assert("rarity"@[1] == 'a');
    assert("rarity"@[2] == 'r');
    assert("rarity"@[3] == 'i');
    assert("rarity"@[4] == 't');
    assert("rarity"@[5] == 'y');
    assert("images"@[0] == 'i');
    assert("images"@[1] == 'm');
    assert("images"@[2] == 'a');
    assert("images"@[3] == 'g');
    assert("images"@[4] == 'e');
    assert("images"@[5] == 's');
    assert("ENERGY"@[0] == 'E');
    assert("ENERGY"@[1] == 'N');
    assert("ENERGY"@[2] == 'E');
    assert("ENERGY"@[3] == 'R');
    assert("ENERGY"@[4] == 'G');
    assert("ENERGY"@[5] == 'Y');
    lemma_lang_wire(x.lang, Seq::empty());
    match x.foil {
        Some(v) => {
            lemma_foil_round(v);
        },
        None => {},
    }
    lemma_card_size_wire(x.size, Seq::empty());
    lemma_card_back_wire(x.back, Seq::empty());
    lemma_regulation_mark_wire(x.regulation_mark, Seq::empty());
    lemma_collector_round(x.collector_number);
    match x.rarity {
        Some(v) => {
            lemma_rarity_round(v);
        },
        None => {},
    }
    match x.copyright {
        Some(v) => {
            lemma_copyright_round(v);
        },
        None => {},
    }
    match x.tags {
        Some(v) => {
            lemma_tag_list_round(v);
        },
        None => {},
    }
    lemma_text_list_round(x.text);
    lemma_ext_round(x.ext);
    lemma_images_round(x.images);
    assert(obj_of(enc_special_energy(x)).dom().subset_of(special_energy_keys()));
    assert(enc_special_energy(x) is Object) by {};
    assert(fld(obj_of(enc_special_energy(x)), "card_type"@) == Some(DocV::Text("ENERGY"@))) by {};
    assert(fld(obj_of(enc_special_energy(x)), "subtype"@) == Some(DocV::Text("SPECIAL"@))) by {};
}

/// Law: a rule-text block round-trips through its document.
#[verifier::rlimit(100)]
pub proof fn lemma_text_round(t: TextV)
    ensures
        dec_text(enc_text(t)) == Ok::<TextV, ErrKind>(t),
{
    reveal(dec_text);
    reveal(enc_text);
    reveal_strlit("kind");
    reveal_strlit("name");
    reveal_strlit("text");
    reveal_strlit("cost");
    reveal_strlit("damage");
    reveal_strlit("ATTACK");
    reveal_strlit("ABILITY");
    reveal_strlit("RULE_BOX");
    reveal_strlit("EFFECT");
    reveal_strlit("TEXT_BOX");
    reveal_strlit("REMINDER");
    assert("kind"@.len() == 4);
    assert("name"@.len() == 4);
    assert("text"@.len() == 4);
    assert("cost"@.len() == 4);
    assert("damage"@.len() == 6);
    assert("kind"@[0] == 'k');
    assert("name"@[0] == 'n');
    assert("text"@[0] == 't');
    assert("cost"@[0] == 'c');
    assert("ATTACK"@.len() == 6);
    assert("ABILITY"@.len() == 7);
    assert("RULE_BOX"@.len() == 8);
    assert("EFFECT"@.len() == 6);
    assert("TEXT_BOX"@.len() == 8);
    assert("REMINDER"@.len() == 8);
    assert("ATTACK"@[0] == 'A');
    assert("EFFECT"@[0] == 'E');
    assert("RULE_BOX"@[0] == 'R');
    assert("TEXT_BOX"@[0] == 'T');
    assert("REMINDER"@[1] == 'E');
    assert("RULE_BOX"@[1] == 'U');
    assert("TEXT_BOX"@[1] == 'E');
    assert("REMINDER"@[0] == 'R');
    match t {
        TextV::Attack(x) => {
            lemma_attack_round(x);
        },
        TextV::Ability(x) => {
            lemma_ability_round(x);
        },
        TextV::RuleBox(x) => {
            lemma_rule_box_round(x);
        },
        TextV::Effect(x) => {
            lemma_effect_round(x);
        },
        TextV::TextBox(x) => {
            lemma_text_box_round(x);
        },
        TextV::Reminder(x) => {
            lemma_reminder_round(x);
        },
    }
}

/// Law: a rule-text list round-trips through its documents.
pub proof fn lemma_text_list_round(ts: Seq<TextV>)
    ensures
        dec_text_list(enc_text_list(ts)) == Ok::<Seq<TextV>, ErrKind>(ts),
    decreases ts.len(),
{
    if ts.len() == 0 {
        assert(ts =~= Seq::<TextV>::empty());
    }
    if ts.len() > 0 {
        lemma_text_round(ts[0]);
        lemma_text_list_round(ts.skip(1));
        assert(enc_text_list(ts).skip(1) =~= enc_text_list(ts.skip(1)));
        assert(enc_text_list(ts)[0] == enc_text(ts[0]));
        assert(seq![ts[0]] + ts.skip(1) =~= ts);
    }
}

/// Law: a well-formed card record round-trips; decoding its canonical
/// document yields the record again.
#[verifier::rlimit(100)]
pub proof fn lemma_card_round(c: CardV)
    requires
        c.wf(),
    ensures
        dec_card(enc_card(c)) == Ok::<CardV, ErrKind>(c),
{
    reveal(dec_card);
    reveal(enc_card);
    reveal_strlit("card_type");
    reveal_strlit("subtype");
    reveal_strlit("POKEMON");
    reveal_strlit("TRAINER");
    reveal_strlit("ENERGY");
    reveal_strlit("ITEM");
    reveal_strlit("SUPPORTER");
    reveal_strlit("TOOL");
    reveal_strlit("STADIUM");
    reveal_strlit("BASIC");
    reveal_strlit("SPECIAL");
    assert("card_type"@.len() == 9);
    assert("subtype"@.len() == 7);
    assert("POKEMON"@.len() == 7);
    assert("TRAINER"@.len() == 7);
    assert("ENERGY"@.len() == 6);
    assert("ITEM"@.len() == 4);
    assert("SUPPORTER"@.len() == 9);
    assert("TOOL"@.len() == 4);
    assert("STADIUM"@.len() == 7);
    assert("BASIC"@.len() == 5);
    assert("SPECIAL"@.len() == 7);
    assert("subtype"@[0] == 's');
    assert("POKEMON"@[0] == 'P');
    assert("TRAINER"@[0] == 'T');
    assert("STADIUM"@[0] == 'S');
    assert("SPECIAL"@[0] == 'S');
    assert("STADIUM"@[1] == 'T');
    assert("SPECIAL"@[1] == 'P');
    assert("ITEM"@[0] == 'I');
    assert("TOOL"@[0] == 'T');
    assert("card_type"@[0] == 'c');
    assert("SUPPORTER"@[0] == 'S');
    match c {
        CardV::Pokemon(x) => {
            lemma_pokemon_round(x);
        },
        CardV::Trainer(t) => {
            match t {
                TrainerV::Item(x) => {
                    lemma_item_round(x);
                },
                TrainerV::Supporter(x) => {
                    lemma_supporter_round(x);
                },
                TrainerV::Tool(x) => {
                    lemma_tool_round(x);
                },
                TrainerV::Stadium(x) => {
                    lemma_stadium_round(x);
                },
            }
        },
        CardV::Energy(t) => {
            match t {
                EnergyV::Basic(x) => {
                    lemma_basic_energy_round(x);
                },
                EnergyV::Special(x) => {
                    lemma_special_energy_round(x);
                },
            }
        },
    }
}

/// Law: a list of well-formed card records round-trips.
pub proof fn lemma_card_list_round(cs: Seq<CardV>)
    requires
        forall|i: int| 0 <= i < cs.len() ==> (#[trigger] cs[i]).wf(),
    ensures
        dec_card_list(enc_card_list(cs)) == Ok::<Seq<CardV>, ErrKind>(cs),
    decreases cs.len(),
{
    if cs.len() == 0 {
        assert(cs =~= Seq::<CardV>::empty());
    }
    if cs.len() > 0 {
        lemma_card_round(cs[0]);
        lemma_card_list_round(cs.skip(1));
        assert(enc_card_list(cs).skip(1) =~= enc_card_list(cs.skip(1)));
        assert(enc_card_list(cs)[0] == enc_card(cs[0]));
        assert(seq![cs[0]] + cs.skip(1) =~= cs);
    }
}

/// Law: decoding the encoding of any list of well-formed card records
/// yields the list again.
pub proof fn lemma_cards_round(cs: Seq<CardV>)
    requires
        forall|i: int| 0 <= i < cs.len() ==> (#[trigger] cs[i]).wf(),
    ensures
        dec_cards(enc_cards(cs)) == Ok::<Seq<CardV>, ErrKind>(cs),
{
    lemma_card_list_round(cs);
}

/// Every decoded collector number satisfies its invariant.
pub proof fn lemma_collector_dec_wf(m: Map<Seq<char>, DocV>, x: CollectorNumberV)
    requires
        dec_collector(m) == Ok::<CollectorNumberV, ErrKind>(x),
    ensures
        x.wf(),
{
}

/// Every decoded provider bundle satisfies its invariant.
pub proof fn lemma_tcgl_dec_wf(m: Map<Seq<char>, DocV>, x: TcglV)
    requires
        dec_tcgl(m) == Ok::<TcglV, ErrKind>(x),
    ensures
        x.wf(),
{
}

/// Every decoded extension block satisfies its invariant.
pub proof fn lemma_ext_dec_wf(m: Map<Seq<char>, DocV>, x: ExtV)
    requires
        dec_ext(m) == Ok::<ExtV, ErrKind>(x),
    ensures
        x.wf(),
{
    match fld(m, "tcgl"@) {
        Some(DocV::Object(m2)) => {
            lemma_tcgl_dec_wf(m2, x.tcgl);
        },
        _ => {},
    }
}

/// Every decoded image bundle satisfies its invariant.
pub proof fn lemma_images_dec_wf(m: Map<Seq<char>, DocV>, x: ImagesV)
    requires
        dec_images(m) == Ok::<ImagesV, ErrKind>(x),
    ensures
        x.wf(),
{
}

/// Every decoded card record satisfies its invariant.
#[verifier::rlimit(100)]
pub proof fn lemma_card_dec_wf(d: DocV, c: CardV)
    requires
        dec_card(d) == Ok::<CardV, ErrKind>(c),
    ensures
        c.wf(),
{
    reveal(dec_card);
    reveal(dec_pokemon);
    reveal(dec_item);
    reveal(dec_supporter);
    reveal(dec_tool);
    reveal(dec_stadium);
    reveal(dec_basic_energy);
    reveal(dec_special_energy);
    match d {
        DocV::Object(m) => {
            match fld(m, "collector_number"@) {
                Some(DocV::Object(m2)) => {
                    match c {
                        CardV::Pokemon(x) => {
                            lemma_collector_dec_wf(m2, x.collector_number);
                        },
                        CardV::Trainer(t) => {
                            match t {
                                TrainerV::Item(x) => {
                                    lemma_collector_dec_wf(m2, x.collector_number);
                                },
                                TrainerV::Supporter(x) => {
                                    lemma_collector_dec_wf(m2, x.collector_number);
                                },
                                TrainerV::Tool(x) => {
                                    lemma_collector_dec_wf(m2, x.collector_number);
                                },
                                TrainerV::Stadium(x) => {
                                    lemma_collector_dec_wf(m2, x.collector_number);
                                },
                            }
                        },
                        CardV::Energy(t) => {
                            match t {
                                EnergyV::Basic(x) => {
                                    lemma_collector_dec_wf(m2, x.collector_number);
                                },
                                EnergyV::Special(x) => {
                                    lemma_collector_dec_wf(m2, x.collector_number);
                                },
                            }
                        },
                    }
                },
                _ => {},
            }
            match fld(m, "ext"@) {
                Some(DocV::Object(m2)) => {
                    match c {
                        CardV::Pokemon(x) => {
                            lemma_ext_dec_wf(m2, x.ext);
                        },
                        CardV::Trainer(t) => {
                            match t {
                                TrainerV::Item(x) => {
                                    lemma_ext_dec_wf(m2, x.ext);
                                },
                                TrainerV::Supporter(x) => {
                                    lemma_ext_dec_wf(m2, x.ext);
                                },
                                TrainerV::Tool(x) => {
                                    lemma_ext_dec_wf(m2, x.ext);
                                },
                                TrainerV::Stadium(x) => {
                                    lemma_ext_dec_wf(m2, x.ext);
                                },
                            }
                        },
                        CardV::Energy(t) => {
                            match t {
                                EnergyV::Basic(x) => {
                                    lemma_ext_dec_wf(m2, x.ext);
                                },
                                EnergyV::Special(x) => {
                                    lemma_ext_dec_wf(m2, x.ext);
                                },
                            }
                        },
                    }
                },
                _ => {},
            }
        },
        _ => {},
    }
}

/// Every record of a decoded document satisfies its invariant.
pub proof fn lemma_card_list_dec_wf(s: Seq<DocV>, cs: Seq<CardV>)
    requires
        dec_card_list(s) == Ok::<Seq<CardV>, ErrKind>(cs),
    ensures
        forall|i: int| 0 <= i < cs.len() ==> (#[trigger] cs[i]).wf(),
    decreases s.len(),
{
    if s.len() > 0 {
        match dec_card(s[0]) {
            Ok(t) => {
                match dec_card_list(s.skip(1)) {
                    Ok(ts) => {
                        lemma_card_dec_wf(s[0], t);
                        lemma_card_list_dec_wf(s.skip(1), ts);
                        assert(cs =~= seq![t] + ts);
                        assert forall|i: int| 0 <= i < cs.len() implies (#[trigger] cs[i]).wf() by {
                            if i == 0 {
                                assert(cs[0] == t);
                            } else {
                                assert(cs[i] == ts[i - 1]);
                            }
                        }
                    },
                    Err(_) => {},
                }
            },
            Err(_) => {},
        }
    }
}

/// Law: re-decode stability. Whatever a valid document decodes to, the
/// encoding of that value decodes to the same value.
pub proof fn lemma_redecode_stable(d: DocV, cs: Seq<CardV>)
    requires
        dec_cards(d) == Ok::<Seq<CardV>, ErrKind>(cs),
    ensures
        dec_cards(enc_cards(cs)) == Ok::<Seq<CardV>, ErrKind>(cs),
{
    match d {
        DocV::List(s) => {
            lemma_card_list_dec_wf(s, cs);
        },
        _ => {},
    }
    lemma_cards_round(cs);
}

/// Law: unknown-field rejection. Adding any key that no card shape
/// declares to a record object that otherwise decodes makes the decode
/// fail as an unknown field.
#[verifier::rlimit(100)]
pub proof fn lemma_unknown_field_rejected(m: Map<Seq<char>, DocV>, k: Seq<char>, v: DocV)
    requires
        dec_card(DocV::Object(m)) is Ok,
        !pokemon_keys().contains(k),
        !item_keys().contains(k),
        !supporter_keys().contains(k),
        !tool_keys().contains(k),
        !stadium_keys().contains(k),
        !basic_energy_keys().contains(k),
        !special_energy_keys().contains(k),
    ensures
        dec_card(DocV::Object(m.insert(k, v))) == Err::<CardV, ErrKind>(ErrKind::UnknownField),
{
    reveal(dec_card);
    reveal(dec_pokemon);
    reveal(dec_item);
    reveal(dec_supporter);
    reveal(dec_tool);
    reveal(dec_stadium);
    reveal(dec_basic_energy);
    reveal(dec_special_energy);
    assert(!m.insert(k, v).dom().subset_of(pokemon_keys()));
    assert(!m.insert(k, v).dom().subset_of(item_keys()));
    assert(!m.insert(k, v).dom().subset_of(supporter_keys()));
    assert(!m.insert(k, v).dom().subset_of(tool_keys()));
    assert(!m.insert(k, v).dom().subset_of(stadium_keys()));
    assert(!m.insert(k, v).dom().subset_of(basic_energy_keys()));
    assert(!m.insert(k, v).dom().subset_of(special_energy_keys()));
}

/// Law: exhaustive variant rejection. A top-level discriminator outside
/// the closed tag set fails as an unknown variant.
pub proof fn lemma_unknown_variant_rejected(m: Map<Seq<char>, DocV>, tag: Seq<char>)
    requires
        d_req_str(m, "card_type"@) == Ok::<Seq<char>, ErrKind>(tag),
        tag != "POKEMON"@,
        tag != "TRAINER"@,
        tag != "ENERGY"@,
    ensures
        dec_card(DocV::Object(m)) == Err::<CardV, ErrKind>(ErrKind::UnknownVariant),
{
    reveal(dec_card);
}

/// Law: optional-field omission on encode. A creature record without a
/// foil treatment encodes to a document with no foil key at all (rather
/// than a null one).
pub proof fn lemma_optional_omitted(p: PokemonV)
    requires
        p.foil is None,
    ensures
        !obj_of(enc_pokemon(p)).contains_key("foil"@),
{
    reveal(enc_pokemon);
    reveal_strlit("foil");
    reveal_strlit("card_type");
    reveal_strlit("name");
    reveal_strlit("lang");
    reveal_strlit("size");
    reveal_strlit("back");
    reveal_strlit("artists");
    reveal_strlit("regulation_mark");
    reveal_strlit("set_icon");
    reveal_strlit("collector_number");
    reveal_strlit("rarity");
    reveal_strlit("copyright");
    reveal_strlit("tags");
    reveal_strlit("stage");
    reveal_strlit("stage_text");
    reveal_strlit("hp");
    reveal_strlit("weakness");
    reveal_strlit("resistance");
    reveal_strlit("retreat");
    reveal_strlit("flavor_text");
    reveal_strlit("text");
    reveal_strlit("ext");
    reveal_strlit("images");
    reveal_strlit("types");
    assert("foil"@.len() == 4);
    assert("card_type"@.len() == 9);
    assert("name"@.len() == 4);
    assert("lang"@.len() == 4);
    assert("size"@.len() == 4);
    assert("back"@.len() == 4);
    assert("tags"@.len() == 4);
    assert("text"@.len() == 4);
    assert("foil"@[0] == 'f');
    assert("name"@[0] == 'n');
    assert("lang"@[0] == 'l');
    assert("size"@[0] == 's');
    assert("back"@[0] == 'b');
    assert("tags"@[0] == 't');
    assert("text"@[0] == 't');
    assert("tags"@[1] == 'a');
    assert("text"@[1] == 'e');
    assert("ext"@.len() == 3);
    assert("hp"@.len() == 2);
    assert("stage"@.len() == 5);
    assert("types"@.len() == 5);
    assert("stage"@[0] == 's');
    assert("types"@[0] == 't');
    assert("rarity"@.len() == 6);
    assert("images"@.len() == 6);
    assert("rarity"@[0] == 'r');
    assert("images"@[0] == 'i');
    assert("artists"@.len() == 7);
    assert("retreat"@.len() == 7);
    assert("artists"@[0] == 'a');
    assert("retreat"@[0] == 'r');
    assert("weakness"@.len() == 8);
    assert("copyright"@.len() == 9);
    assert("copyright"@[0] == 'c');
    assert("card_type"@[0] == 'c');
    assert("copyright"@[1] == 'o');
    assert("card_type"@[1] == 'a');
    assert("stage_text"@.len() == 10);
    assert("resistance"@.len() == 10);
    assert("stage_text"@[0] == 's');
    assert("resistance"@[0] == 'r');
    assert("flavor_text"@.len() == 11);
    assert("regulation_mark"@.len() == 15);
    assert("set_icon"@.len() == 8);
    assert("set_icon"@[0] == 's');
    assert("weakness"@[0] == 'w');
    assert("collector_number"@.len() == 16);
}

} // verus!
