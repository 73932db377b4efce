//! Decoders for the card shapes and the root discriminated dispatch: the
//! top-level kind tag selects creature, trainer or energy; trainer and
//! energy then dispatch again on their own subkind tag.

use vstd::prelude::*;
use crate::dec::d_opt_str;
use crate::dec::d_opt_u8;
use crate::dec::d_opt_nz_u16;
use crate::dec::d_req_nz_u16;
use crate::dec::d_req_str;
use crate::dec::entries_wf;
use crate::dec::get_opt_str;
use crate::dec::get_opt_u8;
use crate::dec::get_opt_nz_u16;
use crate::dec::get_req_nz_u16;
use crate::dec::get_req_str;
use crate::dec::outcome_v;
use crate::dec::the_err;
use crate::dec::the_ok;
use crate::dec_parts::d_opt_artists;
use crate::dec_parts::d_opt_copyright;
use crate::dec_parts::d_opt_foil;
use crate::dec_parts::d_opt_rarity;
use crate::dec_parts::d_opt_resistance;
use crate::dec_parts::d_opt_tags;
use crate::dec_parts::d_opt_weakness;
use crate::dec_parts::d_req_collector;
use crate::dec_parts::d_req_energy_list;
use crate::dec_parts::d_req_lang;
use crate::dec_parts::d_req_back;
use crate::dec_parts::d_req_reg;
use crate::dec_parts::d_req_size;
use crate::dec_parts::d_req_stage;
use crate::dec_parts::get_opt_artists;
use crate::dec_parts::get_opt_copyright;
use crate::dec_parts::get_opt_foil;
use crate::dec_parts::get_opt_rarity;
use crate::dec_parts::get_opt_resistance;
use crate::dec_parts::get_opt_tags;
use crate::dec_parts::get_opt_weakness;
use crate::dec_parts::get_req_collector;
use crate::dec_parts::get_req_energy_list;
use crate::dec_parts::get_req_lang;
use crate::dec_parts::get_req_back;
use crate::dec_parts::get_req_reg;
use crate::dec_parts::get_req_size;
use crate::dec_parts::get_req_stage;
use crate::dec_text::d_req_ext;
use crate::dec_text::d_req_images;
use crate::dec_text::d_req_texts;
use crate::dec_text::get_req_ext;
use crate::dec_text::get_req_images;
use crate::dec_text::get_req_texts;
use crate::doc::Doc;
use crate::doc::DocV;
use crate::doc::entries_view;
use crate::doc::lemma_entries_view_dom;
use crate::doc::lemma_entries_view_index;
use crate::doc::lemma_list_view_index;
use crate::doc::lemma_list_view_len;
use crate::doc::list_view;
use crate::err::DecodeError;
use crate::err::ErrKind;
use crate::types::BasicEnergy;
use crate::types::BasicEnergyV;
use crate::types::Card;
use crate::types::CardV;
use crate::types::Energy;
use crate::types::EnergyV;
use crate::types::Item;
use crate::types::ItemV;
use crate::types::Pokemon;
use crate::types::PokemonV;
use crate::types::SpecialEnergy;
use crate::types::SpecialEnergyV;
use crate::types::Stadium;
use crate::types::StadiumV;
use crate::types::Supporter;
use crate::types::SupporterV;
use crate::types::Tool;
use crate::types::ToolV;
use crate::types::Trainer;
use crate::types::TrainerV;
use crate::types::cards_view;
use crate::util::key_is;
use crate::util::str_eq;

verus! {

broadcast use {
    vstd::seq::group_seq_axioms,
    vstd::map::group_map_axioms,
    vstd::set::group_set_axioms,
    vstd::std_specs::vec::group_vec_axioms,
};

/// The creature shape's declared keys, the two discriminators included.
pub open spec fn pokemon_keys() -> Set<Seq<char>> {
    set![
        "card_type"@,
        "name"@,
        "lang"@,
        "foil"@,
        "size"@,
        "back"@,
        "artists"@,
        "regulation_mark"@,
        "set_icon"@,
        "collector_number"@,
        "rarity"@,
        "copyright"@,
        "tags"@,
        "stage"@,
        "stage_text"@,
        "hp"@,
        "weakness"@,
        "resistance"@,
        "retreat"@,
        "flavor_text"@,
        "text"@,
        "ext"@,
        "images"@,
        "types"@,
    ]
}

#[verifier::opaque]
pub open spec fn dec_pokemon(m: Map<Seq<char>, DocV>) -> Result<PokemonV, ErrKind> {
    if !m.dom().subset_of(pokemon_keys()) {
        Err(ErrKind::UnknownField)
    } else {
        let f_name = d_req_str(m, "name"@);
        let f_lang = d_req_lang(m, "lang"@);
        let f_foil = d_opt_foil(m, "foil"@);
        let f_size = d_req_size(m, "size"@);
        let f_back = d_req_back(m, "back"@);
        let f_artists = d_opt_artists(m, "artists"@);
        let f_reg = d_req_reg(m, "regulation_mark"@);
        let f_icon = d_req_str(m, "set_icon"@);
        let f_coll = d_req_collector(m, "collector_number"@);
        let f_rarity = d_opt_rarity(m, "rarity"@);
        let f_copy = d_opt_copyright(m, "copyright"@);
        let f_tags = d_opt_tags(m, "tags"@);
        let f_stage = d_req_stage(m, "stage"@);
        let f_stage_text = d_opt_str(m, "stage_text"@);
        let f_hp = d_req_nz_u16(m, "hp"@);
        let f_weak = d_opt_weakness(m, "weakness"@);
        let f_res = d_opt_resistance(m, "resistance"@);
        let f_retreat = d_opt_u8(m, "retreat"@);
        let f_flavor = d_opt_str(m, "flavor_text"@);
        let f_text = d_req_texts(m, "text"@);
        let f_ext = d_req_ext(m, "ext"@);
        let f_images = d_req_images(m, "images"@);
        let f_types = d_req_energy_list(m, "types"@);
        if f_name is Err {
            Err(the_err(f_name))
        } else if f_lang is Err {
            Err(the_err(f_lang))
        } else if f_foil is Err {
            Err(the_err(f_foil))
        } else if f_size is Err {
            Err(the_err(f_size))
        } else if f_back is Err {
            Err(the_err(f_back))
        } else if f_artists is Err {
            Err(the_err(f_artists))
        } else if f_reg is Err {
            Err(the_err(f_reg))
        } else if f_icon is Err {
            Err(the_err(f_icon))
        } else if f_coll is Err {
            Err(the_err(f_coll))
        } else if f_rarity is Err {
            Err(the_err(f_rarity))
        } else if f_copy is Err {
            Err(the_err(f_copy))
        } else if f_tags is Err {
            Err(the_err(f_tags))
        } else if f_stage is Err {
            Err(the_err(f_stage))
        } else if f_stage_text is Err {
            Err(the_err(f_stage_text))
        } else if f_hp is Err {
            Err(the_err(f_hp))
        } else if f_weak is Err {
            Err(the_err(f_weak))
        } else if f_res is Err {
            Err(the_err(f_res))
        } else if f_retreat is Err {
            Err(the_err(f_retreat))
        } else if f_flavor is Err {
            Err(the_err(f_flavor))
        } else if f_text is Err {
            Err(the_err(f_text))
        } else if f_ext is Err {
            Err(the_err(f_ext))
        } else if f_images is Err {
            Err(the_err(f_images))
        } else if f_types is Err {
            Err(the_err(f_types))
        } else {
            Ok(
                PokemonV {
                    name: the_ok(f_name),
                    lang: the_ok(f_lang),
                    foil: the_ok(f_foil),
                    size: the_ok(f_size),
                    back: the_ok(f_back),
                    artists: the_ok(f_artists),
                    regulation_mark: the_ok(f_reg),
                    set_icon: the_ok(f_icon),
                    collector_number: the_ok(f_coll),
                    rarity: the_ok(f_rarity),
                    copyright: the_ok(f_copy),
                    tags: the_ok(f_tags),
                    stage: the_ok(f_stage),
                    stage_text: the_ok(f_stage_text),
                    hp: the_ok(f_hp),
                    weakness: the_ok(f_weak),
                    resistance: the_ok(f_res),
                    retreat: the_ok(f_retreat),
                    flavor_text: the_ok(f_flavor),
                    text: the_ok(f_text),
                    ext: the_ok(f_ext),
                    images: the_ok(f_images),
                    types: the_ok(f_types),
                },
            )
        }
    }
}

#[verifier::rlimit(100)]
pub fn decode_pokemon(es: &Vec<(String, Doc)>) -> (r: Result<Pokemon, DecodeError>)
    requires
        entries_wf(es@),
    ensures
        outcome_v(r) == dec_pokemon(entries_view(es@)),
{
    reveal(dec_pokemon);
    let ghost m = entries_view(es@);
    let mut i: usize = 0;
    while i < es.len()
        invariant
            entries_wf(es@),
            m == entries_view(es@),
            0 <= i <= es@.len(),
            forall|j: int| 0 <= j < i ==> pokemon_keys().contains(#[trigger] es@[j].0@),
        decreases es@.len() - i,
    {
        let k = &es[i].0;
        if !(key_is(k, "card_type") || key_is(k, "name") || key_is(k, "lang") || key_is(k, "foil")
            || key_is(k, "size") || key_is(k, "back") || key_is(k, "artists") || key_is(
            k,
            "regulation_mark",
        ) || key_is(k, "set_icon") || key_is(k, "collector_number") || key_is(k, "rarity")
            || key_is(k, "copyright") || key_is(k, "tags") || key_is(k, "stage") || key_is(
            k,
            "stage_text",
        ) || key_is(k, "hp") || key_is(k, "weakness") || key_is(k, "resistance") || key_is(
            k,
            "retreat",
        ) || key_is(k, "flavor_text") || key_is(k, "text") || key_is(k, "ext") || key_is(
            k,
            "images",
        ) || key_is(k, "types")) {
            proof {
                reveal(dec_pokemon);
                lemma_entries_view_index(es@, i as int);
            }
            return Err(DecodeError::at_key(ErrKind::UnknownField, k));
        }
        i = i + 1;
    }
    proof {
        assert forall|k2: Seq<char>| m.dom().contains(k2) implies pokemon_keys().contains(k2) by {
            lemma_entries_view_dom(es@, k2);
        }
    }
    let name = match get_req_str(es, "name") {
        Ok(v) => v,
        Err(e) => {
            return Err(e);
        },
    };
    let lang = match get_req_lang(es, "lang") {
        Ok(v) => v,
        Err(e) => {
            return Err(e);
        },
    };
    let foil = match get_opt_foil(es, "foil") {
        Ok(v) => v,
        Err(e) => {
            return Err(e);
        },
    };
    let size = match get_req_size(es, "size") {
        Ok(v) => v,
        Err(e) => {
            return Err(e);
        },
    };
    let back = match get_req_back(es, "back") {
        Ok(v) => v,
        Err(e) => {
            return Err(e);
        },
    };
    let artists = match get_opt_artists(es, "artists") {
        Ok(v) => v,
        Err(e) => {
            return Err(e);
        },
    };
    let regulation_mark = match get_req_reg(es, "regulation_mark") {
        Ok(v) => v,
        Err(e) => {
            return Err(e);
        },
    };
    let set_icon = match get_req_str(es, "set_icon") {
        Ok(v) => v,
        Err(e) => {
            return Err(e);
        },
    };
    let collector_number = match get_req_collector(es, "collector_number") {
        Ok(v) => v,
        Err(e) => {
            return Err(e);
        },
    };
    let rarity = match get_opt_rarity(es, "rarity") {
        Ok(v) => v,
        Err(e) => {
            return Err(e);
        },
    };
    let copyright = match get_opt_copyright(es, "copyright") {
        Ok(v) => v,
        Err(e) => {
            return Err(e);
        },
    };
    let tags = match get_opt_tags(es, "tags") {
        Ok(v) => v,
        Err(e) => {
            return Err(e);
        },
    };
    let stage = match get_req_stage(es, "stage") {
        Ok(v) => v,
        Err(e) => {
            return Err(e);
        },
    };
    let stage_text = match get_opt_str(es, "stage_text") {
        Ok(v) => v,
        Err(e) => {
            return Err(e);
        },
    };
    let hp = match get_req_nz_u16(es, "hp") {
        Ok(v) => v,
        Err(e) => {
            return Err(e);
        },
    };
    let weakness = match get_opt_weakness(es, "weakness") {
        Ok(v) => v,
        Err(e) => {
            return Err(e);
        },
    };
    let resistance = match get_opt_resistance(es, "resistance") {
        Ok(v) => v,
        Err(e) => {
            return Err(e);
        },
    };
    let retreat = match get_opt_u8(es, "retreat") {
        Ok(v) => v,
        Err(e) => {
            return Err(e);
        },
    };
    let flavor_text = match get_opt_str(es, "flavor_text") {
        Ok(v) => v,
        Err(e) => {
            return Err(e);
        },
    };
    let text = match get_req_texts(es, "text") {
        Ok(v) => v,
        Err(e) => {
            return Err(e);
        },
    };
    let ext = match get_req_ext(es, "ext") {
        Ok(v) => v,
        Err(e) => {
            return Err(e);
        },
    };
    let images = match get_req_images(es, "images") {
        Ok(v) => v,
        Err(e) => {
            return Err(e);
        },
    };
    let types = match get_req_energy_list(es, "types") {
        Ok(v) => v,
        Err(e) => {
            return Err(e);
        },
    };
    Ok(
        Pokemon {
            name,
            lang,
            foil,
            size,
            back,
            artists,
            regulation_mark,
            set_icon,
            collector_number,
            rarity,
            copyright,
            tags,
            stage,
            stage_text,
            hp,
            weakness,
            resistance,
            retreat,
            flavor_text,
            text,
            ext,
            images,
            types,
        },
    )
}

/// The item shape's declared keys.
pub open spec fn item_keys() -> Set<Seq<char>> {
    set![
        "card_type"@,
        "subtype"@,
        "name"@,
        "lang"@,
        "foil"@,
        "size"@,
        "back"@,
        "artists"@,
        "regulation_mark"@,
        "set_icon"@,
        "collector_number"@,
        "rarity"@,
        "copyright"@,
        "tags"@,
        "stage_text"@,
        "hp"@,
        "flavor_text"@,
        "text"@,
        "ext"@,
        "images"@,
    ]
}

#[verifier::opaque]
pub open spec fn dec_item(m: Map<Seq<char>, DocV>) -> Result<ItemV, ErrKind> {
    if !m.dom().subset_of(item_keys()) {
        Err(ErrKind::UnknownField)
    } else {
        let f_name = d_req_str(m, "name"@);
        let f_lang = d_req_lang(m, "lang"@);
        let f_foil = d_opt_foil(m, "foil"@);
        let f_size = d_req_size(m, "size"@);
        let f_back = d_req_back(m, "back"@);
        let f_artists = d_opt_artists(m, "artists"@);
        let f_reg = d_req_reg(m, "regulation_mark"@);
        let f_icon = d_req_str(m, "set_icon"@);
        let f_coll = d_req_collector(m, "collector_number"@);
        let f_rarity = d_opt_rarity(m, "rarity"@);
        let f_copy = d_opt_copyright(m, "copyright"@);
        let f_tags = d_opt_tags(m, "tags"@);
        let f_stage_text = d_opt_str(m, "stage_text"@);
        let f_hp = d_opt_nz_u16(m, "hp"@);
        let f_flavor = d_opt_str(m, "flavor_text"@);
        let f_text = d_req_texts(m, "text"@);
        let f_ext = d_req_ext(m, "ext"@);
        let f_images = d_req_images(m, "images"@);
        if f_name is Err {
            Err(the_err(f_name))
        } else if f_lang is Err {
            Err(the_err(f_lang))
        } else if f_foil is Err {
            Err(the_err(f_foil))
        } else if f_size is Err {
            Err(the_err(f_size))
        } else if f_back is Err {
            Err(the_err(f_back))
        } else if f_artists is Err {
            Err(the_err(f_artists))
        } else if f_reg is Err {
            Err(the_err(f_reg))
        } else if f_icon is Err {
            Err(the_err(f_icon))
        } else if f_coll is Err {
            Err(the_err(f_coll))
        } else if f_rarity is Err {
            Err(the_err(f_rarity))
        } else if f_copy is Err {
            Err(the_err(f_copy))
        } else if f_tags is Err {
            Err(the_err(f_tags))
        } else if f_stage_text is Err {
            Err(the_err(f_stage_text))
        } else if f_hp is Err {
            Err(the_err(f_hp))
        } else if f_flavor is Err {
            Err(the_err(f_flavor))
        } else if f_text is Err {
            Err(the_err(f_text))
        } else if f_ext is Err {
            Err(the_err(f_ext))
        } else if f_images is Err {
            Err(the_err(f_images))
        } else {
            Ok(
                ItemV {
                    name: the_ok(f_name),
                    lang: the_ok(f_lang),
                    foil: the_ok(f_foil),
                    size: the_ok(f_size),
                    back: the_ok(f_back),
                    artists: the_ok(f_artists),
                    regulation_mark: the_ok(f_reg),
                    set_icon: the_ok(f_icon),
                    collector_number: the_ok(f_coll),
                    rarity: the_ok(f_rarity),
                    copyright: the_ok(f_copy),
                    tags: the_ok(f_tags),
                    stage_text: the_ok(f_stage_text),
                    hp: the_ok(f_hp),
                    flavor_text: the_ok(f_flavor),
                    text: the_ok(f_text),
                    ext: the_ok(f_ext),
                    images: the_ok(f_images),
                },
            )
        }
    }
}

#[verifier::rlimit(100)]
pub fn decode_item(es: &Vec<(String, Doc)>) -> (r: Result<Item, DecodeError>)
    requires
        entries_wf(es@),
    ensures
        outcome_v(r) == dec_item(entries_view(es@)),
{
    reveal(dec_item);
    let ghost m = entries_view(es@);
    let mut i: usize = 0;
    while i < es.len()
        invariant
            entries_wf(es@),
            m == entries_view(es@),
            0 <= i <= es@.len(),
            forall|j: int| 0 <= j < i ==> item_keys().contains(#[trigger] es@[j].0@),
        decreases es@.len() - i,
    {
        let k = &es[i].0;
        if !(key_is(k, "card_type") || key_is(k, "subtype") || key_is(k, "name") || key_is(
            k,
            "lang",
        ) || key_is(k, "foil") || key_is(k, "size") || key_is(k, "back") || key_is(k, "artists")
            || key_is(k, "regulation_mark") || key_is(k, "set_icon") || key_is(
            k,
            "collector_number",
        ) || key_is(k, "rarity") || key_is(k, "copyright") || key_is(k, "tags") || key_is(
            k,
            "stage_text",
        ) || key_is(k, "hp") || key_is(k, "flavor_text") || key_is(k, "text") || key_is(k, "ext")
            || key_is(k, "images")) {
            proof {
                reveal(dec_item);
                lemma_entries_view_index(es@, i as int);
            }
            return Err(DecodeError::at_key(ErrKind::UnknownField, k));
        }
        i = i + 1;
    }
    proof {
        assert forall|k2: Seq<char>| m.dom().contains(k2) implies item_keys().contains(k2) by {
            lemma_entries_view_dom(es@, k2);
        }
    }
    let name = match get_req_str(es, "name") {
        Ok(v) => v,
        Err(e) => {
            return Err(e);
        },
    };
    let lang = match get_req_lang(es, "lang") {
        Ok(v) => v,
        Err(e) => {
            return Err(e);
        },
    };
    let foil = match get_opt_foil(es, "foil") {
        Ok(v) => v,
        Err(e) => {
            return Err(e);
        },
    };
    let size = match get_req_size(es, "size") {
        Ok(v) => v,
        Err(e) => {
            return Err(e);
        },
    };
    let back = match get_req_back(es, "back") {
        Ok(v) => v,
        Err(e) => {
            return Err(e);
        },
    };
    let artists = match get_opt_artists(es, "artists") {
        Ok(v) => v,
        Err(e) => {
            return Err(e);
        },
    };
    let regulation_mark = match get_req_reg(es, "regulation_mark") {
        Ok(v) => v,
        Err(e) => {
            return Err(e);
        },
    };
    let set_icon = match get_req_str(es, "set_icon") {
        Ok(v) => v,
        Err(e) => {
            return Err(e);
        },
    };
    let collector_number = match get_req_collector(es, "collector_number") {
        Ok(v) => v,
        Err(e) => {
            return Err(e);
        },
    };
    let rarity = match get_opt_rarity(es, "rarity") {
        Ok(v) => v,
        Err(e) => {
            return Err(e);
        },
    };
    let copyright = match get_opt_copyright(es, "copyright") {
        Ok(v) => v,
        Err(e) => {
            return Err(e);
        },
    };
    let tags = match get_opt_tags(es, "tags") {
        Ok(v) => v,
        Err(e) => {
            return Err(e);
        },
    };
    let stage_text = match get_opt_str(es, "stage_text") {
        Ok(v) => v,
        Err(e) => {
            return Err(e);
        },
    };
    let hp = match get_opt_nz_u16(es, "hp") {
        Ok(v) => v,
        Err(e) => {
            return Err(e);
        },
    };
    let flavor_text = match get_opt_str(es, "flavor_text") {
        Ok(v) => v,
        Err(e) => {
            return Err(e);
        },
    };
    let text = match get_req_texts(es, "text") {
        Ok(v) => v,
        Err(e) => {
            return Err(e);
        },
    };
    let ext = match get_req_ext(es, "ext") {
        Ok(v) => v,
        Err(e) => {
            return Err(e);
        },
    };
    let images = match get_req_images(es, "images") {
        Ok(v) => v,
        Err(e) => {
            return Err(e);
        },
    };
    Ok(
        Item {
            name,
            lang,
            foil,
            size,
            back,
            artists,
            regulation_mark,
            set_icon,
            collector_number,
            rarity,
            copyright,
            tags,
            stage_text,
            hp,
            flavor_text,
            text,
            ext,
            images,
        },
    )
}


/// The supporter shape.
pub open spec fn supporter_keys() -> Set<Seq<char>> {
    set![
        "card_type"@,
        "subtype"@,
        "name"@,
        "subtitle"@,
        "lang"@,
        "foil"@,
        "size"@,
        "back"@,
        "artists"@,
        "regulation_mark"@,
        "set_icon"@,
        "collector_number"@,
        "rarity"@,
        "copyright"@,
        "tags"@,
        "text"@,
        "ext"@,
        "images"@,
    ]
}

#[verifier::opaque]
pub open spec fn dec_supporter(m: Map<Seq<char>, DocV>) -> Result<SupporterV, ErrKind> {
    if !m.dom().subset_of(supporter_keys()) {
        Err(ErrKind::UnknownField)
    } else {
        let f_name = d_req_str(m, "name"@);
        let f_subtitle = d_opt_str(m, "subtitle"@);
        let f_lang = d_req_lang(m, "lang"@);
        let f_foil = d_opt_foil(m, "foil"@);
        let f_size = d_req_size(m, "size"@);
        let f_back = d_req_back(m, "back"@);
        let f_artists = d_opt_artists(m, "artists"@);
        let f_regulation_mark = d_req_reg(m, "regulation_mark"@);
        let f_set_icon = d_req_str(m, "set_icon"@);
        let f_collector_number = d_req_collector(m, "collector_number"@);
        let f_rarity = d_opt_rarity(m, "rarity"@);
        let f_copyright = d_opt_copyright(m, "copyright"@);
        let f_tags = d_opt_tags(m, "tags"@);
        let f_text = d_req_texts(m, "text"@);
        let f_ext = d_req_ext(m, "ext"@);
        let f_images = d_req_images(m, "images"@);
        if f_name is Err {
            Err(the_err(f_name))
        } else if f_subtitle is Err {
            Err(the_err(f_subtitle))
        } else if f_lang is Err {
            Err(the_err(f_lang))
        } else if f_foil is Err {
            Err(the_err(f_foil))
        } else if f_size is Err {
            Err(the_err(f_size))
        } else if f_back is Err {
            Err(the_err(f_back))
        } else if f_artists is Err {
            Err(the_err(f_artists))
        } else if f_regulation_mark is Err {
            Err(the_err(f_regulation_mark))
        } else if f_set_icon is Err {
            Err(the_err(f_set_icon))
        } else if f_collector_number is Err {
            Err(the_err(f_collector_number))
        } else if f_rarity is Err {
            Err(the_err(f_rarity))
        } else if f_copyright is Err {
            Err(the_err(f_copyright))
        } else if f_tags is Err {
            Err(the_err(f_tags))
        } else if f_text is Err {
            Err(the_err(f_text))
        } else if f_ext is Err {
            Err(the_err(f_ext))
        } else if f_images is Err {
            Err(the_err(f_images))
        } else {
            Ok(
                SupporterV {
                    name: the_ok(f_name),
                    subtitle: the_ok(f_subtitle),
                    lang: the_ok(f_lang),
                    foil: the_ok(f_foil),
                    size: the_ok(f_size),
                    back: the_ok(f_back),
                    artists: the_ok(f_artists),
                    regulation_mark: the_ok(f_regulation_mark),
                    set_icon: the_ok(f_set_icon),
                    collector_number: the_ok(f_collector_number),
                    rarity: the_ok(f_rarity),
                    copyright: the_ok(f_copyright),
                    tags: the_ok(f_tags),
                    text: the_ok(f_text),
                    ext: the_ok(f_ext),
                    images: the_ok(f_images),
                },
            )
        }
    }
}

#[verifier::rlimit(100)]
pub fn decode_supporter(es: &Vec<(String, Doc)>) -> (r: Result<Supporter, DecodeError>)
    requires
        entries_wf(es@),
    ensures
        outcome_v(r) == dec_supporter(entries_view(es@)),
{
    reveal(dec_supporter);
    let ghost m = entries_view(es@);
    let mut i: usize = 0;
    while i < es.len()
        invariant
            entries_wf(es@),
            m == entries_view(es@),
            0 <= i <= es@.len(),
            forall|j: int| 0 <= j < i ==> supporter_keys().contains(#[trigger] es@[j].0@),
        decreases es@.len() - i,
    {
        let k = &es[i].0;
        if !(key_is(k, "card_type") || key_is(k, "subtype") || key_is(k, "name") || key_is(k, "subtitle") || key_is(k, "lang") || key_is(k, "foil") || key_is(k, "size") || key_is(k, "back") || key_is(k, "artists") || key_is(k, "regulation_mark") || key_is(k, "set_icon") || key_is(k, "collector_number") || key_is(k, "rarity") || key_is(k, "copyright") || key_is(k, "tags") || key_is(k, "text") || key_is(k, "ext") || key_is(k, "images")) {
            proof {
                reveal(dec_supporter);
                lemma_entries_view_index(es@, i as int);
            }
            return Err(DecodeError::at_key(ErrKind::UnknownField, k));
        }
        i = i + 1;
    }
    proof {
        assert forall|k2: Seq<char>| m.dom().contains(k2) implies supporter_keys().contains(k2) by {
            lemma_entries_view_dom(es@, k2);
        }
    }
    let name = match get_req_str(es, "name") {
        Ok(v) => v,
        Err(e) => {
            return Err(e);
        },
    };
    let subtitle = match get_opt_str(es, "subtitle") {
        Ok(v) => v,
        Err(e) => {
            return Err(e);
        },
    };
    let lang = match get_req_lang(es, "lang") {
        Ok(v) => v,
        Err(e) => {
            return Err(e);
        },
    };
    let foil = match get_opt_foil(es, "foil") {
        Ok(v) => v,
        Err(e) => {
            return Err(e);
        },
    };
    let size = match get_req_size(es, "size") {
        Ok(v) => v,
        Err(e) => {
            return Err(e);
        },
    };
    let back = match get_req_back(es, "back") {
        Ok(v) => v,
        Err(e) => {
            return Err(e);
        },
    };
    let artists = match get_opt_artists(es, "artists") {
        Ok(v) => v,
        Err(e) => {
            return Err(e);
        },
    };
    let regulation_mark = match get_req_reg(es, "regulation_mark") {
        Ok(v) => v,
        Err(e) => {
            return Err(e);
        },
    };
    let set_icon = match get_req_str(es, "set_icon") {
        Ok(v) => v,
        Err(e) => {
            return Err(e);
        },
    };
    let collector_number = match get_req_collector(es, "collector_number") {
        Ok(v) => v,
        Err(e) => {
            return Err(e);
        },
    };
    let rarity = match get_opt_rarity(es, "rarity") {
        Ok(v) => v,
        Err(e) => {
            return Err(e);
        },
    };
    let copyright = match get_opt_copyright(es, "copyright") {
        Ok(v) => v,
        Err(e) => {
            return Err(e);
        },
    };
    let tags = match get_opt_tags(es, "tags") {
        Ok(v) => v,
        Err(e) => {
            return Err(e);
        },
    };
    let text = match get_req_texts(es, "text") {
        Ok(v) => v,
        Err(e) => {
            return Err(e);
        },
    };
    let ext = match get_req_ext(es, "ext") {
        Ok(v) => v,
        Err(e) => {
            return Err(e);
        },
    };
    let images = match get_req_images(es, "images") {
        Ok(v) => v,
        Err(e) => {
            return Err(e);
        },
    };
    Ok(Supporter { name, subtitle, lang, foil, size, back, artists, regulation_mark, set_icon, collector_number, rarity, copyright, tags, text, ext, images })
}

/// The tool shape.
pub open spec fn tool_keys() -> Set<Seq<char>> {
    set![
        "card_type"@,
        "subtype"@,
        "name"@,
        "lang"@,
        "foil"@,
        "size"@,
        "back"@,
        "artists"@,
        "regulation_mark"@,
        "set_icon"@,
        "collector_number"@,
        "rarity"@,
        "copyright"@,
        "tags"@,
        "flavor_text"@,
        "text"@,
        "ext"@,
        "images"@,
    ]
}

#[verifier::opaque]
pub open spec fn dec_tool(m: Map<Seq<char>, DocV>) -> Result<ToolV, ErrKind> {
    if !m.dom().subset_of(tool_keys()) {
        Err(ErrKind::UnknownField)
    } else {
        let f_name = d_req_str(m, "name"@);
        let f_lang = d_req_lang(m, "lang"@);
        let f_foil = d_opt_foil(m, "foil"@);
        let f_size = d_req_size(m, "size"@);
        let f_back = d_req_back(m, "back"@);
        let f_artists = d_opt_artists(m, "artists"@);
        let f_regulation_mark = d_req_reg(m, "regulation_mark"@);
        let f_set_icon = d_req_str(m, "set_icon"@);
        let f_collector_number = d_req_collector(m, "collector_number"@);
        let f_rarity = d_opt_rarity(m, "rarity"@);
        let f_copyright = d_opt_copyright(m, "copyright"@);
        let f_tags = d_opt_tags(m, "tags"@);
        let f_flavor_text = d_opt_str(m, "flavor_text"@);
        let f_text = d_req_texts(m, "text"@);
        let f_ext = d_req_ext(m, "ext"@);
        let f_images = d_req_images(m, "images"@);
        if f_name is Err {
            Err(the_err(f_name))
        } else if f_lang is Err {
            Err(the_err(f_lang))
        } else if f_foil is Err {
            Err(the_err(f_foil))
        } else if f_size is Err {
            Err(the_err(f_size))
        } else if f_back is Err {
            Err(the_err(f_back))
        } else if f_artists is Err {
            Err(the_err(f_artists))
        } else if f_regulation_mark is Err {
            Err(the_err(f_regulation_mark))
        } else if f_set_icon is Err {
            Err(the_err(f_set_icon))
        } else if f_collector_number is Err {
            Err(the_err(f_collector_number))
        } else if f_rarity is Err {
            Err(the_err(f_rarity))
        } else if f_copyright is Err {
            Err(the_err(f_copyright))
        } else if f_tags is Err {
            Err(the_err(f_tags))
        } else if f_flavor_text is Err {
            Err(the_err(f_flavor_text))
        } else if f_text is Err {
            Err(the_err(f_text))
        } else if f_ext is Err {
            Err(the_err(f_ext))
        } else if f_images is Err {
            Err(the_err(f_images))
        } else {
            Ok(
                ToolV {
                    name: the_ok(f_name),
                    lang: the_ok(f_lang),
                    foil: the_ok(f_foil),
                    size: the_ok(f_size),
                    back: the_ok(f_back),
                    artists: the_ok(f_artists),
                    regulation_mark: the_ok(f_regulation_mark),
                    set_icon: the_ok(f_set_icon),
                    collector_number: the_ok(f_collector_number),
                    rarity: the_ok(f_rarity),
                    copyright: the_ok(f_copyright),
                    tags: the_ok(f_tags),
                    flavor_text: the_ok(f_flavor_text),
                    text: the_ok(f_text),
                    ext: the_ok(f_ext),
                    images: the_ok(f_images),
                },
            )
        }
    }
}

#[verifier::rlimit(100)]
pub fn decode_tool(es: &Vec<(String, Doc)>) -> (r: Result<Tool, DecodeError>)
    requires
        entries_wf(es@),
    ensures
        outcome_v(r) == dec_tool(entries_view(es@)),
{
    reveal(dec_tool);
    let ghost m = entries_view(es@);
    let mut i: usize = 0;
    while i < es.len()
        invariant
            entries_wf(es@),
            m == entries_view(es@),
            0 <= i <= es@.len(),
            forall|j: int| 0 <= j < i ==> tool_keys().contains(#[trigger] es@[j].0@),
        decreases es@.len() - i,
    {
        let k = &es[i].0;
        if !(key_is(k, "card_type") || key_is(k, "subtype") || key_is(k, "name") || key_is(k, "lang") || key_is(k, "foil") || key_is(k, "size") || key_is(k, "back") || key_is(k, "artists") || key_is(k, "regulation_mark") || key_is(k, "set_icon") || key_is(k, "collector_number") || key_is(k, "rarity") || key_is(k, "copyright") || key_is(k, "tags") || key_is(k, "flavor_text") || key_is(k, "text") || key_is(k, "ext") || key_is(k, "images")) {
            proof {
                reveal(dec_tool);
                lemma_entries_view_index(es@, i as int);
            }
            return Err(DecodeError::at_key(ErrKind::UnknownField, k));
        }
        i = i + 1;
    }
    proof {
        assert forall|k2: Seq<char>| m.dom().contains(k2) implies tool_keys().contains(k2) by {
            lemma_entries_view_dom(es@, k2);
        }
    }
    let name = match get_req_str(es, "name") {
        Ok(v) => v,
        Err(e) => {
            return Err(e);
        },
    };
    let lang = match get_req_lang(es, "lang") {
        Ok(v) => v,
        Err(e) => {
            return Err(e);
        },
    };
    let foil = match get_opt_foil(es, "foil") {
        Ok(v) => v,
        Err(e) => {
            return Err(e);
        },
    };
    let size = match get_req_size(es, "size") {
        Ok(v) => v,
        Err(e) => {
            return Err(e);
        },
    };
    let back = match get_req_back(es, "back") {
        Ok(v) => v,
        Err(e) => {
            return Err(e);
        },
    };
    let artists = match get_opt_artists(es, "artists") {
        Ok(v) => v,
        Err(e) => {
            return Err(e);
        },
    };
    let regulation_mark = match get_req_reg(es, "regulation_mark") {
        Ok(v) => v,
        Err(e) => {
            return Err(e);
        },
    };
    let set_icon = match get_req_str(es, "set_icon") {
        Ok(v) => v,
        Err(e) => {
            return Err(e);
        },
    };
    let collector_number = match get_req_collector(es, "collector_number") {
        Ok(v) => v,
        Err(e) => {
            return Err(e);
        },
    };
    let rarity = match get_opt_rarity(es, "rarity") {
        Ok(v) => v,
        Err(e) => {
            return Err(e);
        },
    };
    let copyright = match get_opt_copyright(es, "copyright") {
        Ok(v) => v,
        Err(e) => {
            return Err(e);
        },
    };
    let tags = match get_opt_tags(es, "tags") {
        Ok(v) => v,
        Err(e) => {
            return Err(e);
        },
    };
    let flavor_text = match get_opt_str(es, "flavor_text") {
        Ok(v) => v,
        Err(e) => {
            return Err(e);
        },
    };
    let text = match get_req_texts(es, "text") {
        Ok(v) => v,
        Err(e) => {
            return Err(e);
        },
    };
    let ext = match get_req_ext(es, "ext") {
        Ok(v) => v,
        Err(e) => {
            return Err(e);
        },
    };
    let images = match get_req_images(es, "images") {
        Ok(v) => v,
        Err(e) => {
            return Err(e);
        },
    };
    Ok(Tool { name, lang, foil, size, back, artists, regulation_mark, set_icon, collector_number, rarity, copyright, tags, flavor_text, text, ext, images })
}

/// The stadium shape.
pub open spec fn stadium_keys() -> Set<Seq<char>> {
    set![
        "card_type"@,
        "subtype"@,
        "name"@,
        "lang"@,
        "foil"@,
        "size"@,
        "back"@,
        "artists"@,
        "regulation_mark"@,
        "set_icon"@,
        "collector_number"@,
        "rarity"@,
        "copyright"@,
        "tags"@,
        "flavor_text"@,
        "text"@,
        "ext"@,
        "images"@,
    ]
}

#[verifier::opaque]
pub open spec fn dec_stadium(m: Map<Seq<char>, DocV>) -> Result<StadiumV, ErrKind> {
    if !m.dom().subset_of(stadium_keys()) {
        Err(ErrKind::UnknownField)
    } else {
        let f_name = d_req_str(m, "name"@);
        let f_lang = d_req_lang(m, "lang"@);
        let f_foil = d_opt_foil(m, "foil"@);
        let f_size = d_req_size(m, "size"@);
        let f_back = d_req_back(m, "back"@);
        let f_artists = d_opt_artists(m, "artists"@);
        let f_regulation_mark = d_req_reg(m, "regulation_mark"@);
        let f_set_icon = d_req_str(m, "set_icon"@);
        let f_collector_number = d_req_collector(m, "collector_number"@);
        let f_rarity = d_opt_rarity(m, "rarity"@);
        let f_copyright = d_opt_copyright(m, "copyright"@);
        let f_tags = d_opt_tags(m, "tags"@);
        let f_flavor_text = d_opt_str(m, "flavor_text"@);
        let f_text = d_req_texts(m, "text"@);
        let f_ext = d_req_ext(m, "ext"@);
        let f_images = d_req_images(m, "images"@);
        if f_name is Err {
            Err(the_err(f_name))
        } else if f_lang is Err {
            Err(the_err(f_lang))
        } else if f_foil is Err {
            Err(the_err(f_foil))
        } else if f_size is Err {
            Err(the_err(f_size))
        } else if f_back is Err {
            Err(the_err(f_back))
        } else if f_artists is Err {
            Err(the_err(f_artists))
        } else if f_regulation_mark is Err {
            Err(the_err(f_regulation_mark))
        } else if f_set_icon is Err {
            Err(the_err(f_set_icon))
        } else if f_collector_number is Err {
            Err(the_err(f_collector_number))
        } else if f_rarity is Err {
            Err(the_err(f_rarity))
        } else if f_copyright is Err {
            Err(the_err(f_copyright))
        } else if f_tags is Err {
            Err(the_err(f_tags))
        } else if f_flavor_text is Err {
            Err(the_err(f_flavor_text))
        } else if f_text is Err {
            Err(the_err(f_text))
        } else if f_ext is Err {
            Err(the_err(f_ext))
        } else if f_images is Err {
            Err(the_err(f_images))
        } else {
            Ok(
                StadiumV {
                    name: the_ok(f_name),
                    lang: the_ok(f_lang),
                    foil: the_ok(f_foil),
                    size: the_ok(f_size),
                    back: the_ok(f_back),
                    artists: the_ok(f_artists),
                    regulation_mark: the_ok(f_regulation_mark),
                    set_icon: the_ok(f_set_icon),
                    collector_number: the_ok(f_collector_number),
                    rarity: the_ok(f_rarity),
                    copyright: the_ok(f_copyright),
                    tags: the_ok(f_tags),
                    flavor_text: the_ok(f_flavor_text),
                    text: the_ok(f_text),
                    ext: the_ok(f_ext),
                    images: the_ok(f_images),
                },
            )
        }
    }
}

#[verifier::rlimit(100)]
pub fn decode_stadium(es: &Vec<(String, Doc)>) -> (r: Result<Stadium, DecodeError>)
    requires
        entries_wf(es@),
    ensures
        outcome_v(r) == dec_stadium(entries_view(es@)),
{
    reveal(dec_stadium);
    let ghost m = entries_view(es@);
    let mut i: usize = 0;
    while i < es.len()
        invariant
            entries_wf(es@),
            m == entries_view(es@),
            0 <= i <= es@.len(),
            forall|j: int| 0 <= j < i ==> stadium_keys().contains(#[trigger] es@[j].0@),
        decreases es@.len() - i,
    {
        let k = &es[i].0;
        if !(key_is(k, "card_type") || key_is(k, "subtype") || key_is(k, "name") || key_is(k, "lang") || key_is(k, "foil") || key_is(k, "size") || key_is(k, "back") || key_is(k, "artists") || key_is(k, "regulation_mark") || key_is(k, "set_icon") || key_is(k, "collector_number") || key_is(k, "rarity") || key_is(k, "copyright") || key_is(k, "tags") || key_is(k, "flavor_text") || key_is(k, "text") || key_is(k, "ext") || key_is(k, "images")) {
            proof {
                reveal(dec_stadium);
                lemma_entries_view_index(es@, i as int);
            }
            return Err(DecodeError::at_key(ErrKind::UnknownField, k));
        }
        i = i + 1;
    }
    proof {
        assert forall|k2: Seq<char>| m.dom().contains(k2) implies stadium_keys().contains(k2) by {
            lemma_entries_view_dom(es@, k2);
        }
    }
    let name = match get_req_str(es, "name") {
        Ok(v) => v,
        Err(e) => {
            return Err(e);
        },
    };
    let lang = match get_req_lang(es, "lang") {
        Ok(v) => v,
        Err(e) => {
            return Err(e);
        },
    };
    let foil = match get_opt_foil(es, "foil") {
        Ok(v) => v,
        Err(e) => {
            return Err(e);
        },
    };
    let size = match get_req_size(es, "size") {
        Ok(v) => v,
        Err(e) => {
            return Err(e);
        },
    };
    let back = match get_req_back(es, "back") {
        Ok(v) => v,
        Err(e) => {
            return Err(e);
        },
    };
    let artists = match get_opt_artists(es, "artists") {
        Ok(v) => v,
        Err(e) => {
            return Err(e);
        },
    };
    let regulation_mark = match get_req_reg(es, "regulation_mark") {
        Ok(v) => v,
        Err(e) => {
            return Err(e);
        },
    };
    let set_icon = match get_req_str(es, "set_icon") {
        Ok(v) => v,
        Err(e) => {
            return Err(e);
        },
    };
    let collector_number = match get_req_collector(es, "collector_number") {
        Ok(v) => v,
        Err(e) => {
            return Err(e);
        },
    };
    let rarity = match get_opt_rarity(es, "rarity") {
        Ok(v) => v,
        Err(e) => {
            return Err(e);
        },
    };
    let copyright = match get_opt_copyright(es, "copyright") {
        Ok(v) => v,
        Err(e) => {
            return Err(e);
        },
    };
    let tags = match get_opt_tags(es, "tags") {
        Ok(v) => v,
        Err(e) => {
            return Err(e);
        },
    };
    let flavor_text = match get_opt_str(es, "flavor_text") {
        Ok(v) => v,
        Err(e) => {
            return Err(e);
        },
    };
    let text = match get_req_texts(es, "text") {
        Ok(v) => v,
        Err(e) => {
            return Err(e);
        },
    };
    let ext = match get_req_ext(es, "ext") {
        Ok(v) => v,
        Err(e) => {
            return Err(e);
        },
    };
    let images = match get_req_images(es, "images") {
        Ok(v) => v,
        Err(e) => {
            return Err(e);
        },
    };
    Ok(Stadium { name, lang, foil, size, back, artists, regulation_mark, set_icon, collector_number, rarity, copyright, tags, flavor_text, text, ext, images })
}

/// The basic-energy shape.
pub open spec fn basic_energy_keys() -> Set<Seq<char>> {
    set![
        "card_type"@,
        "subtype"@,
        "name"@,
        "lang"@,
        "foil"@,
        "size"@,
        "back"@,
        "set_icon"@,
        "collector_number"@,
        "rarity"@,
        "copyright"@,
        "tags"@,
        "ext"@,
        "images"@,
        "types"@,
    ]
}

#[verifier::opaque]
pub open spec fn dec_basic_energy(m: Map<Seq<char>, DocV>) -> Result<BasicEnergyV, ErrKind> {
    if !m.dom().subset_of(basic_energy_keys()) {
        Err(ErrKind::UnknownField)
    } else {
        let f_name = d_req_str(m, "name"@);
        let f_lang = d_req_lang(m, "lang"@);
        let f_foil = d_opt_foil(m, "foil"@);
        let f_size = d_req_size(m, "size"@);
        let f_back = d_req_back(m, "back"@);
        let f_set_icon = d_req_str(m, "set_icon"@);
        let f_collector_number = d_req_collector(m, "collector_number"@);
        let f_rarity = d_opt_rarity(m, "rarity"@);
        let f_copyright = d_opt_copyright(m, "copyright"@);
        let f_tags = d_opt_tags(m, "tags"@);
        let f_ext = d_req_ext(m, "ext"@);
        let f_images = d_req_images(m, "images"@);
        let f_types = d_req_energy_list(m, "types"@);
        if f_name is Err {
            Err(the_err(f_name))
        } else if f_lang is Err {
            Err(the_err(f_lang))
        } else if f_foil is Err {
            Err(the_err(f_foil))
        } else if f_size is Err {
            Err(the_err(f_size))
        } else if f_back is Err {
            Err(the_err(f_back))
        } else if f_set_icon is Err {
            Err(the_err(f_set_icon))
        } else if f_collector_number is Err {
            Err(the_err(f_collector_number))
        } else if f_rarity is Err {
            Err(the_err(f_rarity))
        } else if f_copyright is Err {
            Err(the_err(f_copyright))
        } else if f_tags is Err {
            Err(the_err(f_tags))
        } else if f_ext is Err {
            Err(the_err(f_ext))
        } else if f_images is Err {
            Err(the_err(f_images))
        } else if f_types is Err {
            Err(the_err(f_types))
        } else {
            Ok(
                BasicEnergyV {
                    name: the_ok(f_name),
                    lang: the_ok(f_lang),
                    foil: the_ok(f_foil),
                    size: the_ok(f_size),
                    back: the_ok(f_back),
                    set_icon: the_ok(f_set_icon),
                    collector_number: the_ok(f_collector_number),
                    rarity: the_ok(f_rarity),
                    copyright: the_ok(f_copyright),
                    tags: the_ok(f_tags),
                    ext: the_ok(f_ext),
                    images: the_ok(f_images),
                    types: the_ok(f_types),
                },
            )
        }
    }
}

#[verifier::rlimit(100)]
pub fn decode_basic_energy(es: &Vec<(String, Doc)>) -> (r: Result<BasicEnergy, DecodeError>)
    requires
        entries_wf(es@),
    ensures
        outcome_v(r) == dec_basic_energy(entries_view(es@)),
{
    reveal(dec_basic_energy);
    let ghost m = entries_view(es@);
    let mut i: usize = 0;
    while i < es.len()
        invariant
            entries_wf(es@),
            m == entries_view(es@),
            0 <= i <= es@.len(),
            forall|j: int| 0 <= j < i ==> basic_energy_keys().contains(#[trigger] es@[j].0@),
        decreases es@.len() - i,
    {
        let k = &es[i].0;
        if !(key_is(k, "card_type") || key_is(k, "subtype") || key_is(k, "name") || key_is(k, "lang") || key_is(k, "foil") || key_is(k, "size") || key_is(k, "back") || key_is(k, "set_icon") || key_is(k, "collector_number") || key_is(k, "rarity") || key_is(k, "copyright") || key_is(k, "tags") || key_is(k, "ext") || key_is(k, "images") || key_is(k, "types")) {
            proof {
                reveal(dec_basic_energy);
                lemma_entries_view_index(es@, i as int);
            }
            return Err(DecodeError::at_key(ErrKind::UnknownField, k));
        }
        i = i + 1;
    }
    proof {
        assert forall|k2: Seq<char>| m.dom().contains(k2) implies basic_energy_keys().contains(k2) by {
            lemma_entries_view_dom(es@, k2);
        }
    }
    let name = match get_req_str(es, "name") {
        Ok(v) => v,
        Err(e) => {
            return Err(e);
        },
    };
    let lang = match get_req_lang(es, "lang") {
        Ok(v) => v,
        Err(e) => {
            return Err(e);
        },
    };
    let foil = match get_opt_foil(es, "foil") {
        Ok(v) => v,
        Err(e) => {
            return Err(e);
        },
    };
    let size = match get_req_size(es, "size") {
        Ok(v) => v,
        Err(e) => {
            return Err(e);
        },
    };
    let back = match get_req_back(es, "back") {
        Ok(v) => v,
        Err(e) => {
            return Err(e);
        },
    };
    let set_icon = match get_req_str(es, "set_icon") {
        Ok(v) => v,
        Err(e) => {
            return Err(e);
        },
    };
    let collector_number = match get_req_collector(es, "collector_number") {
        Ok(v) => v,
        Err(e) => {
            return Err(e);
        },
    };
    let rarity = match get_opt_rarity(es, "rarity") {
        Ok(v) => v,
        Err(e) => {
            return Err(e);
        },
    };
    let copyright = match get_opt_copyright(es, "copyright") {
        Ok(v) => v,
        Err(e) => {
            return Err(e);
        },
    };
    let tags = match get_opt_tags(es, "tags") {
        Ok(v) => v,
        Err(e) => {
            return Err(e);
        },
    };
    let ext = match get_req_ext(es, "ext") {
        Ok(v) => v,
        Err(e) => {
            return Err(e);
        },
    };
    let images = match get_req_images(es, "images") {
        Ok(v) => v,
        Err(e) => {
            return Err(e);
        },
    };
    let types = match get_req_energy_list(es, "types") {
        Ok(v) => v,
        Err(e) => {
            return Err(e);
        },
    };
    Ok(BasicEnergy { name, lang, foil, size, back, set_icon, collector_number, rarity, copyright, tags, ext, images, types })
}

/// The special-energy shape.
pub open spec fn special_energy_keys() -> Set<Seq<char>> {
    set![
        "card_type"@,
        "subtype"@,
        "name"@,
        "lang"@,
        "foil"@,
        "size"@,
        "back"@,
        "regulation_mark"@,
        "set_icon"@,
        "collector_number"@,
        "rarity"@,
        "copyright"@,
        "tags"@,
        "flavor_text"@,
        "text"@,
        "ext"@,
        "images"@,
    ]
}

#[verifier::opaque]
pub open spec fn dec_special_energy(m: Map<Seq<char>, DocV>) -> Result<SpecialEnergyV, ErrKind> {
    if !m.dom().subset_of(special_energy_keys()) {
        Err(ErrKind::UnknownField)
    } else {
        let f_name = d_req_str(m, "name"@);
        let f_lang = d_req_lang(m, "lang"@);
        let f_foil = d_opt_foil(m, "foil"@);
        let f_size = d_req_size(m, "size"@);
        let f_back = d_req_back(m, "back"@);
        let f_regulation_mark = d_req_reg(m, "regulation_mark"@);
        let f_set_icon = d_req_str(m, "set_icon"@);
        let f_collector_number = d_req_collector(m, "collector_number"@);
        let f_rarity = d_opt_rarity(m, "rarity"@);
        let f_copyright = d_opt_copyright(m, "copyright"@);
        let f_tags = d_opt_tags(m, "tags"@);
        let f_flavor_text = d_opt_str(m, "flavor_text"@);
        let f_text = d_req_texts(m, "text"@);
        let f_ext = d_req_ext(m, "ext"@);
        let f_images = d_req_images(m, "images"@);
        if f_name is Err {
            Err(the_err(f_name))
        } else if f_lang is Err {
            Err(the_err(f_lang))
        } else if f_foil is Err {
            Err(the_err(f_foil))
        } else if f_size is Err {
            Err(the_err(f_size))
        } else if f_back is Err {
            Err(the_err(f_back))
        } else if f_regulation_mark is Err {
            Err(the_err(f_regulation_mark))
        } else if f_set_icon is Err {
            Err(the_err(f_set_icon))
        } else if f_collector_number is Err {
            Err(the_err(f_collector_number))
        } else if f_rarity is Err {
            Err(the_err(f_rarity))
        } else if f_copyright is Err {
            Err(the_err(f_copyright))
        } else if f_tags is Err {
            Err(the_err(f_tags))
        } else if f_flavor_text is Err {
            Err(the_err(f_flavor_text))
        } else if f_text is Err {
            Err(the_err(f_text))
        } else if f_ext is Err {
            Err(the_err(f_ext))
        } else if f_images is Err {
            Err(the_err(f_images))
        } else {
            Ok(
                SpecialEnergyV {
                    name: the_ok(f_name),
                    lang: the_ok(f_lang),
                    foil: the_ok(f_foil),
                    size: the_ok(f_size),
                    back: the_ok(f_back),
                    regulation_mark: the_ok(f_regulation_mark),
                    set_icon: the_ok(f_set_icon),
                    collector_number: the_ok(f_collector_number),
                    rarity: the_ok(f_rarity),
                    copyright: the_ok(f_copyright),
                    tags: the_ok(f_tags),
                    flavor_text: the_ok(f_flavor_text),
                    text: the_ok(f_text),
                    ext: the_ok(f_ext),
                    images: the_ok(f_images),
                },
            )
        }
    }
}

#[verifier::rlimit(100)]
pub fn decode_special_energy(es: &Vec<(String, Doc)>) -> (r: Result<SpecialEnergy, DecodeError>)
    requires
        entries_wf(es@),
    ensures
        outcome_v(r) == dec_special_energy(entries_view(es@)),
{
    reveal(dec_special_energy);
    let ghost m = entries_view(es@);
    let mut i: usize = 0;
    while i < es.len()
        invariant
            entries_wf(es@),
            m == entries_view(es@),
            0 <= i <= es@.len(),
            forall|j: int| 0 <= j < i ==> special_energy_keys().contains(#[trigger] es@[j].0@),
        decreases es@.len() - i,
    {
        let k = &es[i].0;
        if !(key_is(k, "card_type") || key_is(k, "subtype") || key_is(k, "name") || key_is(k, "lang") || key_is(k, "foil") || key_is(k, "size") || key_is(k, "back") || key_is(k, "regulation_mark") || key_is(k, "set_icon") || key_is(k, "collector_number") || key_is(k, "rarity") || key_is(k, "copyright") || key_is(k, "tags") || key_is(k, "flavor_text") || key_is(k, "text") || key_is(k, "ext") || key_is(k, "images")) {
            proof {
                reveal(dec_special_energy);
                lemma_entries_view_index(es@, i as int);
            }
            return Err(DecodeError::at_key(ErrKind::UnknownField, k));
        }
        i = i + 1;
    }
    proof {
        assert forall|k2: Seq<char>| m.dom().contains(k2) implies special_energy_keys().contains(k2) by {
            lemma_entries_view_dom(es@, k2);
        }
    }
    let name = match get_req_str(es, "name") {
        Ok(v) => v,
        Err(e) => {
            return Err(e);
        },
    };
    let lang = match get_req_lang(es, "lang") {
        Ok(v) => v,
        Err(e) => {
            return Err(e);
        },
    };
    let foil = match get_opt_foil(es, "foil") {
        Ok(v) => v,
        Err(e) => {
            return Err(e);
        },
    };
    let size = match get_req_size(es, "size") {
        Ok(v) => v,
        Err(e) => {
            return Err(e);
        },
    };
    let back = match get_req_back(es, "back") {
        Ok(v) => v,
        Err(e) => {
            return Err(e);
        },
    };
    let regulation_mark = match get_req_reg(es, "regulation_mark") {
        Ok(v) => v,
        Err(e) => {
            return Err(e);
        },
    };
    let set_icon = match get_req_str(es, "set_icon") {
        Ok(v) => v,
        Err(e) => {
            return Err(e);
        },
    };
    let collector_number = match get_req_collector(es, "collector_number") {
        Ok(v) => v,
        Err(e) => {
            return Err(e);
        },
    };
    let rarity = match get_opt_rarity(es, "rarity") {
        Ok(v) => v,
        Err(e) => {
            return Err(e);
        },
    };
    let copyright = match get_opt_copyright(es, "copyright") {
        Ok(v) => v,
        Err(e) => {
            return Err(e);
        },
    };
    let tags = match get_opt_tags(es, "tags") {
        Ok(v) => v,
        Err(e) => {
            return Err(e);
        },
    };
    let flavor_text = match get_opt_str(es, "flavor_text") {
        Ok(v) => v,
        Err(e) => {
            return Err(e);
        },
    };
    let text = match get_req_texts(es, "text") {
        Ok(v) => v,
        Err(e) => {
            return Err(e);
        },
    };
    let ext = match get_req_ext(es, "ext") {
        Ok(v) => v,
        Err(e) => {
            return Err(e);
        },
    };
    let images = match get_req_images(es, "images") {
        Ok(v) => v,
        Err(e) => {
            return Err(e);
        },
    };
    Ok(SpecialEnergy { name, lang, foil, size, back, regulation_mark, set_icon, collector_number, rarity, copyright, tags, flavor_text, text, ext, images })
}

/// The trainer union: its own discriminator and closed tag set, read
/// after the outer dispatch has selected the trainer branch.
pub open spec fn dec_trainer(m: Map<Seq<char>, DocV>) -> Result<TrainerV, ErrKind> {
    match d_req_str(m, "subtype"@) {
        Err(e) => Err(e),
        Ok(tag) => if tag == "ITEM"@ {
            match dec_item(m) {
                Ok(x) => Ok(TrainerV::Item(x)),
                Err(e) => Err(e),
            }
        } else if tag == "SUPPORTER"@ {
            match dec_supporter(m) {
                Ok(x) => Ok(TrainerV::Supporter(x)),
                Err(e) => Err(e),
            }
        } else if tag == "TOOL"@ {
            match dec_tool(m) {
                Ok(x) => Ok(TrainerV::Tool(x)),
                Err(e) => Err(e),
            }
        } else if tag == "STADIUM"@ {
            match dec_stadium(m) {
                Ok(x) => Ok(TrainerV::Stadium(x)),
                Err(e) => Err(e),
            }
        } else {
            Err(ErrKind::UnknownVariant)
        },
    }
}

pub fn decode_trainer(es: &Vec<(String, Doc)>) -> (r: Result<Trainer, DecodeError>)
    requires
        entries_wf(es@),
    ensures
        outcome_v(r) == dec_trainer(entries_view(es@)),
{
    let tag = match get_req_str(es, "subtype") {
        Ok(v) => v,
        Err(e) => {
            return Err(e);
        },
    };
    if str_eq(tag.as_str(), "ITEM") {
        match decode_item(es) {
            Ok(x) => Ok(Trainer::Item(x)),
            Err(e) => Err(e),
        }
    } else if str_eq(tag.as_str(), "SUPPORTER") {
        match decode_supporter(es) {
            Ok(x) => Ok(Trainer::Supporter(x)),
            Err(e) => Err(e),
        }
    } else if str_eq(tag.as_str(), "TOOL") {
        match decode_tool(es) {
            Ok(x) => Ok(Trainer::Tool(x)),
            Err(e) => Err(e),
        }
    } else if str_eq(tag.as_str(), "STADIUM") {
        match decode_stadium(es) {
            Ok(x) => Ok(Trainer::Stadium(x)),
            Err(e) => Err(e),
        }
    } else {
        Err(DecodeError::at_name(ErrKind::UnknownVariant, "subtype"))
    }
}

/// The energy union: its own discriminator and closed tag set.
pub open spec fn dec_energy(m: Map<Seq<char>, DocV>) -> Result<EnergyV, ErrKind> {
    match d_req_str(m, "subtype"@) {
        Err(e) => Err(e),
        Ok(tag) => if tag == "BASIC"@ {
            match dec_basic_energy(m) {
                Ok(x) => Ok(EnergyV::Basic(x)),
                Err(e) => Err(e),
            }
        } else if tag == "SPECIAL"@ {
            match dec_special_energy(m) {
                Ok(x) => Ok(EnergyV::Special(x)),
                Err(e) => Err(e),
            }
        } else {
            Err(ErrKind::UnknownVariant)
        },
    }
}

pub fn decode_energy(es: &Vec<(String, Doc)>) -> (r: Result<Energy, DecodeError>)
    requires
        entries_wf(es@),
    ensures
        outcome_v(r) == dec_energy(entries_view(es@)),
{
    let tag = match get_req_str(es, "subtype") {
        Ok(v) => v,
        Err(e) => {
            return Err(e);
        },
    };
    if str_eq(tag.as_str(), "BASIC") {
        match decode_basic_energy(es) {
            Ok(x) => Ok(Energy::Basic(x)),
            Err(e) => Err(e),
        }
    } else if str_eq(tag.as_str(), "SPECIAL") {
        match decode_special_energy(es) {
            Ok(x) => Ok(Energy::Special(x)),
            Err(e) => Err(e),
        }
    } else {
        Err(DecodeError::at_name(ErrKind::UnknownVariant, "subtype"))
    }
}

/// One card record: the top-level kind tag is read first and routes to
/// the matching shape; a tag outside the closed set is an unknown
/// variant, and a non-object is a type mismatch.
#[verifier::opaque]
pub open spec fn dec_card(d: DocV) -> Result<CardV, ErrKind> {
    match d {
        DocV::Object(m) => match d_req_str(m, "card_type"@) {
            Err(e) => Err(e),
            Ok(tag) => if tag == "POKEMON"@ {
                match dec_pokemon(m) {
                    Ok(x) => Ok(CardV::Pokemon(x)),
                    Err(e) => Err(e),
                }
            } else if tag == "TRAINER"@ {
                match dec_trainer(m) {
                    Ok(x) => Ok(CardV::Trainer(x)),
                    Err(e) => Err(e),
                }
            } else if tag == "ENERGY"@ {
                match dec_energy(m) {
                    Ok(x) => Ok(CardV::Energy(x)),
                    Err(e) => Err(e),
                }
            } else {
                Err(ErrKind::UnknownVariant)
            },
        },
        _ => Err(ErrKind::TypeMismatch),
    }
}

/// Decodes one card record from a document value.
#[verifier::rlimit(100)]
pub fn decode_card(d: &Doc) -> (r: Result<Card, DecodeError>)
    requires
        d.keys_unique(),
    ensures
        outcome_v(r) == dec_card(d@),
{
    reveal(dec_card);
    match d {
        Doc::Object(es) => {
            let tag = match get_req_str(es, "card_type") {
                Ok(v) => v,
                Err(e) => {
                    return Err(e);
                },
            };
            if str_eq(tag.as_str(), "POKEMON") {
                match decode_pokemon(es) {
                    Ok(x) => Ok(Card::Pokemon(x)),
                    Err(e) => Err(e),
                }
            } else if str_eq(tag.as_str(), "TRAINER") {
                match decode_trainer(es) {
                    Ok(x) => Ok(Card::Trainer(x)),
                    Err(e) => Err(e),
                }
            } else if str_eq(tag.as_str(), "ENERGY") {
                match decode_energy(es) {
                    Ok(x) => Ok(Card::Energy(x)),
                    Err(e) => Err(e),
                }
            } else {
                Err(DecodeError::at_name(ErrKind::UnknownVariant, "card_type"))
            }
        },
        _ => Err(DecodeError::here(ErrKind::TypeMismatch)),
    }
}

/// A list of card records, in order; the first failure aborts.
pub open spec fn dec_card_list(s: Seq<DocV>) -> Result<Seq<CardV>, ErrKind>
    decreases s.len(),
{
    if s.len() == 0 {
        Ok(Seq::empty())
    } else {
        match dec_card(s[0]) {
            Err(e) => Err(e),
            Ok(t) => match dec_card_list(s.skip(1)) {
                Err(e) => Err(e),
                Ok(ts) => Ok(seq![t] + ts),
            },
        }
    }
}

/// The root of a document: always an ordered list of card records.
pub open spec fn dec_cards(d: DocV) -> Result<Seq<CardV>, ErrKind> {
    match d {
        DocV::List(s) => dec_card_list(s),
        _ => Err(ErrKind::TypeMismatch),
    }
}

/// The model outcome of the root decode.
pub open spec fn outcome_cards(r: Result<Vec<Card>, DecodeError>) -> Result<Seq<CardV>, ErrKind> {
    match r {
        Ok(v) => Ok(cards_view(v@)),
        Err(e) => Err(e.kind),
    }
}

/// Decodes a whole document: an ordered list of card records. Fails with
/// the kind and field path of the first offence; no partial result is
/// returned.
#[verifier::rlimit(100)]
pub fn decode_cards(d: &Doc) -> (r: Result<Vec<Card>, DecodeError>)
    requires
        d.keys_unique(),
    ensures
        match r {
            Ok(v) => dec_cards(d@) == Ok::<Seq<CardV>, ErrKind>(cards_view(v@)),
            Err(e) => dec_cards(d@) == Err::<Seq<CardV>, ErrKind>(e.kind),
        },
{
    match d {
        Doc::List(xs) => {
            let ghost lv = list_view(xs@);
            proof {
                lemma_list_view_len(xs@);
                assert(lv.skip(0) =~= lv);
                let r0 = dec_card_list(lv);
                if r0 is Ok {
                    assert(cards_view(Seq::<Card>::empty()) + the_ok(r0) =~= the_ok(r0));
                }
            }
            let mut out: Vec<Card> = Vec::new();
            let mut i: usize = 0;
            while i < xs.len()
                invariant
                    d@ == DocV::List(lv),
                    forall|j: int| 0 <= j < xs@.len() ==> (#[trigger] xs@[j]).keys_unique(),
                    0 <= i <= xs@.len(),
                    lv == list_view(xs@),
                    lv.len() == xs@.len(),
                    out@.len() == i,
                    dec_card_list(lv) == (match dec_card_list(lv.skip(i as int)) {
                        Ok(ts) => Ok::<Seq<CardV>, ErrKind>(cards_view(out@) + ts),
                        Err(e) => Err(e),
                    }),
                decreases xs@.len() - i,
            {
                proof {
                    lemma_list_view_index(xs@, i as int);
                    assert(lv.skip(i as int)[0] == lv[i as int]);
                }
                let t: Card = match decode_card(&xs[i]) {
                    Ok(t) => t,
                    Err(e) => {
                        proof {
                            assert(dec_card(lv[i as int]) == Err::<CardV, ErrKind>(e.kind));
                            assert(dec_card_list(lv.skip(i as int)) == Err::<Seq<CardV>, ErrKind>(
                                e.kind,
                            ));
                            assert(dec_card_list(lv) == Err::<Seq<CardV>, ErrKind>(e.kind));
                            assert(d@ == DocV::List(lv));
                            assert(dec_cards(d@) == Err::<Seq<CardV>, ErrKind>(e.kind));
                        }
                        return Err(e.under_index(i));
                    },
                };
                proof {
                    assert(dec_card(lv[i as int]) == Ok::<CardV, ErrKind>(t@));
                    assert(lv.skip(i as int).skip(1) =~= lv.skip(i as int + 1));
                    let r1 = dec_card_list(lv.skip(i as int + 1));
                    if r1 is Ok {
                        assert(cards_view(out@) + (seq![t@] + the_ok(r1)) =~= cards_view(
                            out@.push(t),
                        ) + the_ok(r1));
                    }
                }
                out.push(t);
                i = i + 1;
            }
            proof {
                assert(lv.skip(i as int) =~= Seq::empty());
                assert(cards_view(out@) + Seq::<CardV>::empty() =~= cards_view(out@));
            }
            Ok(out)
        },
        _ => Err(DecodeError::here(ErrKind::TypeMismatch)),
    }
}

} // verus!
