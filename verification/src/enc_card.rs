//! Encoders for the card shapes and the root list: the discriminator is
//! written first, then the variant's fields in declared order.

use vstd::prelude::*;
use crate::doc::Doc;
use crate::doc::DocV;
use crate::doc::list_view;
use crate::enc::enc_artists;
use crate::enc::enc_collector;
use crate::enc::enc_copyright;
use crate::enc::enc_energy_list;
use crate::enc::enc_ext;
use crate::enc::enc_foil;
use crate::enc::enc_images;
use crate::enc::enc_rarity;
use crate::enc::enc_resistance;
use crate::enc::enc_tag_list;
use crate::enc::enc_text_list;
use crate::enc::enc_weakness;
use crate::enc::encode_artists;
use crate::enc::encode_collector;
use crate::enc::encode_copyright;
use crate::enc::encode_energy_list;
use crate::enc::encode_ext;
use crate::enc::encode_foil;
use crate::enc::encode_images;
use crate::enc::encode_rarity;
use crate::enc::encode_resistance;
use crate::enc::encode_tag_list;
use crate::enc::encode_text_list;
use crate::enc::encode_weakness;
use crate::types::BasicEnergy;
use crate::types::BasicEnergyV;
use crate::types::Card;
use crate::types::CardV;
use crate::types::Energy;
use crate::types::EnergyV;
use crate::types::Item;
use crate::types::ItemV;
use crate::types::Pokemon;
use crate::types::PokemonV;
use crate::types::SpecialEnergy;
use crate::types::SpecialEnergyV;
use crate::types::Stadium;
use crate::types::StadiumV;
use crate::types::Supporter;
use crate::types::SupporterV;
use crate::types::Tool;
use crate::types::ToolV;
use crate::types::Trainer;
use crate::types::TrainerV;
use crate::types::cards_view;

verus! {

broadcast use {
    vstd::seq::group_seq_axioms,
    vstd::map::group_map_axioms,
    vstd::set::group_set_axioms,
    vstd::std_specs::vec::group_vec_axioms,
    crate::doc::lemma_entries_view_push,
    crate::doc::lemma_list_view_push,
};

#[verifier::opaque]
pub open spec fn enc_pokemon(x: PokemonV) -> DocV {
    DocV::Object(
        {
        let m = Map::<Seq<char>, DocV>::empty();
        let m = m.insert("card_type"@, DocV::Text("POKEMON"@));
        let m = m.insert("name"@, DocV::Text(x.name));
        let m = m.insert("lang"@, DocV::Text(x.lang.wire_v()));
        let m = match x.foil {
                Some(v) => m.insert("foil"@, enc_foil(v)),
                None => m,
            };
        let m = m.insert("size"@, DocV::Text(x.size.wire_v()));
        let m = m.insert("back"@, DocV::Text(x.back.wire_v()));
        let m = match x.artists {
                Some(v) => m.insert("artists"@, enc_artists(v)),
                None => m,
            };
        let m = m.insert("regulation_mark"@, DocV::Text(x.regulation_mark.wire_v()));
        let m = m.insert("set_icon"@, DocV::Text(x.set_icon));
        let m = m.insert("collector_number"@, enc_collector(x.collector_number));
        let m = match x.rarity {
                Some(v) => m.insert("rarity"@, enc_rarity(v)),
                None => m,
            };
        let m = match x.copyright {
                Some(v) => m.insert("copyright"@, enc_copyright(v)),
                None => m,
            };
        let m = match x.tags {
                Some(ts) => m.insert("tags"@, DocV::List(enc_tag_list(ts))),
                None => m,
            };
        let m = m.insert("stage"@, DocV::Text(x.stage.wire_v()));
        let m = match x.stage_text {
                Some(s) => m.insert("stage_text"@, DocV::Text(s)),
                None => m,
            };
        let m = m.insert("hp"@, DocV::Int(x.hp as int));
        let m = match x.weakness {
                Some(v) => m.insert("weakness"@, enc_weakness(v)),
                None => m,
            };
        let m = match x.resistance {
                Some(v) => m.insert("resistance"@, enc_resistance(v)),
                None => m,
            };
        let m = match x.retreat {
                Some(v) => m.insert("retreat"@, DocV::Int(v as int)),
                None => m,
            };
        let m = match x.flavor_text {
                Some(s) => m.insert("flavor_text"@, DocV::Text(s)),
                None => m,
            };
        let m = m.insert("text"@, DocV::List(enc_text_list(x.text)));
        let m = m.insert("ext"@, enc_ext(x.ext));
        let m = m.insert("images"@, enc_images(x.images));
        let m = m.insert("types"@, DocV::List(enc_energy_list(x.types)));
            m
        },
    )
}

#[verifier::rlimit(100)]
pub fn encode_pokemon(x: &Pokemon) -> (d: Doc)
    ensures
        d@ == enc_pokemon(x@),
{
    reveal(enc_pokemon);
    let mut es: Vec<(String, Doc)> = Vec::new();
    let ghost esnap1 = es@;
    es.push(("card_type".to_owned(), Doc::Text("POKEMON".to_owned())));
    proof {
        crate::doc::lemma_entries_view_push(esnap1, es@.last());
        assert(es@ =~= esnap1.push(es@.last()));
    }
    let ghost esnap2 = es@;
    es.push(("name".to_owned(), Doc::Text(x.name.clone())));
    proof {
        crate::doc::lemma_entries_view_push(esnap2, es@.last());
        assert(es@ =~= esnap2.push(es@.last()));
    }
    let ghost esnap3 = es@;
    es.push(("lang".to_owned(), Doc::Text(x.lang.wire())));
    proof {
        crate::doc::lemma_entries_view_push(esnap3, es@.last());
        assert(es@ =~= esnap3.push(es@.last()));
    }
    let ghost esnap4 = es@;
if let Some(v) = &x.foil {
        es.push(("foil".to_owned(), encode_foil(v)));
        proof {
            crate::doc::lemma_entries_view_push(esnap4, es@.last());
            assert(es@ =~= esnap4.push(es@.last()));
        }
    }
    let ghost esnap5 = es@;
    es.push(("size".to_owned(), Doc::Text(x.size.wire())));
    proof {
        crate::doc::lemma_entries_view_push(esnap5, es@.last());
        assert(es@ =~= esnap5.push(es@.last()));
    }
    let ghost esnap6 = es@;
    es.push(("back".to_owned(), Doc::Text(x.back.wire())));
    proof {
        crate::doc::lemma_entries_view_push(esnap6, es@.last());
        assert(es@ =~= esnap6.push(es@.last()));
    }
    let ghost esnap7 = es@;
if let Some(v) = &x.artists {
        es.push(("artists".to_owned(), encode_artists(v)));
        proof {
            crate::doc::lemma_entries_view_push(esnap7, es@.last());
            assert(es@ =~= esnap7.push(es@.last()));
        }
    }
    let ghost esnap8 = es@;
    es.push(("regulation_mark".to_owned(), Doc::Text(x.regulation_mark.wire())));
    proof {
        crate::doc::lemma_entries_view_push(esnap8, es@.last());
        assert(es@ =~= esnap8.push(es@.last()));
    }
    let ghost esnap9 = es@;
    es.push(("set_icon".to_owned(), Doc::Text(x.set_icon.clone())));
    proof {
        crate::doc::lemma_entries_view_push(esnap9, es@.last());
        assert(es@ =~= esnap9.push(es@.last()));
    }
    let ghost esnap10 = es@;
    es.push(("collector_number".to_owned(), encode_collector(&x.collector_number)));
    proof {
        crate::doc::lemma_entries_view_push(esnap10, es@.last());
        assert(es@ =~= esnap10.push(es@.last()));
    }
    let ghost esnap11 = es@;
if let Some(v) = &x.rarity {
        es.push(("rarity".to_owned(), encode_rarity(v)));
        proof {
            crate::doc::lemma_entries_view_push(esnap11, es@.last());
            assert(es@ =~= esnap11.push(es@.last()));
        }
    }
    let ghost esnap12 = es@;
if let Some(v) = &x.copyright {
        es.push(("copyright".to_owned(), encode_copyright(v)));
        proof {
            crate::doc::lemma_entries_view_push(esnap12, es@.last());
            assert(es@ =~= esnap12.push(es@.last()));
        }
    }
    let ghost esnap13 = es@;
if let Some(ts) = &x.tags {
        es.push(("tags".to_owned(), encode_tag_list(ts)));
        proof {
            crate::doc::lemma_entries_view_push(esnap13, es@.last());
            assert(es@ =~= esnap13.push(es@.last()));
        }
    }
    let ghost esnap14 = es@;
    es.push(("stage".to_owned(), Doc::Text(x.stage.wire())));
    proof {
        crate::doc::lemma_entries_view_push(esnap14, es@.last());
        assert(es@ =~= esnap14.push(es@.last()));
    }
    let ghost esnap15 = es@;
if let Some(s) = &x.stage_text {
        es.push(("stage_text".to_owned(), Doc::Text(s.clone())));
        proof {
            crate::doc::lemma_entries_view_push(esnap15, es@.last());
            assert(es@ =~= esnap15.push(es@.last()));
        }
    }
    let ghost esnap16 = es@;
    es.push(("hp".to_owned(), Doc::Int(x.hp as i64)));
    proof {
        crate::doc::lemma_entries_view_push(esnap16, es@.last());
        assert(es@ =~= esnap16.push(es@.last()));
    }
    let ghost esnap17 = es@;
if let Some(v) = &x.weakness {
        es.push(("weakness".to_owned(), encode_weakness(v)));
        proof {
            crate::doc::lemma_entries_view_push(esnap17, es@.last());
            assert(es@ =~= esnap17.push(es@.last()));
        }
    }
    let ghost esnap18 = es@;
if let Some(v) = &x.resistance {
        es.push(("resistance".to_owned(), encode_resistance(v)));
        proof {
            crate::doc::lemma_entries_view_push(esnap18, es@.last());
            assert(es@ =~= esnap18.push(es@.last()));
        }
    }
    let ghost esnap19 = es@;
if let Some(v) = x.retreat {
        es.push(("retreat".to_owned(), Doc::Int(v as i64)));
        proof {
            crate::doc::lemma_entries_view_push(esnap19, es@.last());
            assert(es@ =~= esnap19.push(es@.last()));
        }
    }
    let ghost esnap20 = es@;
if let Some(s) = &x.flavor_text {
        es.push(("flavor_text".to_owned(), Doc::Text(s.clone())));
        proof {
            crate::doc::lemma_entries_view_push(esnap20, es@.last());
            assert(es@ =~= esnap20.push(es@.last()));
        }
    }
    let ghost esnap21 = es@;
    es.push(("text".to_owned(), encode_text_list(&x.text)));
    proof {
        crate::doc::lemma_entries_view_push(esnap21, es@.last());
        assert(es@ =~= esnap21.push(es@.last()));
    }
    let ghost esnap22 = es@;
    es.push(("ext".to_owned(), encode_ext(&x.ext)));
    proof {
        crate::doc::lemma_entries_view_push(esnap22, es@.last());
        assert(es@ =~= esnap22.push(es@.last()));
    }
    let ghost esnap23 = es@;
    es.push(("images".to_owned(), encode_images(&x.images)));
    proof {
        crate::doc::lemma_entries_view_push(esnap23, es@.last());
        assert(es@ =~= esnap23.push(es@.last()));
    }
    let ghost esnap24 = es@;
    es.push(("types".to_owned(), encode_energy_list(&x.types)));
    proof {
        crate::doc::lemma_entries_view_push(esnap24, es@.last());
        assert(es@ =~= esnap24.push(es@.last()));
    }
    Doc::Object(es)
}

#[verifier::opaque]
pub open spec fn enc_item(x: ItemV) -> DocV {
    DocV::Object(
        {
        let m = Map::<Seq<char>, DocV>::empty();
        let m = m.insert("card_type"@, DocV::Text("TRAINER"@));
        let m = m.insert("subtype"@, DocV::Text("ITEM"@));
        let m = m.insert("name"@, DocV::Text(x.name));
        let m = m.insert("lang"@, DocV::Text(x.lang.wire_v()));
        let m = match x.foil {
                Some(v) => m.insert("foil"@, enc_foil(v)),
                None => m,
            };
        let m = m.insert("size"@, DocV::Text(x.size.wire_v()));
        let m = m.insert("back"@, DocV::Text(x.back.wire_v()));
        let m = match x.artists {
                Some(v) => m.insert("artists"@, enc_artists(v)),
                None => m,
            };
        let m = m.insert("regulation_mark"@, DocV::Text(x.regulation_mark.wire_v()));
        let m = m.insert("set_icon"@, DocV::Text(x.set_icon));
        let m = m.insert("collector_number"@, enc_collector(x.collector_number));
        let m = match x.rarity {
                Some(v) => m.insert("rarity"@, enc_rarity(v)),
                None => m,
            };
        let m = match x.copyright {
                Some(v) => m.insert("copyright"@, enc_copyright(v)),
                None => m,
            };
        let m = match x.tags {
                Some(ts) => m.insert("tags"@, DocV::List(enc_tag_list(ts))),
                None => m,
            };
        let m = match x.stage_text {
                Some(s) => m.insert("stage_text"@, DocV::Text(s)),
                None => m,
            };
        let m = match x.hp {
                Some(v) => m.insert("hp"@, DocV::Int(v as int)),
                None => m,
            };
        let m = match x.flavor_text {
                Some(s) => m.insert("flavor_text"@, DocV::Text(s)),
                None => m,
            };
        let m = m.insert("text"@, DocV::List(enc_text_list(x.text)));
        let m = m.insert("ext"@, enc_ext(x.ext));
        let m = m.insert("images"@, enc_images(x.images));
            m
        },
    )
}

#[verifier::rlimit(100)]
pub fn encode_item(x: &Item) -> (d: Doc)
    ensures
        d@ == enc_item(x@),
{
    reveal(enc_item);
    let mut es: Vec<(String, Doc)> = Vec::new();
    let ghost esnap25 = es@;
    es.push(("card_type".to_owned(), Doc::Text("TRAINER".to_owned())));
    proof {
        crate::doc::lemma_entries_view_push(esnap25, es@.last());
        assert(es@ =~= esnap25.push(es@.last()));
    }
    let ghost esnap26 = es@;
    es.push(("subtype".to_owned(), Doc::Text("ITEM".to_owned())));
    proof {
        crate::doc::lemma_entries_view_push(esnap26, es@.last());
        assert(es@ =~= esnap26.push(es@.last()));
    }
    let ghost esnap27 = es@;
    es.push(("name".to_owned(), Doc::Text(x.name.clone())));
    proof {
        crate::doc::lemma_entries_view_push(esnap27, es@.last());
        assert(es@ =~= esnap27.push(es@.last()));
    }
    let ghost esnap28 = es@;
    es.push(("lang".to_owned(), Doc::Text(x.lang.wire())));
    proof {
        crate::doc::lemma_entries_view_push(esnap28, es@.last());
        assert(es@ =~= esnap28.push(es@.last()));
    }
    let ghost esnap29 = es@;
if let Some(v) = &x.foil {
        es.push(("foil".to_owned(), encode_foil(v)));
        proof {
            crate::doc::lemma_entries_view_push(esnap29, es@.last());
            assert(es@ =~= esnap29.push(es@.last()));
        }
    }
    let ghost esnap30 = es@;
    es.push(("size".to_owned(), Doc::Text(x.size.wire())));
    proof {
        crate::doc::lemma_entries_view_push(esnap30, es@.last());
        assert(es@ =~= esnap30.push(es@.last()));
    }
    let ghost esnap31 = es@;
    es.push(("back".to_owned(), Doc::Text(x.back.wire())));
    proof {
        crate::doc::lemma_entries_view_push(esnap31, es@.last());
        assert(es@ =~= esnap31.push(es@.last()));
    }
    let ghost esnap32 = es@;
if let Some(v) = &x.artists {
        es.push(("artists".to_owned(), encode_artists(v)));
        proof {
            crate::doc::lemma_entries_view_push(esnap32, es@.last());
            assert(es@ =~= esnap32.push(es@.last()));
        }
    }
    let ghost esnap33 = es@;
    es.push(("regulation_mark".to_owned(), Doc::Text(x.regulation_mark.wire())));
    proof {
        crate::doc::lemma_entries_view_push(esnap33, es@.last());
        assert(es@ =~= esnap33.push(es@.last()));
    }
    let ghost esnap34 = es@;
    es.push(("set_icon".to_owned(), Doc::Text(x.set_icon.clone())));
    proof {
        crate::doc::lemma_entries_view_push(esnap34, es@.last());
        assert(es@ =~= esnap34.push(es@.last()));
    }
    let ghost esnap35 = es@;
    es.push(("collector_number".to_owned(), encode_collector(&x.collector_number)));
    proof {
        crate::doc::lemma_entries_view_push(esnap35, es@.last());
        assert(es@ =~= esnap35.push(es@.last()));
    }
    let ghost esnap36 = es@;
if let Some(v) = &x.rarity {
        es.push(("rarity".to_owned(), encode_rarity(v)));
        proof {
            crate::doc::lemma_entries_view_push(esnap36, es@.last());
            assert(es@ =~= esnap36.push(es@.last()));
        }
    }
    let ghost esnap37 = es@;
if let Some(v) = &x.copyright {
        es.push(("copyright".to_owned(), encode_copyright(v)));
        proof {
            crate::doc::lemma_entries_view_push(esnap37, es@.last());
            assert(es@ =~= esnap37.push(es@.last()));
        }
    }
    let ghost esnap38 = es@;
if let Some(ts) = &x.tags {
        es.push(("tags".to_owned(), encode_tag_list(ts)));
        proof {
            crate::doc::lemma_entries_view_push(esnap38, es@.last());
            assert(es@ =~= esnap38.push(es@.last()));
        }
    }
    let ghost esnap39 = es@;
if let Some(s) = &x.stage_text {
        es.push(("stage_text".to_owned(), Doc::Text(s.clone())));
        proof {
            crate::doc::lemma_entries_view_push(esnap39, es@.last());
            assert(es@ =~= esnap39.push(es@.last()));
        }
    }
    let ghost esnap40 = es@;
if let Some(v) = x.hp {
        es.push(("hp".to_owned(), Doc::Int(v as i64)));
        proof {
            crate::doc::lemma_entries_view_push(esnap40, es@.last());
            assert(es@ =~= esnap40.push(es@.last()));
        }
    }
    let ghost esnap41 = es@;
if let Some(s) = &x.flavor_text {
        es.push(("flavor_text".to_owned(), Doc::Text(s.clone())));
        proof {
            crate::doc::lemma_entries_view_push(esnap41, es@.last());
            assert(es@ =~= esnap41.push(es@.last()));
        }
    }
    let ghost esnap42 = es@;
    es.push(("text".to_owned(), encode_text_list(&x.text)));
    proof {
        crate::doc::lemma_entries_view_push(esnap42, es@.last());
        assert(es@ =~= esnap42.push(es@.last()));
    }
    let ghost esnap43 = es@;
    es.push(("ext".to_owned(), encode_ext(&x.ext)));
    proof {
        crate::doc::lemma_entries_view_push(esnap43, es@.last());
        assert(es@ =~= esnap43.push(es@.last()));
    }
    let ghost esnap44 = es@;
    es.push(("images".to_owned(), encode_images(&x.images)));
    proof {
        crate::doc::lemma_entries_view_push(esnap44, es@.last());
        assert(es@ =~= esnap44.push(es@.last()));
    }
    Doc::Object(es)
}

#[verifier::opaque]
pub open spec fn enc_supporter(x: SupporterV) -> DocV {
    DocV::Object(
        {
        let m = Map::<Seq<char>, DocV>::empty();
        let m = m.insert("card_type"@, DocV::Text("TRAINER"@));
        let m = m.insert("subtype"@, DocV::Text("SUPPORTER"@));
        let m = m.insert("name"@, DocV::Text(x.name));
        let m = match x.subtitle {
                Some(s) => m.insert("subtitle"@, DocV::Text(s)),
                None => m,
            };
        let m = m.insert("lang"@, DocV::Text(x.lang.wire_v()));
        let m = match x.foil {
                Some(v) => m.insert("foil"@, enc_foil(v)),
                None => m,
            };
        let m = m.insert("size"@, DocV::Text(x.size.wire_v()));
        let m = m.insert("back"@, DocV::Text(x.back.wire_v()));
        let m = match x.artists {
                Some(v) => m.insert("artists"@, enc_artists(v)),
                None => m,
            };
        let m = m.insert("regulation_mark"@, DocV::Text(x.regulation_mark.wire_v()));
        let m = m.insert("set_icon"@, DocV::Text(x.set_icon));
        let m = m.insert("collector_number"@, enc_collector(x.collector_number));
        let m = match x.rarity {
                Some(v) => m.insert("rarity"@, enc_rarity(v)),
                None => m,
            };
        let m = match x.copyright {
                Some(v) => m.insert("copyright"@, enc_copyright(v)),
                None => m,
            };
        let m = match x.tags {
                Some(ts) => m.insert("tags"@, DocV::List(enc_tag_list(ts))),
                None => m,
            };
        let m = m.insert("text"@, DocV::List(enc_text_list(x.text)));
        let m = m.insert("ext"@, enc_ext(x.ext));
        let m = m.insert("images"@, enc_images(x.images));
            m
        },
    )
}

#[verifier::rlimit(100)]
pub fn encode_supporter(x: &Supporter) -> (d: Doc)
    ensures
        d@ == enc_supporter(x@),
{
    reveal(enc_supporter);
    let mut es: Vec<(String, Doc)> = Vec::new();
    let ghost esnap45 = es@;
    es.push(("card_type".to_owned(), Doc::Text("TRAINER".to_owned())));
    proof {
        crate::doc::lemma_entries_view_push(esnap45, es@.last());
        assert(es@ =~= esnap45.push(es@.last()));
    }
    let ghost esnap46 = es@;
    es.push(("subtype".to_owned(), Doc::Text("SUPPORTER".to_owned())));
    proof {
        crate::doc::lemma_entries_view_push(esnap46, es@.last());
        assert(es@ =~= esnap46.push(es@.last()));
    }
    let ghost esnap47 = es@;
    es.push(("name".to_owned(), Doc::Text(x.name.clone())));
    proof {
        crate::doc::lemma_entries_view_push(esnap47, es@.last());
        assert(es@ =~= esnap47.push(es@.last()));
    }
    let ghost esnap48 = es@;
if let Some(s) = &x.subtitle {
        es.push(("subtitle".to_owned(), Doc::Text(s.clone())));
        proof {
            crate::doc::lemma_entries_view_push(esnap48, es@.last());
            assert(es@ =~= esnap48.push(es@.last()));
        }
    }
    let ghost esnap49 = es@;
    es.push(("lang".to_owned(), Doc::Text(x.lang.wire())));
    proof {
        crate::doc::lemma_entries_view_push(esnap49, es@.last());
        assert(es@ =~= esnap49.push(es@.last()));
    }
    let ghost esnap50 = es@;
if let Some(v) = &x.foil {
        es.push(("foil".to_owned(), encode_foil(v)));
        proof {
            crate::doc::lemma_entries_view_push(esnap50, es@.last());
            assert(es@ =~= esnap50.push(es@.last()));
        }
    }
    let ghost esnap51 = es@;
    es.push(("size".to_owned(), Doc::Text(x.size.wire())));
    proof {
        crate::doc::lemma_entries_view_push(esnap51, es@.last());
        assert(es@ =~= esnap51.push(es@.last()));
    }
    let ghost esnap52 = es@;
    es.push(("back".to_owned(), Doc::Text(x.back.wire())));
    proof {
        crate::doc::lemma_entries_view_push(esnap52, es@.last());
        assert(es@ =~= esnap52.push(es@.last()));
    }
    let ghost esnap53 = es@;
if let Some(v) = &x.artists {
        es.push(("artists".to_owned(), encode_artists(v)));
        proof {
            crate::doc::lemma_entries_view_push(esnap53, es@.last());
            assert(es@ =~= esnap53.push(es@.last()));
        }
    }
    let ghost esnap54 = es@;
    es.push(("regulation_mark".to_owned(), Doc::Text(x.regulation_mark.wire())));
    proof {
        crate::doc::lemma_entries_view_push(esnap54, es@.last());
        assert(es@ =~= esnap54.push(es@.last()));
    }
    let ghost esnap55 = es@;
    es.push(("set_icon".to_owned(), Doc::Text(x.set_icon.clone())));
    proof {
        crate::doc::lemma_entries_view_push(esnap55, es@.last());
        assert(es@ =~= esnap55.push(es@.last()));
    }
    let ghost esnap56 = es@;
    es.push(("collector_number".to_owned(), encode_collector(&x.collector_number)));
    proof {
        crate::doc::lemma_entries_view_push(esnap56, es@.last());
        assert(es@ =~= esnap56.push(es@.last()));
    }
    let ghost esnap57 = es@;
if let Some(v) = &x.rarity {
        es.push(("rarity".to_owned(), encode_rarity(v)));
        proof {
            crate::doc::lemma_entries_view_push(esnap57, es@.last());
            assert(es@ =~= esnap57.push(es@.last()));
        }
    }
    let ghost esnap58 = es@;
if let Some(v) = &x.copyright {
        es.push(("copyright".to_owned(), encode_copyright(v)));
        proof {
            crate::doc::lemma_entries_view_push(esnap58, es@.last());
            assert(es@ =~= esnap58.push(es@.last()));
        }
    }
    let ghost esnap59 = es@;
if let Some(ts) = &x.tags {
        es.push(("tags".to_owned(), encode_tag_list(ts)));
        proof {
            crate::doc::lemma_entries_view_push(esnap59, es@.last());
            assert(es@ =~= esnap59.push(es@.last()));
        }
    }
    let ghost esnap60 = es@;
    es.push(("text".to_owned(), encode_text_list(&x.text)));
    proof {
        crate::doc::lemma_entries_view_push(esnap60, es@.last());
        assert(es@ =~= esnap60.push(es@.last()));
    }
    let ghost esnap61 = es@;
    es.push(("ext".to_owned(), encode_ext(&x.ext)));
    proof {
        crate::doc::lemma_entries_view_push(esnap61, es@.last());
        assert(es@ =~= esnap61.push(es@.last()));
    }
    let ghost esnap62 = es@;
    es.push(("images".to_owned(), encode_images(&x.images)));
    proof {
        crate::doc::lemma_entries_view_push(esnap62, es@.last());
        assert(es@ =~= esnap62.push(es@.last()));
    }
    Doc::Object(es)
}

#[verifier::opaque]
pub open spec fn enc_tool(x: ToolV) -> DocV {
    DocV::Object(
        {
        let m = Map::<Seq<char>, DocV>::empty();
        let m = m.insert("card_type"@, DocV::Text("TRAINER"@));
        let m = m.insert("subtype"@, DocV::Text("TOOL"@));
        let m = m.insert("name"@, DocV::Text(x.name));
        let m = m.insert("lang"@, DocV::Text(x.lang.wire_v()));
        let m = match x.foil {
                Some(v) => m.insert("foil"@, enc_foil(v)),
                None => m,
            };
        let m = m.insert("size"@, DocV::Text(x.size.wire_v()));
        let m = m.insert("back"@, DocV::Text(x.back.wire_v()));
        let m = match x.artists {
                Some(v) => m.insert("artists"@, enc_artists(v)),
                None => m,
            };
        let m = m.insert("regulation_mark"@, DocV::Text(x.regulation_mark.wire_v()));
        let m = m.insert("set_icon"@, DocV::Text(x.set_icon));
        let m = m.insert("collector_number"@, enc_collector(x.collector_number));
        let m = match x.rarity {
                Some(v) => m.insert("rarity"@, enc_rarity(v)),
                None => m,
            };
        let m = match x.copyright {
                Some(v) => m.insert("copyright"@, enc_copyright(v)),
                None => m,
            };
        let m = match x.tags {
                Some(ts) => m.insert("tags"@, DocV::List(enc_tag_list(ts))),
                None => m,
            };
        let m = match x.flavor_text {
                Some(s) => m.insert("flavor_text"@, DocV::Text(s)),
                None => m,
            };
        let m = m.insert("text"@, DocV::List(enc_text_list(x.text)));
        let m = m.insert("ext"@, enc_ext(x.ext));
        let m = m.insert("images"@, enc_images(x.images));
            m
        },
    )
}

#[verifier::rlimit(100)]
pub fn encode_tool(x: &Tool) -> (d: Doc)
    ensures
        d@ == enc_tool(x@),
{
    reveal(enc_tool);
    let mut es: Vec<(String, Doc)> = Vec::new();
    let ghost esnap63 = es@;
    es.push(("card_type".to_owned(), Doc::Text("TRAINER".to_owned())));
    proof {
        crate::doc::lemma_entries_view_push(esnap63, es@.last());
        assert(es@ =~= esnap63.push(es@.last()));
    }
    let ghost esnap64 = es@;
    es.push(("subtype".to_owned(), Doc::Text("TOOL".to_owned())));
    proof {
        crate::doc::lemma_entries_view_push(esnap64, es@.last());
        assert(es@ =~= esnap64.push(es@.last()));
    }
    let ghost esnap65 = es@;
    es.push(("name".to_owned(), Doc::Text(x.name.clone())));
    proof {
        crate::doc::lemma_entries_view_push(esnap65, es@.last());
        assert(es@ =~= esnap65.push(es@.last()));
    }
    let ghost esnap66 = es@;
    es.push(("lang".to_owned(), Doc::Text(x.lang.wire())));
    proof {
        crate::doc::lemma_entries_view_push(esnap66, es@.last());
        assert(es@ =~= esnap66.push(es@.last()));
    }
    let ghost esnap67 = es@;
if let Some(v) = &x.foil {
        es.push(("foil".to_owned(), encode_foil(v)));
        proof {
            crate::doc::lemma_entries_view_push(esnap67, es@.last());
            assert(es@ =~= esnap67.push(es@.last()));
        }
    }
    let ghost esnap68 = es@;
    es.push(("size".to_owned(), Doc::Text(x.size.wire())));
    proof {
        crate::doc::lemma_entries_view_push(esnap68, es@.last());
        assert(es@ =~= esnap68.push(es@.last()));
    }
    let ghost esnap69 = es@;
    es.push(("back".to_owned(), Doc::Text(x.back.wire())));
    proof {
        crate::doc::lemma_entries_view_push(esnap69, es@.last());
        assert(es@ =~= esnap69.push(es@.last()));
    }
    let ghost esnap70 = es@;
if let Some(v) = &x.artists {
        es.push(("artists".to_owned(), encode_artists(v)));
        proof {
            crate::doc::lemma_entries_view_push(esnap70, es@.last());
            assert(es@ =~= esnap70.push(es@.last()));
        }
    }
    let ghost esnap71 = es@;
    es.push(("regulation_mark".to_owned(), Doc::Text(x.regulation_mark.wire())));
    proof {
        crate::doc::lemma_entries_view_push(esnap71, es@.last());
        assert(es@ =~= esnap71.push(es@.last()));
    }
    let ghost esnap72 = es@;
    es.push(("set_icon".to_owned(), Doc::Text(x.set_icon.clone())));
    proof {
        crate::doc::lemma_entries_view_push(esnap72, es@.last());
        assert(es@ =~= esnap72.push(es@.last()));
    }
    let ghost esnap73 = es@;
    es.push(("collector_number".to_owned(), encode_collector(&x.collector_number)));
    proof {
        crate::doc::lemma_entries_view_push(esnap73, es@.last());
        assert(es@ =~= esnap73.push(es@.last()));
    }
    let ghost esnap74 = es@;
if let Some(v) = &x.rarity {
        es.push(("rarity".to_owned(), encode_rarity(v)));
        proof {
            crate::doc::lemma_entries_view_push(esnap74, es@.last());
            assert(es@ =~= esnap74.push(es@.last()));
        }
    }
    let ghost esnap75 = es@;
if let Some(v) = &x.copyright {
        es.push(("copyright".to_owned(), encode_copyright(v)));
        proof {
            crate::doc::lemma_entries_view_push(esnap75, es@.last());
            assert(es@ =~= esnap75.push(es@.last()));
        }
    }
    let ghost esnap76 = es@;
if let Some(ts) = &x.tags {
        es.push(("tags".to_owned(), encode_tag_list(ts)));
        proof {
            crate::doc::lemma_entries_view_push(esnap76, es@.last());
            assert(es@ =~= esnap76.push(es@.last()));
        }
    }
    let ghost esnap77 = es@;
if let Some(s) = &x.flavor_text {
        es.push(("flavor_text".to_owned(), Doc::Text(s.clone())));
        proof {
            crate::doc::lemma_entries_view_push(esnap77, es@.last());
            assert(es@ =~= esnap77.push(es@.last()));
        }
    }
    let ghost esnap78 = es@;
    es.push(("text".to_owned(), encode_text_list(&x.text)));
    proof {
        crate::doc::lemma_entries_view_push(esnap78, es@.last());
        assert(es@ =~= esnap78.push(es@.last()));
    }
    let ghost esnap79 = es@;
    es.push(("ext".to_owned(), encode_ext(&x.ext)));
    proof {
        crate::doc::lemma_entries_view_push(esnap79, es@.last());
        assert(es@ =~= esnap79.push(es@.last()));
    }
    let ghost esnap80 = es@;
    es.push(("images".to_owned(), encode_images(&x.images)));
    proof {
        crate::doc::lemma_entries_view_push(esnap80, es@.last());
        assert(es@ =~= esnap80.push(es@.last()));
    }
    Doc::Object(es)
}

#[verifier::opaque]
pub open spec fn enc_stadium(x: StadiumV) -> DocV {
    DocV::Object(
        {
        let m = Map::<Seq<char>, DocV>::empty();
        let m = m.insert("card_type"@, DocV::Text("TRAINER"@));
        let m = m.insert("subtype"@, DocV::Text("STADIUM"@));
        let m = m.insert("name"@, DocV::Text(x.name));
        let m = m.insert("lang"@, DocV::Text(x.lang.wire_v()));
        let m = match x.foil {
                Some(v) => m.insert("foil"@, enc_foil(v)),
                None => m,
            };
        let m = m.insert("size"@, DocV::Text(x.size.wire_v()));
        let m = m.insert("back"@, DocV::Text(x.back.wire_v()));
        let m = match x.artists {
                Some(v) => m.insert("artists"@, enc_artists(v)),
                None => m,
            };
        let m = m.insert("regulation_mark"@, DocV::Text(x.regulation_mark.wire_v()));
        let m = m.insert("set_icon"@, DocV::Text(x.set_icon));
        let m = m.insert("collector_number"@, enc_collector(x.collector_number));
        let m = match x.rarity {
                Some(v) => m.insert("rarity"@, enc_rarity(v)),
                None => m,
            };
        let m = match x.copyright {
                Some(v) => m.insert("copyright"@, enc_copyright(v)),
                None => m,
            };
        let m = match x.tags {
                Some(ts) => m.insert("tags"@, DocV::List(enc_tag_list(ts))),
                None => m,
            };
        let m = match x.flavor_text {
                Some(s) => m.insert("flavor_text"@, DocV::Text(s)),
                None => m,
            };
        let m = m.insert("text"@, DocV::List(enc_text_list(x.text)));
        let m = m.insert("ext"@, enc_ext(x.ext));
        let m = m.insert("images"@, enc_images(x.images));
            m
        },
    )
}

#[verifier::rlimit(100)]
pub fn encode_stadium(x: &Stadium) -> (d: Doc)
    ensures
        d@ == enc_stadium(x@),
{
    reveal(enc_stadium);
    let mut es: Vec<(String, Doc)> = Vec::new();
    let ghost esnap81 = es@;
    es.push(("card_type".to_owned(), Doc::Text("TRAINER".to_owned())));
    proof {
        crate::doc::lemma_entries_view_push(esnap81, es@.last());
        assert(es@ =~= esnap81.push(es@.last()));
    }
    let ghost esnap82 = es@;
    es.push(("subtype".to_owned(), Doc::Text("STADIUM".to_owned())));
    proof {
        crate::doc::lemma_entries_view_push(esnap82, es@.last());
        assert(es@ =~= esnap82.push(es@.last()));
    }
    let ghost esnap83 = es@;
    es.push(("name".to_owned(), Doc::Text(x.name.clone())));
    proof {
        crate::doc::lemma_entries_view_push(esnap83, es@.last());
        assert(es@ =~= esnap83.push(es@.last()));
    }
    let ghost esnap84 = es@;
    es.push(("lang".to_owned(), Doc::Text(x.lang.wire())));
    proof {
        crate::doc::lemma_entries_view_push(esnap84, es@.last());
        assert(es@ =~= esnap84.push(es@.last()));
    }
    let ghost esnap85 = es@;
if let Some(v) = &x.foil {
        es.push(("foil".to_owned(), encode_foil(v)));
        proof {
            crate::doc::lemma_entries_view_push(esnap85, es@.last());
            assert(es@ =~= esnap85.push(es@.last()));
        }
    }
    let ghost esnap86 = es@;
    es.push(("size".to_owned(), Doc::Text(x.size.wire())));
    proof {
        crate::doc::lemma_entries_view_push(esnap86, es@.last());
        assert(es@ =~= esnap86.push(es@.last()));
    }
    let ghost esnap87 = es@;
    es.push(("back".to_owned(), Doc::Text(x.back.wire())));
    proof {
        crate::doc::lemma_entries_view_push(esnap87, es@.last());
        assert(es@ =~= esnap87.push(es@.last()));
    }
    let ghost esnap88 = es@;
if let Some(v) = &x.artists {
        es.push(("artists".to_owned(), encode_artists(v)));
        proof {
            crate::doc::lemma_entries_view_push(esnap88, es@.last());
            assert(es@ =~= esnap88.push(es@.last()));
        }
    }
    let ghost esnap89 = es@;
    es.push(("regulation_mark".to_owned(), Doc::Text(x.regulation_mark.wire())));
    proof {
        crate::doc::lemma_entries_view_push(esnap89, es@.last());
        assert(es@ =~= esnap89.push(es@.last()));
    }
    let ghost esnap90 = es@;
    es.push(("set_icon".to_owned(), Doc::Text(x.set_icon.clone())));
    proof {
        crate::doc::lemma_entries_view_push(esnap90, es@.last());
        assert(es@ =~= esnap90.push(es@.last()));
    }
    let ghost esnap91 = es@;
    es.push(("collector_number".to_owned(), encode_collector(&x.collector_number)));
    proof {
        crate::doc::lemma_entries_view_push(esnap91, es@.last());
        assert(es@ =~= esnap91.push(es@.last()));
    }
    let ghost esnap92 = es@;
if let Some(v) = &x.rarity {
        es.push(("rarity".to_owned(), encode_rarity(v)));
        proof {
            crate::doc::lemma_entries_view_push(esnap92, es@.last());
            assert(es@ =~= esnap92.push(es@.last()));
        }
    }
    let ghost esnap93 = es@;
if let Some(v) = &x.copyright {
        es.push(("copyright".to_owned(), encode_copyright(v)));
        proof {
            crate::doc::lemma_entries_view_push(esnap93, es@.last());
            assert(es@ =~= esnap93.push(es@.last()));
        }
    }
    let ghost esnap94 = es@;
if let Some(ts) = &x.tags {
        es.push(("tags".to_owned(), encode_tag_list(ts)));
        proof {
            crate::doc::lemma_entries_view_push(esnap94, es@.last());
            assert(es@ =~= esnap94.push(es@.last()));
        }
    }
    let ghost esnap95 = es@;
if let Some(s) = &x.flavor_text {
        es.push(("flavor_text".to_owned(), Doc::Text(s.clone())));
        proof {
            crate::doc::lemma_entries_view_push(esnap95, es@.last());
            assert(es@ =~= esnap95.push(es@.last()));
        }
    }
    let ghost esnap96 = es@;
    es.push(("text".to_owned(), encode_text_list(&x.text)));
    proof {
        crate::doc::lemma_entries_view_push(esnap96, es@.last());
        assert(es@ =~= esnap96.push(es@.last()));
    }
    let ghost esnap97 = es@;
    es.push(("ext".to_owned(), encode_ext(&x.ext)));
    proof {
        crate::doc::lemma_entries_view_push(esnap97, es@.last());
        assert(es@ =~= esnap97.push(es@.last()));
    }
    let ghost esnap98 = es@;
    es.push(("images".to_owned(), encode_images(&x.images)));
    proof {
        crate::doc::lemma_entries_view_push(esnap98, es@.last());
        assert(es@ =~= esnap98.push(es@.last()));
    }
    Doc::Object(es)
}

#[verifier::opaque]
pub open spec fn enc_basic_energy(x: BasicEnergyV) -> DocV {
    DocV::Object(
        {
        let m = Map::<Seq<char>, DocV>::empty();
        let m = m.insert("card_type"@, DocV::Text("ENERGY"@));
        let m = m.insert("subtype"@, DocV::Text("BASIC"@));
        let m = m.insert("name"@, DocV::Text(x.name));
        let m = m.insert("lang"@, DocV::Text(x.lang.wire_v()));
        let m = match x.foil {
                Some(v) => m.insert("foil"@, enc_foil(v)),
                None => m,
            };
        let m = m.insert("size"@, DocV::Text(x.size.wire_v()));
        let m = m.insert("back"@, DocV::Text(x.back.wire_v()));
        let m = m.insert("set_icon"@, DocV::Text(x.set_icon));
        let m = m.insert("collector_number"@, enc_collector(x.collector_number));
        let m = match x.rarity {
                Some(v) => m.insert("rarity"@, enc_rarity(v)),
                None => m,
            };
        let m = match x.copyright {
                Some(v) => m.insert("copyright"@, enc_copyright(v)),
                None => m,
            };
        let m = match x.tags {
                Some(ts) => m.insert("tags"@, DocV::List(enc_tag_list(ts))),
                None => m,
            };
        let m = m.insert("ext"@, enc_ext(x.ext));
        let m = m.insert("images"@, enc_images(x.images));
        let m = m.insert("types"@, DocV::List(enc_energy_list(x.types)));
            m
        },
    )
}

#[verifier::rlimit(100)]
pub fn encode_basic_energy(x: &BasicEnergy) -> (d: Doc)
    ensures
        d@ == enc_basic_energy(x@),
{
    reveal(enc_basic_energy);
    let mut es: Vec<(String, Doc)> = Vec::new();
    let ghost esnap99 = es@;
    es.push(("card_type".to_owned(), Doc::Text("ENERGY".to_owned())));
    proof {
        crate::doc::lemma_entries_view_push(esnap99, es@.last());
        assert(es@ =~= esnap99.push(es@.last()));
    }
    let ghost esnap100 = es@;
    es.push(("subtype".to_owned(), Doc::Text("BASIC".to_owned())));
    proof {
        crate::doc::lemma_entries_view_push(esnap100, es@.last());
        assert(es@ =~= esnap100.push(es@.last()));
    }
    let ghost esnap101 = es@;
    es.push(("name".to_owned(), Doc::Text(x.name.clone())));
    proof {
        crate::doc::lemma_entries_view_push(esnap101, es@.last());
        assert(es@ =~= esnap101.push(es@.last()));
    }
    let ghost esnap102 = es@;
    es.push(("lang".to_owned(), Doc::Text(x.lang.wire())));
    proof {
        crate::doc::lemma_entries_view_push(esnap102, es@.last());
        assert(es@ =~= esnap102.push(es@.last()));
    }
    let ghost esnap103 = es@;
if let Some(v) = &x.foil {
        es.push(("foil".to_owned(), encode_foil(v)));
        proof {
            crate::doc::lemma_entries_view_push(esnap103, es@.last());
            assert(es@ =~= esnap103.push(es@.last()));
        }
    }
    let ghost esnap104 = es@;
    es.push(("size".to_owned(), Doc::Text(x.size.wire())));
    proof {
        crate::doc::lemma_entries_view_push(esnap104, es@.last());
        assert(es@ =~= esnap104.push(es@.last()));
    }
    let ghost esnap105 = es@;
    es.push(("back".to_owned(), Doc::Text(x.back.wire())));
    proof {
        crate::doc::lemma_entries_view_push(esnap105, es@.last());
        assert(es@ =~= esnap105.push(es@.last()));
    }
    let ghost esnap106 = es@;
    es.push(("set_icon".to_owned(), Doc::Text(x.set_icon.clone())));
    proof {
        crate::doc::lemma_entries_view_push(esnap106, es@.last());
        assert(es@ =~= esnap106.push(es@.last()));
    }
    let ghost esnap107 = es@;
    es.push(("collector_number".to_owned(), encode_collector(&x.collector_number)));
    proof {
        crate::doc::lemma_entries_view_push(esnap107, es@.last());
        assert(es@ =~= esnap107.push(es@.last()));
    }
    let ghost esnap108 = es@;
if let Some(v) = &x.rarity {
        es.push(("rarity".to_owned(), encode_rarity(v)));
        proof {
            crate::doc::lemma_entries_view_push(esnap108, es@.last());
            assert(es@ =~= esnap108.push(es@.last()));
        }
    }
    let ghost esnap109 = es@;
if let Some(v) = &x.copyright {
        es.push(("copyright".to_owned(), encode_copyright(v)));
        proof {
            crate::doc::lemma_entries_view_push(esnap109, es@.last());
            assert(es@ =~= esnap109.push(es@.last()));
        }
    }
    let ghost esnap110 = es@;
if let Some(ts) = &x.tags {
        es.push(("tags".to_owned(), encode_tag_list(ts)));
        proof {
            crate::doc::lemma_entries_view_push(esnap110, es@.last());
            assert(es@ =~= esnap110.push(es@.last()));
        }
    }
    let ghost esnap111 = es@;
    es.push(("ext".to_owned(), encode_ext(&x.ext)));
    proof {
        crate::doc::lemma_entries_view_push(esnap111, es@.last());
        assert(es@ =~= esnap111.push(es@.last()));
    }
    let ghost esnap112 = es@;
    es.push(("images".to_owned(), encode_images(&x.images)));
    proof {
        crate::doc::lemma_entries_view_push(esnap112, es@.last());
        assert(es@ =~= esnap112.push(es@.last()));
    }
    let ghost esnap113 = es@;
    es.push(("types".to_owned(), encode_energy_list(&x.types)));
    proof {
        crate::doc::lemma_entries_view_push(esnap113, es@.last());
        assert(es@ =~= esnap113.push(es@.last()));
    }
    Doc::Object(es)
}

#[verifier::opaque]
pub open spec fn enc_special_energy(x: SpecialEnergyV) -> DocV {
    DocV::Object(
        {
        let m = Map::<Seq<char>, DocV>::empty();
        let m = m.insert("card_type"@, DocV::Text("ENERGY"@));
        let m = m.insert("subtype"@, DocV::Text("SPECIAL"@));
        let m = m.insert("name"@, DocV::Text(x.name));
        let m = m.insert("lang"@, DocV::Text(x.lang.wire_v()));
        let m = match x.foil {
                Some(v) => m.insert("foil"@, enc_foil(v)),
                None => m,
            };
        let m = m.insert("size"@, DocV::Text(x.size.wire_v()));
        let m = m.insert("back"@, DocV::Text(x.back.wire_v()));
        let m = m.insert("regulation_mark"@, DocV::Text(x.regulation_mark.wire_v()));
        let m = m.insert("set_icon"@, DocV::Text(x.set_icon));
        let m = m.insert("collector_number"@, enc_collector(x.collector_number));
        let m = match x.rarity {
                Some(v) => m.insert("rarity"@, enc_rarity(v)),
                None => m,
            };
        let m = match x.copyright {
                Some(v) => m.insert("copyright"@, enc_copyright(v)),
                None => m,
            };
        let m = match x.tags {
                Some(ts) => m.insert("tags"@, DocV::List(enc_tag_list(ts))),
                None => m,
            };
        let m = match x.flavor_text {
                Some(s) => m.insert("flavor_text"@, DocV::Text(s)),
                None => m,
            };
        let m = m.insert("text"@, DocV::List(enc_text_list(x.text)));
        let m = m.insert("ext"@, enc_ext(x.ext));
        let m = m.insert("images"@, enc_images(x.images));
            m
        },
    )
}

#[verifier::rlimit(100)]
pub fn encode_special_energy(x: &SpecialEnergy) -> (d: Doc)
    ensures
        d@ == enc_special_energy(x@),
{
    reveal(enc_special_energy);
    let mut es: Vec<(String, Doc)> = Vec::new();
    let ghost esnap114 = es@;
    es.push(("card_type".to_owned(), Doc::Text("ENERGY".to_owned())));
    proof {
        crate::doc::lemma_entries_view_push(esnap114, es@.last());
        assert(es@ =~= esnap114.push(es@.last()));
    }
    let ghost esnap115 = es@;
    es.push(("subtype".to_owned(), Doc::Text("SPECIAL".to_owned())));
    proof {
        crate::doc::lemma_entries_view_push(esnap115, es@.last());
        assert(es@ =~= esnap115.push(es@.last()));
    }
    let ghost esnap116 = es@;
    es.push(("name".to_owned(), Doc::Text(x.name.clone())));
    proof {
        crate::doc::lemma_entries_view_push(esnap116, es@.last());
        assert(es@ =~= esnap116.push(es@.last()));
    }
    let ghost esnap117 = es@;
    es.push(("lang".to_owned(), Doc::Text(x.lang.wire())));
    proof {
        crate::doc::lemma_entries_view_push(esnap117, es@.last());
        assert(es@ =~= esnap117.push(es@.last()));
    }
    let ghost esnap118 = es@;
if let Some(v) = &x.foil {
        es.push(("foil".to_owned(), encode_foil(v)));
        proof {
            crate::doc::lemma_entries_view_push(esnap118, es@.last());
            assert(es@ =~= esnap118.push(es@.last()));
        }
    }
    let ghost esnap119 = es@;
    es.push(("size".to_owned(), Doc::Text(x.size.wire())));
    proof {
        crate::doc::lemma_entries_view_push(esnap119, es@.last());
        assert(es@ =~= esnap119.push(es@.last()));
    }
    let ghost esnap120 = es@;
    es.push(("back".to_owned(), Doc::Text(x.back.wire())));
    proof {
        crate::doc::lemma_entries_view_push(esnap120, es@.last());
        assert(es@ =~= esnap120.push(es@.last()));
    }
    let ghost esnap121 = es@;
    es.push(("regulation_mark".to_owned(), Doc::Text(x.regulation_mark.wire())));
    proof {
        crate::doc::lemma_entries_view_push(esnap121, es@.last());
        assert(es@ =~= esnap121.push(es@.last()));
    }
    let ghost esnap122 = es@;
    es.push(("set_icon".to_owned(), Doc::Text(x.set_icon.clone())));
    proof {
        crate::doc::lemma_entries_view_push(esnap122, es@.last());
        assert(es@ =~= esnap122.push(es@.last()));
    }
    let ghost esnap123 = es@;
    es.push(("collector_number".to_owned(), encode_collector(&x.collector_number)));
    proof {
        crate::doc::lemma_entries_view_push(esnap123, es@.last());
        assert(es@ =~= esnap123.push(es@.last()));
    }
    let ghost esnap124 = es@;
if let Some(v) = &x.rarity {
        es.push(("rarity".to_owned(), encode_rarity(v)));
        proof {
            crate::doc::lemma_entries_view_push(esnap124, es@.last());
            assert(es@ =~= esnap124.push(es@.last()));
        }
    }
    let ghost esnap125 = es@;
if let Some(v) = &x.copyright {
        es.push(("copyright".to_owned(), encode_copyright(v)));
        proof {
            crate::doc::lemma_entries_view_push(esnap125, es@.last());
            assert(es@ =~= esnap125.push(es@.last()));
        }
    }
    let ghost esnap126 = es@;
if let Some(ts) = &x.tags {
        es.push(("tags".to_owned(), encode_tag_list(ts)));
        proof {
            crate::doc::lemma_entries_view_push(esnap126, es@.last());
            assert(es@ =~= esnap126.push(es@.last()));
        }
    }
    let ghost esnap127 = es@;
if let Some(s) = &x.flavor_text {
        es.push(("flavor_text".to_owned(), Doc::Text(s.clone())));
        proof {
            crate::doc::lemma_entries_view_push(esnap127, es@.last());
            assert(es@ =~= esnap127.push(es@.last()));
        }
    }
    let ghost esnap128 = es@;
    es.push(("text".to_owned(), encode_text_list(&x.text)));
    proof {
        crate::doc::lemma_entries_view_push(esnap128, es@.last());
        assert(es@ =~= esnap128.push(es@.last()));
    }
    let ghost esnap129 = es@;
    es.push(("ext".to_owned(), encode_ext(&x.ext)));
    proof {
        crate::doc::lemma_entries_view_push(esnap129, es@.last());
        assert(es@ =~= esnap129.push(es@.last()));
    }
    let ghost esnap130 = es@;
    es.push(("images".to_owned(), encode_images(&x.images)));
    proof {
        crate::doc::lemma_entries_view_push(esnap130, es@.last());
        assert(es@ =~= esnap130.push(es@.last()));
    }
    Doc::Object(es)
}

/// The canonical document of a trainer card.
pub open spec fn enc_trainer(x: TrainerV) -> DocV {
    match x {
        TrainerV::Item(y) => enc_item(y),
        TrainerV::Supporter(y) => enc_supporter(y),
        TrainerV::Tool(y) => enc_tool(y),
        TrainerV::Stadium(y) => enc_stadium(y),
    }
}

pub fn encode_trainer(x: &Trainer) -> (d: Doc)
    ensures
        d@ == enc_trainer(x@),
{
    match x {
        Trainer::Item(y) => encode_item(y),
        Trainer::Supporter(y) => encode_supporter(y),
        Trainer::Tool(y) => encode_tool(y),
        Trainer::Stadium(y) => encode_stadium(y),
    }
}

/// The canonical document of an energy card.
pub open spec fn enc_energy(x: EnergyV) -> DocV {
    match x {
        EnergyV::Basic(y) => enc_basic_energy(y),
        EnergyV::Special(y) => enc_special_energy(y),
    }
}

pub fn encode_energy(x: &Energy) -> (d: Doc)
    ensures
        d@ == enc_energy(x@),
{
    match x {
        Energy::Basic(y) => encode_basic_energy(y),
        Energy::Special(y) => encode_special_energy(y),
    }
}

/// The canonical document of one card record.
#[verifier::opaque]
pub open spec fn enc_card(x: CardV) -> DocV {
    match x {
        CardV::Pokemon(y) => enc_pokemon(y),
        CardV::Trainer(y) => enc_trainer(y),
        CardV::Energy(y) => enc_energy(y),
    }
}

/// Encodes one card record.
pub fn encode_card(x: &Card) -> (d: Doc)
    ensures
        d@ == enc_card(x@),
{
    reveal(enc_card);
    match x {
        Card::Pokemon(y) => encode_pokemon(y),
        Card::Trainer(y) => encode_trainer(y),
        Card::Energy(y) => encode_energy(y),
    }
}

/// The canonical document of a list of card records.
pub open spec fn enc_card_list(cs: Seq<CardV>) -> Seq<DocV> {
    cs.map_values(|c: CardV| enc_card(c))
}

/// The canonical document of a whole record list: the root is always an
/// ordered list of card documents.
pub open spec fn enc_cards(cs: Seq<CardV>) -> DocV {
    DocV::List(enc_card_list(cs))
}

/// Encodes a whole record list back into a document. Encoding never
/// fails: every in-memory value has a canonical document.
pub fn encode_cards(xs: &Vec<Card>) -> (d: Doc)
    ensures
        d@ == enc_cards(cards_view(xs@)),
{
    let mut out: Vec<Doc> = Vec::new();
    let mut i: usize = 0;
    while i < xs.len()
        invariant
            0 <= i <= xs@.len(),
            list_view(out@) =~= enc_card_list(cards_view(xs@.take(i as int))),
        decreases xs@.len() - i,
    {
        out.push(encode_card(&xs[i]));
        proof {
            assert(cards_view(xs@.take(i + 1)) =~= cards_view(xs@.take(i as int)).push(
                xs@[i as int]@,
            ));
            assert(enc_card_list(cards_view(xs@.take(i as int)).push(xs@[i as int]@))
                =~= enc_card_list(cards_view(xs@.take(i as int))).push(enc_card(xs@[i as int]@)));
            assert(list_view(out@) =~= enc_card_list(cards_view(xs@.take(i + 1))));
        }
        i = i + 1;
    }
    proof {
        assert(xs@.take(xs@.len() as int) =~= xs@);
    }
    Doc::List(out)
}

} // verus!
