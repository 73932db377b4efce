//! The closed token sets: each is a finite set of symbolic tokens with
//! fixed wire strings. Decoding any string outside a set is a failure; no
//! default token exists.

use vstd::prelude::*;
use crate::util::str_eq;

verus! {

broadcast use vstd::seq::group_seq_axioms;

/// Card language tag.
#[derive(Debug, Clone, Copy, PartialEq, Eq, Structural)]
pub enum Lang {
    EnUs,
    FrFr,
    ItIt,
    DeDe,
    EsEs,
    PtBr,
}

impl Lang {
    pub open spec fn wire_v(&self) -> Seq<char> {
        match self {
            Lang::EnUs => "en-US"@,
            Lang::FrFr => "fr-FR"@,
            Lang::ItIt => "it-IT"@,
            Lang::DeDe => "de-DE"@,
            Lang::EsEs => "es-ES"@,
            Lang::PtBr => "pt-BR"@,
        }
    }

    pub open spec fn of_wire(s: Seq<char>) -> Option<Lang> {
        if s == "en-US"@ {
            Some(Lang::EnUs)
        } else if s == "fr-FR"@ {
            Some(Lang::FrFr)
        } else if s == "it-IT"@ {
            Some(Lang::ItIt)
        } else if s == "de-DE"@ {
            Some(Lang::DeDe)
        } else if s == "es-ES"@ {
            Some(Lang::EsEs)
        } else if s == "pt-BR"@ {
            Some(Lang::PtBr)
        } else {
            None
        }
    }

    pub fn wire(&self) -> (r: String)
        ensures
            r@ == self.wire_v(),
    {
        match self {
            Lang::EnUs => "en-US".to_owned(),
            Lang::FrFr => "fr-FR".to_owned(),
            Lang::ItIt => "it-IT".to_owned(),
            Lang::DeDe => "de-DE".to_owned(),
            Lang::EsEs => "es-ES".to_owned(),
            Lang::PtBr => "pt-BR".to_owned(),
        }
    }

    pub fn parse(s: &str) -> (r: Option<Lang>)
        ensures
            r == Lang::of_wire(s@),
    {
        if str_eq(s, "en-US") {
            Some(Lang::EnUs)
        } else if str_eq(s, "fr-FR") {
            Some(Lang::FrFr)
        } else if str_eq(s, "it-IT") {
            Some(Lang::ItIt)
        } else if str_eq(s, "de-DE") {
            Some(Lang::DeDe)
        } else if str_eq(s, "es-ES") {
            Some(Lang::EsEs)
        } else if str_eq(s, "pt-BR") {
            Some(Lang::PtBr)
        } else {
            None
        }
    }
}

/// Law: a language token's wire string parses back to the token, and a
/// string that parses is the wire string of what it parses to.
pub proof fn lemma_lang_wire(t: Lang, s: Seq<char>)
    ensures
        Lang::of_wire(t.wire_v()) == Some(t),
        Lang::of_wire(s) matches Some(u) ==> u.wire_v() == s,
{
    reveal_strlit("en-US");
    reveal_strlit("fr-FR");
    reveal_strlit("it-IT");
    reveal_strlit("de-DE");
    reveal_strlit("es-ES");
    reveal_strlit("pt-BR");
    assert("en-US"@.len() == 5);
    assert("fr-FR"@.len() == 5);
    assert("it-IT"@.len() == 5);
    assert("de-DE"@.len() == 5);
    assert("es-ES"@.len() == 5);
    assert("pt-BR"@.len() == 5);
    assert("en-US"@[0] == 'e');
    assert("en-US"@[1] == 'n');
    assert("en-US"@[2] == '-');
    assert("en-US"@[3] == 'U');
    assert("en-US"@[4] == 'S');
    assert("fr-FR"@[0] == 'f');
    assert("fr-FR"@[1] == 'r');
    assert("fr-FR"@[2] == '-');
    assert("fr-FR"@[3] == 'F');
    assert("fr-FR"@[4] == 'R');
    assert("it-IT"@[0] == 'i');
    assert("it-IT"@[1] == 't');
    assert("it-IT"@[2] == '-');
    assert("it-IT"@[3] == 'I');
    assert("it-IT"@[4] == 'T');
    assert("de-DE"@[0] == 'd');
    assert("de-DE"@[1] == 'e');
    assert("de-DE"@[2] == '-');
    assert("de-DE"@[3] == 'D');
    assert("de-DE"@[4] == 'E');
    assert("es-ES"@[0] == 'e');
    assert("es-ES"@[1] == 's');
    assert("es-ES"@[2] == '-');
    assert("es-ES"@[3] == 'E');
    assert("es-ES"@[4] == 'S');
    assert("pt-BR"@[0] == 'p');
    assert("pt-BR"@[1] == 't');
    assert("pt-BR"@[2] == '-');
    assert("pt-BR"@[3] == 'B');
    assert("pt-BR"@[4] == 'R');
}

/// Foil treatment type.
#[derive(Debug, Clone, Copy, PartialEq, Eq, Structural)]
pub enum FoilType {
    Stamped,
    Cosmos,
    FlatSilver,
    SunPillar,
    SvHolo,
    SvUltra,
    SvUltraScodix,
    AceFoil,
}

impl FoilType {
    pub open spec fn wire_v(&self) -> Seq<char> {
        match self {
            FoilType::Stamped => "STAMPED"@,
            FoilType::Cosmos => "COSMOS"@,
            FoilType::FlatSilver => "FLAT_SILVER"@,
            FoilType::SunPillar => "SUN_PILLAR"@,
            FoilType::SvHolo => "SV_HOLO"@,
            FoilType::SvUltra => "SV_ULTRA"@,
            FoilType::SvUltraScodix => "SV_ULTRA_SCODIX"@,
            FoilType::AceFoil => "ACE_FOIL"@,
        }
    }

    pub open spec fn of_wire(s: Seq<char>) -> Option<FoilType> {
        if s == "STAMPED"@ {
            Some(FoilType::Stamped)
        } else if s == "COSMOS"@ {
            Some(FoilType::Cosmos)
        } else if s == "FLAT_SILVER"@ {
            Some(FoilType::FlatSilver)
        } else if s == "SUN_PILLAR"@ {
            Some(FoilType::SunPillar)
        } else if s == "SV_HOLO"@ {
            Some(FoilType::SvHolo)
        } else if s == "SV_ULTRA"@ {
            Some(FoilType::SvUltra)
        } else if s == "SV_ULTRA_SCODIX"@ {
            Some(FoilType::SvUltraScodix)
        } else if s == "ACE_FOIL"@ {
            Some(FoilType::AceFoil)
        } else {
            None
        }
    }

    pub fn wire(&self) -> (r: String)
        ensures
            r@ == self.wire_v(),
    {
        match self {
            FoilType::Stamped => "STAMPED".to_owned(),
            FoilType::Cosmos => "COSMOS".to_owned(),
            FoilType::FlatSilver => "FLAT_SILVER".to_owned(),
            FoilType::SunPillar => "SUN_PILLAR".to_owned(),
            FoilType::SvHolo => "SV_HOLO".to_owned(),
            FoilType::SvUltra => "SV_ULTRA".to_owned(),
            FoilType::SvUltraScodix => "SV_ULTRA_SCODIX".to_owned(),
            FoilType::AceFoil => "ACE_FOIL".to_owned(),
        }
    }

    pub fn parse(s: &str) -> (r: Option<FoilType>)
        ensures
            r == FoilType::of_wire(s@),
    {
        if str_eq(s, "STAMPED") {
            Some(FoilType::Stamped)
        } else if str_eq(s, "COSMOS") {
            Some(FoilType::Cosmos)
        } else if str_eq(s, "FLAT_SILVER") {
            Some(FoilType::FlatSilver)
        } else if str_eq(s, "SUN_PILLAR") {
            Some(FoilType::SunPillar)
        } else if str_eq(s, "SV_HOLO") {
            Some(FoilType::SvHolo)
        } else if str_eq(s, "SV_ULTRA") {
            Some(FoilType::SvUltra)
        } else if str_eq(s, "SV_ULTRA_SCODIX") {
            Some(FoilType::SvUltraScodix)
        } else if str_eq(s, "ACE_FOIL") {
            Some(FoilType::AceFoil)
        } else {
            None
        }
    }
}

pub proof fn lemma_foil_type_wire(t: FoilType, s: Seq<char>)
    ensures
        FoilType::of_wire(t.wire_v()) == Some(t),
        FoilType::of_wire(s) matches Some(u) ==> u.wire_v() == s,
{
    reveal_strlit("STAMPED");
    reveal_strlit("COSMOS");
    reveal_strlit("FLAT_SILVER");
    reveal_strlit("SUN_PILLAR");
    reveal_strlit("SV_HOLO");
    reveal_strlit("SV_ULTRA");
    reveal_strlit("SV_ULTRA_SCODIX");
    reveal_strlit("ACE_FOIL");
    assert("STAMPED"@.len() == 7);
    assert("COSMOS"@.len() == 6);
    assert("FLAT_SILVER"@.len() == 11);
    assert("SUN_PILLAR"@.len() == 10);
    assert("SV_HOLO"@.len() == 7);
    assert("SV_ULTRA"@.len() == 8);
    assert("SV_ULTRA_SCODIX"@.len() == 15);
    assert("ACE_FOIL"@.len() == 8);
    assert("STAMPED"@[0] == 'S');
    assert("STAMPED"@[1] == 'T');
    assert("STAMPED"@[2] == 'A');
    assert("STAMPED"@[3] == 'M');
    assert("STAMPED"@[4] == 'P');
    assert("STAMPED"@[5] == 'E');
    assert("STAMPED"@[6] == 'D');
    assert("SV_HOLO"@[0] == 'S');
    assert("SV_HOLO"@[1] == 'V');
    assert("SV_HOLO"@[2] == '_');
    assert("SV_HOLO"@[3] == 'H');
    assert("SV_HOLO"@[4] == 'O');
    assert("SV_HOLO"@[5] == 'L');
    assert("SV_HOLO"@[6] == 'O');
    assert("SV_ULTRA"@[0] == 'S');
    assert("SV_ULTRA"@[1] == 'V');
    assert("SV_ULTRA"@[2] == '_');
    assert("SV_ULTRA"@[3] == 'U');
    assert("SV_ULTRA"@[4] == 'L');
    assert("SV_ULTRA"@[5] == 'T');
    assert("SV_ULTRA"@[6] == 'R');
    assert("SV_ULTRA"@[7] == 'A');
    assert("ACE_FOIL"@[0] == 'A');
    assert("ACE_FOIL"@[1] == 'C');
    assert("ACE_FOIL"@[2] == 'E');
    assert("ACE_FOIL"@[3] == '_');
    assert("ACE_FOIL"@[4] == 'F');
    assert("ACE_FOIL"@[5] == 'O');
    assert("ACE_FOIL"@[6] == 'I');
    assert("ACE_FOIL"@[7] == 'L');
}

/// Foil mask shape.
#[derive(Debug, Clone, Copy, PartialEq, Eq, Structural)]
pub enum FoilMask {
    Stamped,
    Reverse,
    Holo,
    Etched,
}

impl FoilMask {
    pub open spec fn wire_v(&self) -> Seq<char> {
        match self {
            FoilMask::Stamped => "STAMPED"@,
            FoilMask::Reverse => "REVERSE"@,
            FoilMask::Holo => "HOLO"@,
            FoilMask::Etched => "ETCHED"@,
        }
    }

    pub open spec fn of_wire(s: Seq<char>) -> Option<FoilMask> {
        if s == "STAMPED"@ {
            Some(FoilMask::Stamped)
        } else if s == "REVERSE"@ {
            Some(FoilMask::Reverse)
        } else if s == "HOLO"@ {
            Some(FoilMask::Holo)
        } else if s == "ETCHED"@ {
            Some(FoilMask::Etched)
        } else {
            None
        }
    }

    pub fn wire(&self) -> (r: String)
        ensures
            r@ == self.wire_v(),
    {
        match self {
            FoilMask::Stamped => "STAMPED".to_owned(),
            FoilMask::Reverse => "REVERSE".to_owned(),
            FoilMask::Holo => "HOLO".to_owned(),
            FoilMask::Etched => "ETCHED".to_owned(),
        }
    }

    pub fn parse(s: &str) -> (r: Option<FoilMask>)
        ensures
            r == FoilMask::of_wire(s@),
    {
        if str_eq(s, "STAMPED") {
            Some(FoilMask::Stamped)
        } else if str_eq(s, "REVERSE") {
            Some(FoilMask::Reverse)
        } else if str_eq(s, "HOLO") {
            Some(FoilMask::Holo)
        } else if str_eq(s, "ETCHED") {
            Some(FoilMask::Etched)
        } else {
            None
        }
    }
}

pub proof fn lemma_foil_mask_wire(t: FoilMask, s: Seq<char>)
    ensures
        FoilMask::of_wire(t.wire_v()) == Some(t),
        FoilMask::of_wire(s) matches Some(u) ==> u.wire_v() == s,
{
    reveal_strlit("STAMPED");
    reveal_strlit("REVERSE");
    reveal_strlit("HOLO");
    reveal_strlit("ETCHED");
    assert("STAMPED"@.len() == 7);
    assert("REVERSE"@.len() == 7);
    assert("HOLO"@.len() == 4);
    assert("ETCHED"@.len() == 6);
    assert("STAMPED"@[0] == 'S');
    assert("STAMPED"@[1] == 'T');
    assert("STAMPED"@[2] == 'A');
    assert("STAMPED"@[3] == 'M');
    assert("STAMPED"@[4] == 'P');
    assert("STAMPED"@[5] == 'E');
    assert("STAMPED"@[6] == 'D');
    assert("REVERSE"@[0] == 'R');
    assert("REVERSE"@[1] == 'E');
    assert("REVERSE"@[2] == 'V');
    assert("REVERSE"@[3] == 'E');
    assert("REVERSE"@[4] == 'R');
    assert("REVERSE"@[5] == 'S');
    assert("REVERSE"@[6] == 'E');
}

/// Card physical size; a closed single-value set in this schema
/// generation, reserved for future expansion.
#[derive(Debug, Clone, Copy, PartialEq, Eq, Structural)]
pub enum CardSize {
    Standard,
}

impl CardSize {
    pub open spec fn wire_v(&self) -> Seq<char> {
        "STANDARD"@
    }

    pub open spec fn of_wire(s: Seq<char>) -> Option<CardSize> {
        if s == "STANDARD"@ {
            Some(CardSize::Standard)
        } else {
            None
        }
    }

    pub fn wire(&self) -> (r: String)
        ensures
            r@ == self.wire_v(),
    {
        "STANDARD".to_owned()
    }

    pub fn parse(s: &str) -> (r: Option<CardSize>)
        ensures
            r == CardSize::of_wire(s@),
    {
        if str_eq(s, "STANDARD") {
            Some(CardSize::Standard)
        } else {
            None
        }
    }
}

pub proof fn lemma_card_size_wire(t: CardSize, s: Seq<char>)
    ensures
        CardSize::of_wire(t.wire_v()) == Some(t),
        CardSize::of_wire(s) matches Some(u) ==> u.wire_v() == s,
{
}

/// Card back template; a closed single-value set in this schema
/// generation.
#[derive(Debug, Clone, Copy, PartialEq, Eq, Structural)]
pub enum CardBack {
    Pokemon1999,
}

impl CardBack {
    pub open spec fn wire_v(&self) -> Seq<char> {
        "POKEMON_1999"@
    }

    pub open spec fn of_wire(s: Seq<char>) -> Option<CardBack> {
        if s == "POKEMON_1999"@ {
            Some(CardBack::Pokemon1999)
        } else {
            None
        }
    }

    pub fn wire(&self) -> (r: String)
        ensures
            r@ == self.wire_v(),
    {
        "POKEMON_1999".to_owned()
    }

    pub fn parse(s: &str) -> (r: Option<CardBack>)
        ensures
            r == CardBack::of_wire(s@),
    {
        if str_eq(s, "POKEMON_1999") {
            Some(CardBack::Pokemon1999)
        } else {
            None
        }
    }
}

pub proof fn lemma_card_back_wire(t: CardBack, s: Seq<char>)
    ensures
        CardBack::of_wire(t.wire_v()) == Some(t),
        CardBack::of_wire(s) matches Some(u) ==> u.wire_v() == s,
{
}

/// Regulation mark, a closed letter set.
#[derive(Debug, Clone, Copy, PartialEq, Eq, Structural)]
pub enum RegulationMark {
    A,
    B,
    C,
    D,
    E,
    F,
    G,
    H,
}

impl RegulationMark {
    pub open spec fn wire_v(&self) -> Seq<char> {
        match self {
            RegulationMark::A => "A"@,
            RegulationMark::B => "B"@,
            RegulationMark::C => "C"@,
            RegulationMark::D => "D"@,
            RegulationMark::E => "E"@,
            RegulationMark::F => "F"@,
            RegulationMark::G => "G"@,
            RegulationMark::H => "H"@,
        }
    }

    pub open spec fn of_wire(s: Seq<char>) -> Option<RegulationMark> {
        if s == "A"@ {
            Some(RegulationMark::A)
        } else if s == "B"@ {
            Some(RegulationMark::B)
        } else if s == "C"@ {
            Some(RegulationMark::C)
        } else if s == "D"@ {
            Some(RegulationMark::D)
        } else if s == "E"@ {
            Some(RegulationMark::E)
        } else if s == "F"@ {
            Some(RegulationMark::F)
        } else if s == "G"@ {
            Some(RegulationMark::G)
        } else if s == "H"@ {
            Some(RegulationMark::H)
        } else {
            None
        }
    }

    pub fn wire(&self) -> (r: String)
        ensures
            r@ == self.wire_v(),
    {
        match self {
            RegulationMark::A => "A".to_owned(),
            RegulationMark::B => "B".to_owned(),
            RegulationMark::C => "C".to_owned(),
            RegulationMark::D => "D".to_owned(),
            RegulationMark::E => "E".to_owned(),
            RegulationMark::F => "F".to_owned(),
            RegulationMark::G => "G".to_owned(),
            RegulationMark::H => "H".to_owned(),
        }
    }

    pub fn parse(s: &str) -> (r: Option<RegulationMark>)
        ensures
            r == RegulationMark::of_wire(s@),
    {
        if str_eq(s, "A") {
            Some(RegulationMark::A)
        } else if str_eq(s, "B") {
            Some(RegulationMark::B)
        } else if str_eq(s, "C") {
            Some(RegulationMark::C)
        } else if str_eq(s, "D") {
            Some(RegulationMark::D)
        } else if str_eq(s, "E") {
            Some(RegulationMark::E)
        } else if str_eq(s, "F") {
            Some(RegulationMark::F)
        } else if str_eq(s, "G") {
            Some(RegulationMark::G)
        } else if str_eq(s, "H") {
            Some(RegulationMark::H)
        } else {
            None
        }
    }
}

pub proof fn lemma_regulation_mark_wire(t: RegulationMark, s: Seq<char>)
    ensures
        RegulationMark::of_wire(t.wire_v()) == Some(t),
        RegulationMark::of_wire(s) matches Some(u) ==> u.wire_v() == s,
{
    reveal_strlit("A");
    reveal_strlit("B");
    reveal_strlit("C");
    reveal_strlit("D");
    reveal_strlit("E");
    reveal_strlit("F");
    reveal_strlit("G");
    reveal_strlit("H");
    assert("A"@.len() == 1);
    assert("B"@.len() == 1);
    assert("C"@.len() == 1);
    assert("D"@.len() == 1);
    assert("E"@.len() == 1);
    assert("F"@.len() == 1);
    assert("G"@.len() == 1);
    assert("H"@.len() == 1);
    assert("A"@[0] == 'A');
    assert("B"@[0] == 'B');
    assert("C"@[0] == 'C');
    assert("D"@[0] == 'D');
    assert("E"@[0] == 'E');
    assert("F"@[0] == 'F');
    assert("G"@[0] == 'G');
    assert("H"@[0] == 'H');
}

/// Rarity designation.
#[derive(Debug, Clone, Copy, PartialEq, Eq, Structural)]
pub enum RarityDesignation {
    Common,
    Uncommon,
    Rare,
    DoubleRare,
    IllustrationRare,
    SpecialIllustrationRare,
    UltraRare,
    HyperRare,
    ShinyRare,
    ShinyUltraRare,
    Promo,
    AceSpecRare,
}

impl RarityDesignation {
    pub open spec fn wire_v(&self) -> Seq<char> {
        match self {
            RarityDesignation::Common => "COMMON"@,
            RarityDesignation::Uncommon => "UNCOMMON"@,
            RarityDesignation::Rare => "RARE"@,
            RarityDesignation::DoubleRare => "DOUBLE_RARE"@,
            RarityDesignation::IllustrationRare => "ILLUSTRATION_RARE"@,
            RarityDesignation::SpecialIllustrationRare => "SPECIAL_ILLUSTRATION_RARE"@,
            RarityDesignation::UltraRare => "ULTRA_RARE"@,
            RarityDesignation::HyperRare => "HYPER_RARE"@,
            RarityDesignation::ShinyRare => "SHINY_RARE"@,
            RarityDesignation::ShinyUltraRare => "SHINY_ULTRA_RARE"@,
            RarityDesignation::Promo => "PROMO"@,
            RarityDesignation::AceSpecRare => "ACE_SPEC_RARE"@,
        }
    }

    pub open spec fn of_wire(s: Seq<char>) -> Option<RarityDesignation> {
        if s == "COMMON"@ {
            Some(RarityDesignation::Common)
        } else if s == "UNCOMMON"@ {
            Some(RarityDesignation::Uncommon)
        } else if s == "RARE"@ {
            Some(RarityDesignation::Rare)
        } else if s == "DOUBLE_RARE"@ {
            Some(RarityDesignation::DoubleRare)
        } else if s == "ILLUSTRATION_RARE"@ {
            Some(RarityDesignation::IllustrationRare)
        } else if s == "SPECIAL_ILLUSTRATION_RARE"@ {
            Some(RarityDesignation::SpecialIllustrationRare)
        } else if s == "ULTRA_RARE"@ {
            Some(RarityDesignation::UltraRare)
        } else if s == "HYPER_RARE"@ {
            Some(RarityDesignation::HyperRare)
        } else if s == "SHINY_RARE"@ {
            Some(RarityDesignation::ShinyRare)
        } else if s == "SHINY_ULTRA_RARE"@ {
            Some(RarityDesignation::ShinyUltraRare)
        } else if s == "PROMO"@ {
            Some(RarityDesignation::Promo)
        } else if s == "ACE_SPEC_RARE"@ {
            Some(RarityDesignation::AceSpecRare)
        } else {
            None
        }
    }

    pub fn wire(&self) -> (r: String)
        ensures
            r@ == self.wire_v(),
    {
        match self {
            RarityDesignation::Common => "COMMON".to_owned(),
            RarityDesignation::Uncommon => "UNCOMMON".to_owned(),
            RarityDesignation::Rare => "RARE".to_owned(),
            RarityDesignation::DoubleRare => "DOUBLE_RARE".to_owned(),
            RarityDesignation::IllustrationRare => "ILLUSTRATION_RARE".to_owned(),
            RarityDesignation::SpecialIllustrationRare => "SPECIAL_ILLUSTRATION_RARE".to_owned(),
            RarityDesignation::UltraRare => "ULTRA_RARE".to_owned(),
            RarityDesignation::HyperRare => "HYPER_RARE".to_owned(),
            RarityDesignation::ShinyRare => "SHINY_RARE".to_owned(),
            RarityDesignation::ShinyUltraRare => "SHINY_ULTRA_RARE".to_owned(),
            RarityDesignation::Promo => "PROMO".to_owned(),
            RarityDesignation::AceSpecRare => "ACE_SPEC_RARE".to_owned(),
        }
    }

    pub fn parse(s: &str) -> (r: Option<RarityDesignation>)
        ensures
            r == RarityDesignation::of_wire(s@),
    {
        if str_eq(s, "COMMON") {
            Some(RarityDesignation::Common)
        } else if str_eq(s, "UNCOMMON") {
            Some(RarityDesignation::Uncommon)
        } else if str_eq(s, "RARE") {
            Some(RarityDesignation::Rare)
        } else if str_eq(s, "DOUBLE_RARE") {
            Some(RarityDesignation::DoubleRare)
        } else if str_eq(s, "ILLUSTRATION_RARE") {
            Some(RarityDesignation::IllustrationRare)
        } else if str_eq(s, "SPECIAL_ILLUSTRATION_RARE") {
            Some(RarityDesignation::SpecialIllustrationRare)
        } else if str_eq(s, "ULTRA_RARE") {
            Some(RarityDesignation::UltraRare)
        } else if str_eq(s, "HYPER_RARE") {
            Some(RarityDesignation::HyperRare)
        } else if str_eq(s, "SHINY_RARE") {
            Some(RarityDesignation::ShinyRare)
        } else if str_eq(s, "SHINY_ULTRA_RARE") {
            Some(RarityDesignation::ShinyUltraRare)
        } else if str_eq(s, "PROMO") {
            Some(RarityDesignation::Promo)
        } else if str_eq(s, "ACE_SPEC_RARE") {
            Some(RarityDesignation::AceSpecRare)
        } else {
            None
        }
    }
}

pub proof fn lemma_rarity_designation_wire(t: RarityDesignation, s: Seq<char>)
    ensures
        RarityDesignation::of_wire(t.wire_v()) == Some(t),
        RarityDesignation::of_wire(s) matches Some(u) ==> u.wire_v() == s,
{
    reveal_strlit("COMMON");
    reveal_strlit("UNCOMMON");
    reveal_strlit("RARE");
    reveal_strlit("DOUBLE_RARE");
    reveal_strlit("ILLUSTRATION_RARE");
    reveal_strlit("SPECIAL_ILLUSTRATION_RARE");
    reveal_strlit("ULTRA_RARE");
    reveal_strlit("HYPER_RARE");
    reveal_strlit("SHINY_RARE");
    reveal_strlit("SHINY_ULTRA_RARE");
    reveal_strlit("PROMO");
    reveal_strlit("ACE_SPEC_RARE");
    assert("COMMON"@.len() == 6);
    assert("UNCOMMON"@.len() == 8);
    assert("RARE"@.len() == 4);
    assert("DOUBLE_RARE"@.len() == 11);
    assert("ILLUSTRATION_RARE"@.len() == 17);
    assert("SPECIAL_ILLUSTRATION_RARE"@.len() == 25);
    assert("ULTRA_RARE"@.len() == 10);
    assert("HYPER_RARE"@.len() == 10);
    assert("SHINY_RARE"@.len() == 10);
    assert("SHINY_ULTRA_RARE"@.len() == 16);
    assert("PROMO"@.len() == 5);
    assert("ACE_SPEC_RARE"@.len() == 13);
    assert("ULTRA_RARE"@[0] == 'U');
    assert("ULTRA_RARE"@[1] == 'L');
    assert("ULTRA_RARE"@[2] == 'T');
    assert("ULTRA_RARE"@[3] == 'R');
    assert("ULTRA_RARE"@[4] == 'A');
    assert("ULTRA_RARE"@[5] == '_');
    assert("ULTRA_RARE"@[6] == 'R');
    assert("ULTRA_RARE"@[7] == 'A');
    assert("ULTRA_RARE"@[8] == 'R');
    assert("ULTRA_RARE"@[9] == 'E');
    assert("HYPER_RARE"@[0] == 'H');
    assert("HYPER_RARE"@[1] == 'Y');
    assert("HYPER_RARE"@[2] == 'P');
    assert("HYPER_RARE"@[3] == 'E');
    assert("HYPER_RARE"@[4] == 'R');
    assert("HYPER_RARE"@[5] == '_');
    assert("HYPER_RARE"@[6] == 'R');
    assert("HYPER_RARE"@[7] == 'A');
    assert("HYPER_RARE"@[8] == 'R');
    assert("HYPER_RARE"@[9] == 'E');
    assert("SHINY_RARE"@[0] == 'S');
    assert("SHINY_RARE"@[1] == 'H');
    assert("SHINY_RARE"@[2] == 'I');
    assert("SHINY_RARE"@[3] == 'N');
    assert("SHINY_RARE"@[4] == 'Y');
    assert("SHINY_RARE"@[5] == '_');
    assert("SHINY_RARE"@[6] == 'R');
    assert("SHINY_RARE"@[7] == 'A');
    assert("SHINY_RARE"@[8] == 'R');
    assert("SHINY_RARE"@[9] == 'E');
}

/// Rarity icon.
#[derive(Debug, Clone, Copy, PartialEq, Eq, Structural)]
pub enum RarityIcon {
    SolidCircle,
    SolidDiamond,
    SolidStar,
    TwoBlackStars,
    GoldStar,
    TwoGoldStars,
    ThreeGoldStars,
    TwoSilverStars,
    ShinyStar,
    TwoShinyStars,
    BlackStarPromo,
    PinkStar,
}

impl RarityIcon {
    pub open spec fn wire_v(&self) -> Seq<char> {
        match self {
            RarityIcon::SolidCircle => "SOLID_CIRCLE"@,
            RarityIcon::SolidDiamond => "SOLID_DIAMOND"@,
            RarityIcon::SolidStar => "SOLID_STAR"@,
            RarityIcon::TwoBlackStars => "TWO_BLACK_STARS"@,
            RarityIcon::GoldStar => "GOLD_STAR"@,
            RarityIcon::TwoGoldStars => "TWO_GOLD_STARS"@,
            RarityIcon::ThreeGoldStars => "THREE_GOLD_STARS"@,
            RarityIcon::TwoSilverStars => "TWO_SILVER_STARS"@,
            RarityIcon::ShinyStar => "SHINY_STAR"@,
            RarityIcon::TwoShinyStars => "TWO_SHINY_STARS"@,
            RarityIcon::BlackStarPromo => "BLACK_STAR_PROMO"@,
            RarityIcon::PinkStar => "PINK_STAR"@,
        }
    }

    pub open spec fn of_wire(s: Seq<char>) -> Option<RarityIcon> {
        if s == "SOLID_CIRCLE"@ {
            Some(RarityIcon::SolidCircle)
        } else if s == "SOLID_DIAMOND"@ {
            Some(RarityIcon::SolidDiamond)
        } else if s == "SOLID_STAR"@ {
            Some(RarityIcon::SolidStar)
        } else if s == "TWO_BLACK_STARS"@ {
            Some(RarityIcon::TwoBlackStars)
        } else if s == "GOLD_STAR"@ {
            Some(RarityIcon::GoldStar)
        } else if s == "TWO_GOLD_STARS"@ {
            Some(RarityIcon::TwoGoldStars)
        } else if s == "THREE_GOLD_STARS"@ {
            Some(RarityIcon::ThreeGoldStars)
        } else if s == "TWO_SILVER_STARS"@ {
            Some(RarityIcon::TwoSilverStars)
        } else if s == "SHINY_STAR"@ {
            Some(RarityIcon::ShinyStar)
        } else if s == "TWO_SHINY_STARS"@ {
            Some(RarityIcon::TwoShinyStars)
        } else if s == "BLACK_STAR_PROMO"@ {
            Some(RarityIcon::BlackStarPromo)
        } else if s == "PINK_STAR"@ {
            Some(RarityIcon::PinkStar)
        } else {
            None
        }
    }

    pub fn wire(&self) -> (r: String)
        ensures
            r@ == self.wire_v(),
    {
        match self {
            RarityIcon::SolidCircle => "SOLID_CIRCLE".to_owned(),
            RarityIcon::SolidDiamond => "SOLID_DIAMOND".to_owned(),
            RarityIcon::SolidStar => "SOLID_STAR".to_owned(),
            RarityIcon::TwoBlackStars => "TWO_BLACK_STARS".to_owned(),
            RarityIcon::GoldStar => "GOLD_STAR".to_owned(),
            RarityIcon::TwoGoldStars => "TWO_GOLD_STARS".to_owned(),
            RarityIcon::ThreeGoldStars => "THREE_GOLD_STARS".to_owned(),
            RarityIcon::TwoSilverStars => "TWO_SILVER_STARS".to_owned(),
            RarityIcon::ShinyStar => "SHINY_STAR".to_owned(),
            RarityIcon::TwoShinyStars => "TWO_SHINY_STARS".to_owned(),
            RarityIcon::BlackStarPromo => "BLACK_STAR_PROMO".to_owned(),
            RarityIcon::PinkStar => "PINK_STAR".to_owned(),
        }
    }

    pub fn parse(s: &str) -> (r: Option<RarityIcon>)
        ensures
            r == RarityIcon::of_wire(s@),
    {
        if str_eq(s, "SOLID_CIRCLE") {
            Some(RarityIcon::SolidCircle)
        } else if str_eq(s, "SOLID_DIAMOND") {
            Some(RarityIcon::SolidDiamond)
        } else if str_eq(s, "SOLID_STAR") {
            Some(RarityIcon::SolidStar)
        } else if str_eq(s, "TWO_BLACK_STARS") {
            Some(RarityIcon::TwoBlackStars)
        } else if str_eq(s, "GOLD_STAR") {
            Some(RarityIcon::GoldStar)
        } else if str_eq(s, "TWO_GOLD_STARS") {
            Some(RarityIcon::TwoGoldStars)
        } else if str_eq(s, "THREE_GOLD_STARS") {
            Some(RarityIcon::ThreeGoldStars)
        } else if str_eq(s, "TWO_SILVER_STARS") {
            Some(RarityIcon::TwoSilverStars)
        } else if str_eq(s, "SHINY_STAR") {
            Some(RarityIcon::ShinyStar)
        } else if str_eq(s, "TWO_SHINY_STARS") {
            Some(RarityIcon::TwoShinyStars)
        } else if str_eq(s, "BLACK_STAR_PROMO") {
            Some(RarityIcon::BlackStarPromo)
        } else if str_eq(s, "PINK_STAR") {
            Some(RarityIcon::PinkStar)
        } else {
            None
        }
    }
}

pub proof fn lemma_rarity_icon_wire(t: RarityIcon, s: Seq<char>)
    ensures
        RarityIcon::of_wire(t.wire_v()) == Some(t),
        RarityIcon::of_wire(s) matches Some(u) ==> u.wire_v() == s,
{
    reveal_strlit("SOLID_CIRCLE");
    reveal_strlit("SOLID_DIAMOND");
    reveal_strlit("SOLID_STAR");
    reveal_strlit("TWO_BLACK_STARS");
    reveal_strlit("GOLD_STAR");
    reveal_strlit("TWO_GOLD_STARS");
    reveal_strlit("THREE_GOLD_STARS");
    reveal_strlit("TWO_SILVER_STARS");
    reveal_strlit("SHINY_STAR");
    reveal_strlit("TWO_SHINY_STARS");
    reveal_strlit("BLACK_STAR_PROMO");
    reveal_strlit("PINK_STAR");
    assert("SOLID_CIRCLE"@.len() == 12);
    assert("SOLID_DIAMOND"@.len() == 13);
    assert("SOLID_STAR"@.len() == 10);
    assert("TWO_BLACK_STARS"@.len() == 15);
    assert("GOLD_STAR"@.len() == 9);
    assert("TWO_GOLD_STARS"@.len() == 14);
    assert("THREE_GOLD_STARS"@.len() == 16);
    assert("TWO_SILVER_STARS"@.len() == 16);
    assert("SHINY_STAR"@.len() == 10);
    assert("TWO_SHINY_STARS"@.len() == 15);
    assert("BLACK_STAR_PROMO"@.len() == 16);
    assert("PINK_STAR"@.len() == 9);
    assert("SOLID_STAR"@[0] == 'S');
    assert("SOLID_STAR"@[1] == 'O');
    assert("SOLID_STAR"@[2] == 'L');
    assert("SOLID_STAR"@[3] == 'I');
    assert("SOLID_STAR"@[4] == 'D');
    assert("SOLID_STAR"@[5] == '_');
    assert("SOLID_STAR"@[6] == 'S');
    assert("SOLID_STAR"@[7] == 'T');
    assert("SOLID_STAR"@[8] == 'A');
    assert("SOLID_STAR"@[9] == 'R');
    assert("SHINY_STAR"@[0] == 'S');
    assert("SHINY_STAR"@[1] == 'H');
    assert("SHINY_STAR"@[2] == 'I');
    assert("SHINY_STAR"@[3] == 'N');
    assert("SHINY_STAR"@[4] == 'Y');
    assert("SHINY_STAR"@[5] == '_');
    assert("SHINY_STAR"@[6] == 'S');
    assert("SHINY_STAR"@[7] == 'T');
    assert("SHINY_STAR"@[8] == 'A');
    assert("SHINY_STAR"@[9] == 'R');
    assert("TWO_BLACK_STARS"@[0] == 'T');
    assert("TWO_BLACK_STARS"@[1] == 'W');
    assert("TWO_BLACK_STARS"@[2] == 'O');
    assert("TWO_BLACK_STARS"@[3] == '_');
    assert("TWO_BLACK_STARS"@[4] == 'B');
    assert("TWO_BLACK_STARS"@[5] == 'L');
    assert("TWO_BLACK_STARS"@[6] == 'A');
    assert("TWO_BLACK_STARS"@[7] == 'C');
    assert("TWO_BLACK_STARS"@[8] == 'K');
    assert("TWO_BLACK_STARS"@[9] == '_');
    assert("TWO_BLACK_STARS"@[10] == 'S');
    assert("TWO_BLACK_STARS"@[11] == 'T');
    assert("TWO_BLACK_STARS"@[12] == 'A');
    assert("TWO_BLACK_STARS"@[13] == 'R');
    assert("TWO_BLACK_STARS"@[14] == 'S');
    assert("TWO_SHINY_STARS"@[0] == 'T');
    assert("TWO_SHINY_STARS"@[1] == 'W');
    assert("TWO_SHINY_STARS"@[2] == 'O');
    assert("TWO_SHINY_STARS"@[3] == '_');
    assert("TWO_SHINY_STARS"@[4] == 'S');
    assert("TWO_SHINY_STARS"@[5] == 'H');
    assert("TWO_SHINY_STARS"@[6] == 'I');
    assert("TWO_SHINY_STARS"@[7] == 'N');
    assert("TWO_SHINY_STARS"@[8] == 'Y');
    assert("TWO_SHINY_STARS"@[9] == '_');
    assert("TWO_SHINY_STARS"@[10] == 'S');
    assert("TWO_SHINY_STARS"@[11] == 'T');
    assert("TWO_SHINY_STARS"@[12] == 'A');
    assert("TWO_SHINY_STARS"@[13] == 'R');
    assert("TWO_SHINY_STARS"@[14] == 'S');
    assert("GOLD_STAR"@[0] == 'G');
    assert("GOLD_STAR"@[1] == 'O');
    assert("GOLD_STAR"@[2] == 'L');
    assert("GOLD_STAR"@[3] == 'D');
    assert("GOLD_STAR"@[4] == '_');
    assert("GOLD_STAR"@[5] == 'S');
    assert("GOLD_STAR"@[6] == 'T');
    assert("GOLD_STAR"@[7] == 'A');
    assert("GOLD_STAR"@[8] == 'R');
    assert("PINK_STAR"@[0] == 'P');
    assert("PINK_STAR"@[1] == 'I');
    assert("PINK_STAR"@[2] == 'N');
    assert("PINK_STAR"@[3] == 'K');
    assert("PINK_STAR"@[4] == '_');
    assert("PINK_STAR"@[5] == 'S');
    assert("PINK_STAR"@[6] == 'T');
    assert("PINK_STAR"@[7] == 'A');
    assert("PINK_STAR"@[8] == 'R');
    assert("THREE_GOLD_STARS"@[0] == 'T');
    assert("THREE_GOLD_STARS"@[1] == 'H');
    assert("THREE_GOLD_STARS"@[2] == 'R');
    assert("THREE_GOLD_STARS"@[3] == 'E');
    assert("THREE_GOLD_STARS"@[4] == 'E');
    assert("THREE_GOLD_STARS"@[5] == '_');
    assert("THREE_GOLD_STARS"@[6] == 'G');
    assert("THREE_GOLD_STARS"@[7] == 'O');
    assert("THREE_GOLD_STARS"@[8] == 'L');
    assert("THREE_GOLD_STARS"@[9] == 'D');
    assert("THREE_GOLD_STARS"@[10] == '_');
    assert("THREE_GOLD_STARS"@[11] == 'S');
    assert("THREE_GOLD_STARS"@[12] == 'T');
    assert("THREE_GOLD_STARS"@[13] == 'A');
    assert("THREE_GOLD_STARS"@[14] == 'R');
    assert("THREE_GOLD_STARS"@[15] == 'S');
    assert("TWO_SILVER_STARS"@[0] == 'T');
    assert("TWO_SILVER_STARS"@[1] == 'W');
    assert("TWO_SILVER_STARS"@[2] == 'O');
    assert("TWO_SILVER_STARS"@[3] == '_');
    assert("TWO_SILVER_STARS"@[4] == 'S');
    assert("TWO_SILVER_STARS"@[5] == 'I');
    assert("TWO_SILVER_STARS"@[6] == 'L');
    assert("TWO_SILVER_STARS"@[7] == 'V');
    assert("TWO_SILVER_STARS"@[8] == 'E');
    assert("TWO_SILVER_STARS"@[9] == 'R');
    assert("TWO_SILVER_STARS"@[10] == '_');
    assert("TWO_SILVER_STARS"@[11] == 'S');
    assert("TWO_SILVER_STARS"@[12] == 'T');
    assert("TWO_SILVER_STARS"@[13] == 'A');
    assert("TWO_SILVER_STARS"@[14] == 'R');
    assert("TWO_SILVER_STARS"@[15] == 'S');
    assert("BLACK_STAR_PROMO"@[0] == 'B');
    assert("BLACK_STAR_PROMO"@[1] == 'L');
    assert("BLACK_STAR_PROMO"@[2] == 'A');
    assert("BLACK_STAR_PROMO"@[3] == 'C');
    assert("BLACK_STAR_PROMO"@[4] == 'K');
    assert("BLACK_STAR_PROMO"@[5] == '_');
    assert("BLACK_STAR_PROMO"@[6] == 'S');
    assert("BLACK_STAR_PROMO"@[7] == 'T');
    assert("BLACK_STAR_PROMO"@[8] == 'A');
    assert("BLACK_STAR_PROMO"@[9] == 'R');
    assert("BLACK_STAR_PROMO"@[10] == '_');
    assert("BLACK_STAR_PROMO"@[11] == 'P');
    assert("BLACK_STAR_PROMO"@[12] == 'R');
    assert("BLACK_STAR_PROMO"@[13] == 'O');
    assert("BLACK_STAR_PROMO"@[14] == 'M');
    assert("BLACK_STAR_PROMO"@[15] == 'O');
}

/// Descriptive card tag.
#[derive(Debug, Clone, Copy, PartialEq, Eq, Structural)]
pub enum CardTag {
    ExLower,
    Tera,
    Item,
    Tool,
    PlayableTrainer,
    Future,
    Ancient,
    Shiny,
    AceSpec,
}

impl CardTag {
    pub open spec fn wire_v(&self) -> Seq<char> {
        match self {
            CardTag::ExLower => "EX_LOWER"@,
            CardTag::Tera => "TERA"@,
            CardTag::Item => "ITEM"@,
            CardTag::Tool => "TOOL"@,
            CardTag::PlayableTrainer => "PLAYABLE_TRAINER"@,
            CardTag::Future => "FUTURE"@,
            CardTag::Ancient => "ANCIENT"@,
            CardTag::Shiny => "SHINY"@,
            CardTag::AceSpec => "ACE_SPEC"@,
        }
    }

    pub open spec fn of_wire(s: Seq<char>) -> Option<CardTag> {
        if s == "EX_LOWER"@ {
            Some(CardTag::ExLower)
        } else if s == "TERA"@ {
            Some(CardTag::Tera)
        } else if s == "ITEM"@ {
            Some(CardTag::Item)
        } else if s == "TOOL"@ {
            Some(CardTag::Tool)
        } else if s == "PLAYABLE_TRAINER"@ {
            Some(CardTag::PlayableTrainer)
        } else if s == "FUTURE"@ {
            Some(CardTag::Future)
        } else if s == "ANCIENT"@ {
            Some(CardTag::Ancient)
        } else if s == "SHINY"@ {
            Some(CardTag::Shiny)
        } else if s == "ACE_SPEC"@ {
            Some(CardTag::AceSpec)
        } else {
            None
        }
    }

    pub fn wire(&self) -> (r: String)
        ensures
            r@ == self.wire_v(),
    {
        match self {
            CardTag::ExLower => "EX_LOWER".to_owned(),
            CardTag::Tera => "TERA".to_owned(),
            CardTag::Item => "ITEM".to_owned(),
            CardTag::Tool => "TOOL".to_owned(),
            CardTag::PlayableTrainer => "PLAYABLE_TRAINER".to_owned(),
            CardTag::Future => "FUTURE".to_owned(),
            CardTag::Ancient => "ANCIENT".to_owned(),
            CardTag::Shiny => "SHINY".to_owned(),
            CardTag::AceSpec => "ACE_SPEC".to_owned(),
        }
    }

    pub fn parse(s: &str) -> (r: Option<CardTag>)
        ensures
            r == CardTag::of_wire(s@),
    {
        if str_eq(s, "EX_LOWER") {
            Some(CardTag::ExLower)
        } else if str_eq(s, "TERA") {
            Some(CardTag::Tera)
        } else if str_eq(s, "ITEM") {
            Some(CardTag::Item)
        } else if str_eq(s, "TOOL") {
            Some(CardTag::Tool)
        } else if str_eq(s, "PLAYABLE_TRAINER") {
            Some(CardTag::PlayableTrainer)
        } else if str_eq(s, "FUTURE") {
            Some(CardTag::Future)
        } else if str_eq(s, "ANCIENT") {
            Some(CardTag::Ancient)
        } else if str_eq(s, "SHINY") {
            Some(CardTag::Shiny)
        } else if str_eq(s, "ACE_SPEC") {
            Some(CardTag::AceSpec)
        } else {
            None
        }
    }
}

pub proof fn lemma_card_tag_wire(t: CardTag, s: Seq<char>)
    ensures
        CardTag::of_wire(t.wire_v()) == Some(t),
        CardTag::of_wire(s) matches Some(u) ==> u.wire_v() == s,
{
    reveal_strlit("EX_LOWER");
    reveal_strlit("TERA");
    reveal_strlit("ITEM");
    reveal_strlit("TOOL");
    reveal_strlit("PLAYABLE_TRAINER");
    reveal_strlit("FUTURE");
    reveal_strlit("ANCIENT");
    reveal_strlit("SHINY");
    reveal_strlit("ACE_SPEC");
    assert("EX_LOWER"@.len() == 8);
    assert("TERA"@.len() == 4);
    assert("ITEM"@.len() == 4);
    assert("TOOL"@.len() == 4);
    assert("PLAYABLE_TRAINER"@.len() == 16);
    assert("FUTURE"@.len() == 6);
    assert("ANCIENT"@.len() == 7);
    assert("SHINY"@.len() == 5);
    assert("ACE_SPEC"@.len() == 8);
    assert("EX_LOWER"@[0] == 'E');
    assert("EX_LOWER"@[1] == 'X');
    assert("EX_LOWER"@[2] == '_');
    assert("EX_LOWER"@[3] == 'L');
    assert("EX_LOWER"@[4] == 'O');
    assert("EX_LOWER"@[5] == 'W');
    assert("EX_LOWER"@[6] == 'E');
    assert("EX_LOWER"@[7] == 'R');
    assert("ACE_SPEC"@[0] == 'A');
    assert("ACE_SPEC"@[1] == 'C');
    assert("ACE_SPEC"@[2] == 'E');
    assert("ACE_SPEC"@[3] == '_');
    assert("ACE_SPEC"@[4] == 'S');
    assert("ACE_SPEC"@[5] == 'P');
    assert("ACE_SPEC"@[6] == 'E');
    assert("ACE_SPEC"@[7] == 'C');
    assert("TERA"@[0] == 'T');
    assert("TERA"@[1] == 'E');
    assert("TERA"@[2] == 'R');
    assert("TERA"@[3] == 'A');
    assert("ITEM"@[0] == 'I');
    assert("ITEM"@[1] == 'T');
    assert("ITEM"@[2] == 'E');
    assert("ITEM"@[3] == 'M');
    assert("TOOL"@[0] == 'T');
    assert("TOOL"@[1] == 'O');
    assert("TOOL"@[2] == 'O');
    assert("TOOL"@[3] == 'L');
}

/// Creature evolution stage.
#[derive(Debug, Clone, Copy, PartialEq, Eq, Structural)]
pub enum Stage {
    Basic,
    Stage1,
    Stage2,
}

impl Stage {
    pub open spec fn wire_v(&self) -> Seq<char> {
        match self {
            Stage::Basic => "BASIC"@,
            Stage::Stage1 => "STAGE1"@,
            Stage::Stage2 => "STAGE2"@,
        }
    }

    pub open spec fn of_wire(s: Seq<char>) -> Option<Stage> {
        if s == "BASIC"@ {
            Some(Stage::Basic)
        } else if s == "STAGE1"@ {
            Some(Stage::Stage1)
        } else if s == "STAGE2"@ {
            Some(Stage::Stage2)
        } else {
            None
        }
    }

    pub fn wire(&self) -> (r: String)
        ensures
            r@ == self.wire_v(),
    {
        match self {
            Stage::Basic => "BASIC".to_owned(),
            Stage::Stage1 => "STAGE1".to_owned(),
            Stage::Stage2 => "STAGE2".to_owned(),
        }
    }

    pub fn parse(s: &str) -> (r: Option<Stage>)
        ensures
            r == Stage::of_wire(s@),
    {
        if str_eq(s, "BASIC") {
            Some(Stage::Basic)
        } else if str_eq(s, "STAGE1") {
            Some(Stage::Stage1)
        } else if str_eq(s, "STAGE2") {
            Some(Stage::Stage2)
        } else {
            None
        }
    }
}

pub proof fn lemma_stage_wire(t: Stage, s: Seq<char>)
    ensures
        Stage::of_wire(t.wire_v()) == Some(t),
        Stage::of_wire(s) matches Some(u) ==> u.wire_v() == s,
{
    reveal_strlit("BASIC");
    reveal_strlit("STAGE1");
    reveal_strlit("STAGE2");
    assert("BASIC"@.len() == 5);
    assert("STAGE1"@.len() == 6);
    assert("STAGE2"@.len() == 6);
    assert("STAGE1"@[0] == 'S');
    assert("STAGE1"@[1] == 'T');
    assert("STAGE1"@[2] == 'A');
    assert("STAGE1"@[3] == 'G');
    assert("STAGE1"@[4] == 'E');
    assert("STAGE1"@[5] == '1');
    assert("STAGE2"@[0] == 'S');
    assert("STAGE2"@[1] == 'T');
    assert("STAGE2"@[2] == 'A');
    assert("STAGE2"@[3] == 'G');
    assert("STAGE2"@[4] == 'E');
    assert("STAGE2"@[5] == '2');
}

/// Weakness operator token, rendered as a single symbol.
#[derive(Debug, Clone, Copy, PartialEq, Eq, Structural)]
pub enum WeaknessOperator {
    Add,
    Multiply,
}

impl WeaknessOperator {
    pub open spec fn wire_v(&self) -> Seq<char> {
        match self {
            WeaknessOperator::Add => "+"@,
            WeaknessOperator::Multiply => "\u{00d7}"@,
        }
    }

    pub open spec fn of_wire(s: Seq<char>) -> Option<WeaknessOperator> {
        if s == "+"@ {
            Some(WeaknessOperator::Add)
        } else if s == "\u{00d7}"@ {
            Some(WeaknessOperator::Multiply)
        } else {
            None
        }
    }

    pub fn wire(&self) -> (r: String)
        ensures
            r@ == self.wire_v(),
    {
        match self {
            WeaknessOperator::Add => "+".to_owned(),
            WeaknessOperator::Multiply => "\u{00d7}".to_owned(),
        }
    }

    pub fn parse(s: &str) -> (r: Option<WeaknessOperator>)
        ensures
            r == WeaknessOperator::of_wire(s@),
    {
        if str_eq(s, "+") {
            Some(WeaknessOperator::Add)
        } else if str_eq(s, "\u{00d7}") {
            Some(WeaknessOperator::Multiply)
        } else {
            None
        }
    }
}

pub proof fn lemma_weakness_operator_wire(t: WeaknessOperator, s: Seq<char>)
    ensures
        WeaknessOperator::of_wire(t.wire_v()) == Some(t),
        WeaknessOperator::of_wire(s) matches Some(u) ==> u.wire_v() == s,
{
    reveal_strlit("+");
    reveal_strlit("\u{00d7}");
    assert("+"@.len() == 1);
    assert("\u{00d7}"@.len() == 1);
    assert("+"@[0] == '+');
    assert("\u{00d7}"@[0] == '\u{00d7}');
}

/// Resistance operator token.
#[derive(Debug, Clone, Copy, PartialEq, Eq, Structural)]
pub enum ResistanceOperator {
    Subtract,
}

impl ResistanceOperator {
    pub open spec fn wire_v(&self) -> Seq<char> {
        "-"@
    }

    pub open spec fn of_wire(s: Seq<char>) -> Option<ResistanceOperator> {
        if s == "-"@ {
            Some(ResistanceOperator::Subtract)
        } else {
            None
        }
    }

    pub fn wire(&self) -> (r: String)
        ensures
            r@ == self.wire_v(),
    {
        "-".to_owned()
    }

    pub fn parse(s: &str) -> (r: Option<ResistanceOperator>)
        ensures
            r == ResistanceOperator::of_wire(s@),
    {
        if str_eq(s, "-") {
            Some(ResistanceOperator::Subtract)
        } else {
            None
        }
    }
}

pub proof fn lemma_resistance_operator_wire(t: ResistanceOperator, s: Seq<char>)
    ensures
        ResistanceOperator::of_wire(t.wire_v()) == Some(t),
        ResistanceOperator::of_wire(s) matches Some(u) ==> u.wire_v() == s,
{
}

/// Damage suffix operator token.
#[derive(Debug, Clone, Copy, PartialEq, Eq, Structural)]
pub enum DamageSuffix {
    Add,
    Subtract,
    Multiply,
}

impl DamageSuffix {
    pub open spec fn wire_v(&self) -> Seq<char> {
        match self {
            DamageSuffix::Add => "+"@,
            DamageSuffix::Subtract => "-"@,
            DamageSuffix::Multiply => "\u{00d7}"@,
        }
    }

    pub open spec fn of_wire(s: Seq<char>) -> Option<DamageSuffix> {
        if s == "+"@ {
            Some(DamageSuffix::Add)
        } else if s == "-"@ {
            Some(DamageSuffix::Subtract)
        } else if s == "\u{00d7}"@ {
            Some(DamageSuffix::Multiply)
        } else {
            None
        }
    }

    pub fn wire(&self) -> (r: String)
        ensures
            r@ == self.wire_v(),
    {
        match self {
            DamageSuffix::Add => "+".to_owned(),
            DamageSuffix::Subtract => "-".to_owned(),
            DamageSuffix::Multiply => "\u{00d7}".to_owned(),
        }
    }

    pub fn parse(s: &str) -> (r: Option<DamageSuffix>)
        ensures
            r == DamageSuffix::of_wire(s@),
    {
        if str_eq(s, "+") {
            Some(DamageSuffix::Add)
        } else if str_eq(s, "-") {
            Some(DamageSuffix::Subtract)
        } else if str_eq(s, "\u{00d7}") {
            Some(DamageSuffix::Multiply)
        } else {
            None
        }
    }
}

pub proof fn lemma_damage_suffix_wire(t: DamageSuffix, s: Seq<char>)
    ensures
        DamageSuffix::of_wire(t.wire_v()) == Some(t),
        DamageSuffix::of_wire(s) matches Some(u) ==> u.wire_v() == s,
{
    reveal_strlit("+");
    reveal_strlit("-");
    reveal_strlit("\u{00d7}");
    assert("+"@.len() == 1);
    assert("-"@.len() == 1);
    assert("\u{00d7}"@.len() == 1);
    assert("+"@[0] == '+');
    assert("-"@[0] == '-');
    assert("\u{00d7}"@[0] == '\u{00d7}');
}

/// Elemental energy type.
#[derive(Debug, Clone, Copy, PartialEq, Eq, Structural)]
pub enum EnergyType {
    Grass,
    Fire,
    Water,
    Lightning,
    Psychic,
    Fighting,
    Darkness,
    Metal,
    Dragon,
    Colorless,
}

impl EnergyType {
    pub open spec fn wire_v(&self) -> Seq<char> {
        match self {
            EnergyType::Grass => "GRASS"@,
            EnergyType::Fire => "FIRE"@,
            EnergyType::Water => "WATER"@,
            EnergyType::Lightning => "LIGHTNING"@,
            EnergyType::Psychic => "PSYCHIC"@,
            EnergyType::Fighting => "FIGHTING"@,
            EnergyType::Darkness => "DARKNESS"@,
            EnergyType::Metal => "METAL"@,
            EnergyType::Dragon => "DRAGON"@,
            EnergyType::Colorless => "COLORLESS"@,
        }
    }

    pub open spec fn of_wire(s: Seq<char>) -> Option<EnergyType> {
        if s == "GRASS"@ {
            Some(EnergyType::Grass)
        } else if s == "FIRE"@ {
            Some(EnergyType::Fire)
        } else if s == "WATER"@ {
            Some(EnergyType::Water)
        } else if s == "LIGHTNING"@ {
            Some(EnergyType::Lightning)
        } else if s == "PSYCHIC"@ {
            Some(EnergyType::Psychic)
        } else if s == "FIGHTING"@ {
            Some(EnergyType::Fighting)
        } else if s == "DARKNESS"@ {
            Some(EnergyType::Darkness)
        } else if s == "METAL"@ {
            Some(EnergyType::Metal)
        } else if s == "DRAGON"@ {
            Some(EnergyType::Dragon)
        } else if s == "COLORLESS"@ {
            Some(EnergyType::Colorless)
        } else {
            None
        }
    }

    pub fn wire(&self) -> (r: String)
        ensures
            r@ == self.wire_v(),
    {
        match self {
            EnergyType::Grass => "GRASS".to_owned(),
            EnergyType::Fire => "FIRE".to_owned(),
            EnergyType::Water => "WATER".to_owned(),
            EnergyType::Lightning => "LIGHTNING".to_owned(),
            EnergyType::Psychic => "PSYCHIC".to_owned(),
            EnergyType::Fighting => "FIGHTING".to_owned(),
            EnergyType::Darkness => "DARKNESS".to_owned(),
            EnergyType::Metal => "METAL".to_owned(),
            EnergyType::Dragon => "DRAGON".to_owned(),
            EnergyType::Colorless => "COLORLESS".to_owned(),
        }
    }

    pub fn parse(s: &str) -> (r: Option<EnergyType>)
        ensures
            r == EnergyType::of_wire(s@),
    {
        if str_eq(s, "GRASS") {
            Some(EnergyType::Grass)
        } else if str_eq(s, "FIRE") {
            Some(EnergyType::Fire)
        } else if str_eq(s, "WATER") {
            Some(EnergyType::Water)
        } else if str_eq(s, "LIGHTNING") {
            Some(EnergyType::Lightning)
        } else if str_eq(s, "PSYCHIC") {
            Some(EnergyType::Psychic)
        } else if str_eq(s, "FIGHTING") {
            Some(EnergyType::Fighting)
        } else if str_eq(s, "DARKNESS") {
            Some(EnergyType::Darkness)
        } else if str_eq(s, "METAL") {
            Some(EnergyType::Metal)
        } else if str_eq(s, "DRAGON") {
            Some(EnergyType::Dragon)
        } else if str_eq(s, "COLORLESS") {
            Some(EnergyType::Colorless)
        } else {
            None
        }
    }
}

pub proof fn lemma_energy_type_wire(t: EnergyType, s: Seq<char>)
    ensures
        EnergyType::of_wire(t.wire_v()) == Some(t),
        EnergyType::of_wire(s) matches Some(u) ==> u.wire_v() == s,
{
    reveal_strlit("GRASS");
    reveal_strlit("FIRE");
    reveal_strlit("WATER");
    reveal_strlit("LIGHTNING");
    reveal_strlit("PSYCHIC");
    reveal_strlit("FIGHTING");
    reveal_strlit("DARKNESS");
    reveal_strlit("METAL");
    reveal_strlit("DRAGON");
    reveal_strlit("COLORLESS");
    assert("GRASS"@.len() == 5);
    assert("FIRE"@.len() == 4);
    assert("WATER"@.len() == 5);
    assert("LIGHTNING"@.len() == 9);
    assert("PSYCHIC"@.len() == 7);
    assert("FIGHTING"@.len() == 8);
    assert("DARKNESS"@.len() == 8);
    assert("METAL"@.len() == 5);
    assert("DRAGON"@.len() == 6);
    assert("COLORLESS"@.len() == 9);
    assert("GRASS"@[0] == 'G');
    assert("GRASS"@[1] == 'R');
    assert("GRASS"@[2] == 'A');
    assert("GRASS"@[3] == 'S');
    assert("GRASS"@[4] == 'S');
    assert("WATER"@[0] == 'W');
    assert("WATER"@[1] == 'A');
    assert("WATER"@[2] == 'T');
    assert("WATER"@[3] == 'E');
    assert("WATER"@[4] == 'R');
    assert("METAL"@[0] == 'M');
    assert("METAL"@[1] == 'E');
    assert("METAL"@[2] == 'T');
    assert("METAL"@[3] == 'A');
    assert("METAL"@[4] == 'L');
    assert("LIGHTNING"@[0] == 'L');
    assert("LIGHTNING"@[1] == 'I');
    assert("LIGHTNING"@[2] == 'G');
    assert("LIGHTNING"@[3] == 'H');
    assert("LIGHTNING"@[4] == 'T');
    assert("LIGHTNING"@[5] == 'N');
    assert("LIGHTNING"@[6] == 'I');
    assert("LIGHTNING"@[7] == 'N');
    assert("LIGHTNING"@[8] == 'G');
    assert("COLORLESS"@[0] == 'C');
    assert("COLORLESS"@[1] == 'O');
    assert("COLORLESS"@[2] == 'L');
    assert("COLORLESS"@[3] == 'O');
    assert("COLORLESS"@[4] == 'R');
    assert("COLORLESS"@[5] == 'L');
    assert("COLORLESS"@[6] == 'E');
    assert("COLORLESS"@[7] == 'S');
    assert("COLORLESS"@[8] == 'S');
    assert("FIGHTING"@[0] == 'F');
    assert("FIGHTING"@[1] == 'I');
    assert("FIGHTING"@[2] == 'G');
    assert("FIGHTING"@[3] == 'H');
    assert("FIGHTING"@[4] == 'T');
    assert("FIGHTING"@[5] == 'I');
    assert("FIGHTING"@[6] == 'N');
    assert("FIGHTING"@[7] == 'G');
    assert("DARKNESS"@[0] == 'D');
    assert("DARKNESS"@[1] == 'A');
    assert("DARKNESS"@[2] == 'R');
    assert("DARKNESS"@[3] == 'K');
    assert("DARKNESS"@[4] == 'N');
    assert("DARKNESS"@[5] == 'E');
    assert("DARKNESS"@[6] == 'S');
    assert("DARKNESS"@[7] == 'S');
}

/// One attack-cost token: an elemental type, or free.
#[derive(Debug, Clone, Copy, PartialEq, Eq, Structural)]
pub enum AttackCost {
    Free,
    Grass,
    Fire,
    Water,
    Lightning,
    Psychic,
    Fighting,
    Darkness,
    Metal,
    Dragon,
    Colorless,
}

impl AttackCost {
    pub open spec fn wire_v(&self) -> Seq<char> {
        match self {
            AttackCost::Free => "FREE"@,
            AttackCost::Grass => "GRASS"@,
            AttackCost::Fire => "FIRE"@,
            AttackCost::Water => "WATER"@,
            AttackCost::Lightning => "LIGHTNING"@,
            AttackCost::Psychic => "PSYCHIC"@,
            AttackCost::Fighting => "FIGHTING"@,
            AttackCost::Darkness => "DARKNESS"@,
            AttackCost::Metal => "METAL"@,
            AttackCost::Dragon => "DRAGON"@,
            AttackCost::Colorless => "COLORLESS"@,
        }
    }

    pub open spec fn of_wire(s: Seq<char>) -> Option<AttackCost> {
        if s == "FREE"@ {
            Some(AttackCost::Free)
        } else if s == "GRASS"@ {
            Some(AttackCost::Grass)
        } else if s == "FIRE"@ {
            Some(AttackCost::Fire)
        } else if s == "WATER"@ {
            Some(AttackCost::Water)
        } else if s == "LIGHTNING"@ {
            Some(AttackCost::Lightning)
        } else if s == "PSYCHIC"@ {
            Some(AttackCost::Psychic)
        } else if s == "FIGHTING"@ {
            Some(AttackCost::Fighting)
        } else if s == "DARKNESS"@ {
            Some(AttackCost::Darkness)
        } else if s == "METAL"@ {
            Some(AttackCost::Metal)
        } else if s == "DRAGON"@ {
            Some(AttackCost::Dragon)
        } else if s == "COLORLESS"@ {
            Some(AttackCost::Colorless)
        } else {
            None
        }
    }

    pub fn wire(&self) -> (r: String)
        ensures
            r@ == self.wire_v(),
    {
        match self {
            AttackCost::Free => "FREE".to_owned(),
            AttackCost::Grass => "GRASS".to_owned(),
            AttackCost::Fire => "FIRE".to_owned(),
            AttackCost::Water => "WATER".to_owned(),
            AttackCost::Lightning => "LIGHTNING".to_owned(),
            AttackCost::Psychic => "PSYCHIC".to_owned(),
            AttackCost::Fighting => "FIGHTING".to_owned(),
            AttackCost::Darkness => "DARKNESS".to_owned(),
            AttackCost::Metal => "METAL".to_owned(),
            AttackCost::Dragon => "DRAGON".to_owned(),
            AttackCost::Colorless => "COLORLESS".to_owned(),
        }
    }

    pub fn parse(s: &str) -> (r: Option<AttackCost>)
        ensures
            r == AttackCost::of_wire(s@),
    {
        if str_eq(s, "FREE") {
            Some(AttackCost::Free)
        } else if str_eq(s, "GRASS") {
            Some(AttackCost::Grass)
        } else if str_eq(s, "FIRE") {
            Some(AttackCost::Fire)
        } else if str_eq(s, "WATER") {
            Some(AttackCost::Water)
        } else if str_eq(s, "LIGHTNING") {
            Some(AttackCost::Lightning)
        } else if str_eq(s, "PSYCHIC") {
            Some(AttackCost::Psychic)
        } else if str_eq(s, "FIGHTING") {
            Some(AttackCost::Fighting)
        } else if str_eq(s, "DARKNESS") {
            Some(AttackCost::Darkness)
        } else if str_eq(s, "METAL") {
            Some(AttackCost::Metal)
        } else if str_eq(s, "DRAGON") {
            Some(AttackCost::Dragon)
        } else if str_eq(s, "COLORLESS") {
            Some(AttackCost::Colorless)
        } else {
            None
        }
    }
}

pub proof fn lemma_attack_cost_wire(t: AttackCost, s: Seq<char>)
    ensures
        AttackCost::of_wire(t.wire_v()) == Some(t),
        AttackCost::of_wire(s) matches Some(u) ==> u.wire_v() == s,
{
    reveal_strlit("FREE");
    reveal_strlit("GRASS");
    reveal_strlit("FIRE");
    reveal_strlit("WATER");
    reveal_strlit("LIGHTNING");
    reveal_strlit("PSYCHIC");
    reveal_strlit("FIGHTING");
    reveal_strlit("DARKNESS");
    reveal_strlit("METAL");
    reveal_strlit("DRAGON");
    reveal_strlit("COLORLESS");
    assert("FREE"@.len() == 4);
    assert("GRASS"@.len() == 5);
    assert("FIRE"@.len() == 4);
    assert("WATER"@.len() == 5);
    assert("LIGHTNING"@.len() == 9);
    assert("PSYCHIC"@.len() == 7);
    assert("FIGHTING"@.len() == 8);
    assert("DARKNESS"@.len() == 8);
    assert("METAL"@.len() == 5);
    assert("DRAGON"@.len() == 6);
    assert("COLORLESS"@.len() == 9);
    assert("FREE"@[0] == 'F');
    assert("FREE"@[1] == 'R');
    assert("FREE"@[2] == 'E');
    assert("FREE"@[3] == 'E');
    assert("FIRE"@[0] == 'F');
    assert("FIRE"@[1] == 'I');
    assert("FIRE"@[2] == 'R');
    assert("FIRE"@[3] == 'E');
    assert("GRASS"@[0] == 'G');
    assert("GRASS"@[1] == 'R');
    assert("GRASS"@[2] == 'A');
    assert("GRASS"@[3] == 'S');
    assert("GRASS"@[4] == 'S');
    assert("WATER"@[0] == 'W');
    assert("WATER"@[1] == 'A');
    assert("WATER"@[2] == 'T');
    assert("WATER"@[3] == 'E');
    assert("WATER"@[4] == 'R');
    assert("METAL"@[0] == 'M');
    assert("METAL"@[1] == 'E');
    assert("METAL"@[2] == 'T');
    assert("METAL"@[3] == 'A');
    assert("METAL"@[4] == 'L');
    assert("LIGHTNING"@[0] == 'L');
    assert("LIGHTNING"@[1] == 'I');
    assert("LIGHTNING"@[2] == 'G');
    assert("LIGHTNING"@[3] == 'H');
    assert("LIGHTNING"@[4] == 'T');
    assert("LIGHTNING"@[5] == 'N');
    assert("LIGHTNING"@[6] == 'I');
    assert("LIGHTNING"@[7] == 'N');
    assert("LIGHTNING"@[8] == 'G');
    assert("COLORLESS"@[0] == 'C');
    assert("COLORLESS"@[1] == 'O');
    assert("COLORLESS"@[2] == 'L');
    assert("COLORLESS"@[3] == 'O');
    assert("COLORLESS"@[4] == 'R');
    assert("COLORLESS"@[5] == 'L');
    assert("COLORLESS"@[6] == 'E');
    assert("COLORLESS"@[7] == 'S');
    assert("COLORLESS"@[8] == 'S');
    assert("FIGHTING"@[0] == 'F');
    assert("FIGHTING"@[1] == 'I');
    assert("FIGHTING"@[2] == 'G');
    assert("FIGHTING"@[3] == 'H');
    assert("FIGHTING"@[4] == 'T');
    assert("FIGHTING"@[5] == 'I');
    assert("FIGHTING"@[6] == 'N');
    assert("FIGHTING"@[7] == 'G');
    assert("DARKNESS"@[0] == 'D');
    assert("DARKNESS"@[1] == 'A');
    assert("DARKNESS"@[2] == 'R');
    assert("DARKNESS"@[3] == 'K');
    assert("DARKNESS"@[4] == 'N');
    assert("DARKNESS"@[5] == 'E');
    assert("DARKNESS"@[6] == 'S');
    assert("DARKNESS"@[7] == 'S');
}

/// Tokens are their own models.
impl View for Lang {
    type V = Lang;

    open spec fn view(&self) -> Lang {
        *self
    }
}

impl View for FoilType {
    type V = FoilType;

    open spec fn view(&self) -> FoilType {
        *self
    }
}

impl View for FoilMask {
    type V = FoilMask;

    open spec fn view(&self) -> FoilMask {
        *self
    }
}

impl View for CardSize {
    type V = CardSize;

    open spec fn view(&self) -> CardSize {
        *self
    }
}

impl View for CardBack {
    type V = CardBack;

    open spec fn view(&self) -> CardBack {
        *self
    }
}

impl View for RegulationMark {
    type V = RegulationMark;

    open spec fn view(&self) -> RegulationMark {
        *self
    }
}

impl View for RarityDesignation {
    type V = RarityDesignation;

    open spec fn view(&self) -> RarityDesignation {
        *self
    }
}

impl View for RarityIcon {
    type V = RarityIcon;

    open spec fn view(&self) -> RarityIcon {
        *self
    }
}

impl View for CardTag {
    type V = CardTag;

    open spec fn view(&self) -> CardTag {
        *self
    }
}

impl View for Stage {
    type V = Stage;

    open spec fn view(&self) -> Stage {
        *self
    }
}

impl View for WeaknessOperator {
    type V = WeaknessOperator;

    open spec fn view(&self) -> WeaknessOperator {
        *self
    }
}

impl View for ResistanceOperator {
    type V = ResistanceOperator;

    open spec fn view(&self) -> ResistanceOperator {
        *self
    }
}

impl View for DamageSuffix {
    type V = DamageSuffix;

    open spec fn view(&self) -> DamageSuffix {
        *self
    }
}

impl View for EnergyType {
    type V = EnergyType;

    open spec fn view(&self) -> EnergyType {
        *self
    }
}

impl View for AttackCost {
    type V = AttackCost;

    open spec fn view(&self) -> AttackCost {
        *self
    }
}

} // verus!
