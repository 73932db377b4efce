//! The strongly typed in-memory representation of card records: the root
//! discriminated union, its composites, and their mathematical models.
//! All are pure values; `wf` names each type's internal invariant.

use vstd::prelude::*;
use crate::datetime::DateTime;
use crate::tokens::AttackCost;
use crate::tokens::CardBack;
use crate::tokens::CardSize;
use crate::tokens::CardTag;
use crate::tokens::DamageSuffix;
use crate::tokens::EnergyType;
use crate::tokens::FoilMask;
use crate::tokens::FoilType;
use crate::tokens::Lang;
use crate::tokens::RarityDesignation;
use crate::tokens::RarityIcon;
use crate::tokens::RegulationMark;
use crate::tokens::ResistanceOperator;
use crate::tokens::Stage;
use crate::tokens::WeaknessOperator;
use crate::url_check::url_accepted;

verus! {

/// Foil treatment: type and mask.
#[derive(Debug, Clone, Copy, PartialEq, Eq)]
pub struct Foil {
    pub ty: FoilType,
    pub mask: FoilMask,
}

impl View for Foil {
    type V = Foil;

    open spec fn view(&self) -> Foil {
        *self
    }
}

/// Rarity: designation and icon.
#[derive(Debug, Clone, Copy, PartialEq, Eq)]
pub struct Rarity {
    pub designation: RarityDesignation,
    pub icon: RarityIcon,
}

impl View for Rarity {
    type V = Rarity;

    open spec fn view(&self) -> Rarity {
        *self
    }
}

/// Attack damage: amount with an optional suffix operator.
#[derive(Debug, Clone, Copy, PartialEq, Eq)]
pub struct Damage {
    pub amount: u16,
    pub suffix: Option<DamageSuffix>,
}

impl View for Damage {
    type V = Damage;

    open spec fn view(&self) -> Damage {
        *self
    }
}

/// Artist credit: display string and ordered list of individual names.
#[derive(Debug, Clone, PartialEq)]
pub struct Artists {
    pub text: String,
    pub list: Vec<String>,
}

pub struct ArtistsV {
    pub text: Seq<char>,
    pub list: Seq<Seq<char>>,
}

impl View for Artists {
    type V = ArtistsV;

    open spec fn view(&self) -> ArtistsV {
        ArtistsV { text: self.text@, list: self.list@.map_values(|s: String| s@) }
    }
}

/// Collector number: display string, numerator, optional denominator, and
/// the numeric value, which is positive.
#[derive(Debug, Clone, PartialEq)]
pub struct CollectorNumber {
    pub full: String,
    pub numerator: String,
    pub denominator: Option<String>,
    pub numeric: u16,
}

pub struct CollectorNumberV {
    pub full: Seq<char>,
    pub numerator: Seq<char>,
    pub denominator: Option<Seq<char>>,
    pub numeric: u16,
}

impl CollectorNumberV {
    pub open spec fn wf(&self) -> bool {
        self.numeric != 0
    }
}

impl View for CollectorNumber {
    type V = CollectorNumberV;

    open spec fn view(&self) -> CollectorNumberV {
        CollectorNumberV {
            full: self.full@,
            numerator: self.numerator@,
            denominator: match self.denominator {
                Some(s) => Some(s@),
                None => None,
            },
            numeric: self.numeric,
        }
    }
}

/// Copyright line: text and four-digit year.
#[derive(Debug, Clone, PartialEq)]
pub struct Copyright {
    pub text: String,
    pub year: u16,
}

pub struct CopyrightV {
    pub text: Seq<char>,
    pub year: u16,
}

impl View for Copyright {
    type V = CopyrightV;

    open spec fn view(&self) -> CopyrightV {
        CopyrightV { text: self.text@, year: self.year }
    }
}

/// Weakness: magnitude, operator token, elemental-type list.
#[derive(Debug, Clone, PartialEq)]
pub struct Weakness {
    pub amount: u8,
    pub operator: WeaknessOperator,
    pub types: Vec<EnergyType>,
}

pub struct WeaknessV {
    pub amount: u8,
    pub operator: WeaknessOperator,
    pub types: Seq<EnergyType>,
}

impl View for Weakness {
    type V = WeaknessV;

    open spec fn view(&self) -> WeaknessV {
        WeaknessV { amount: self.amount, operator: self.operator, types: self.types@ }
    }
}

/// Resistance: magnitude, operator token, elemental-type list.
#[derive(Debug, Clone, PartialEq)]
pub struct Resistance {
    pub amount: u8,
    pub operator: ResistanceOperator,
    pub types: Vec<EnergyType>,
}

pub struct ResistanceV {
    pub amount: u8,
    pub operator: ResistanceOperator,
    pub types: Seq<EnergyType>,
}

impl View for Resistance {
    type V = ResistanceV;

    open spec fn view(&self) -> ResistanceV {
        ResistanceV { amount: self.amount, operator: self.operator, types: self.types@ }
    }
}

/// Provider identifier bundle: hex-encoded 32-bit identifier, opaque
/// identifier strings, and the release date-time.
#[derive(Debug, Clone, PartialEq)]
pub struct Tcgl {
    pub archetype_id: u32,
    pub card_id: String,
    pub key: String,
    pub long_form_id: String,
    pub reldate: DateTime,
}

pub struct TcglV {
    pub archetype_id: u32,
    pub card_id: Seq<char>,
    pub key: Seq<char>,
    pub long_form_id: Seq<char>,
    pub reldate: DateTime,
}

impl TcglV {
    pub open spec fn wf(&self) -> bool {
        self.reldate.wf()
    }
}

impl View for Tcgl {
    type V = TcglV;

    open spec fn view(&self) -> TcglV {
        TcglV {
            archetype_id: self.archetype_id,
            card_id: self.card_id@,
            key: self.key@,
            long_form_id: self.long_form_id@,
            reldate: self.reldate,
        }
    }
}

/// Extension block: the provider bundle.
#[derive(Debug, Clone, PartialEq)]
pub struct Ext {
    pub tcgl: Tcgl,
}

pub struct ExtV {
    pub tcgl: TcglV,
}

impl ExtV {
    pub open spec fn wf(&self) -> bool {
        self.tcgl.wf()
    }
}

impl View for Ext {
    type V = ExtV;

    open spec fn view(&self) -> ExtV {
        ExtV { tcgl: self.tcgl@ }
    }
}

/// JPG image references.
#[derive(Debug, Clone, PartialEq)]
pub struct ImageJpg {
    pub front: String,
}

pub struct ImageJpgV {
    pub front: Seq<char>,
}

impl ImageJpgV {
    pub open spec fn wf(&self) -> bool {
        url_accepted(self.front)
    }
}

impl View for ImageJpg {
    type V = ImageJpgV;

    open spec fn view(&self) -> ImageJpgV {
        ImageJpgV { front: self.front@ }
    }
}

/// PNG image references, with optional foil and etch variants.
#[derive(Debug, Clone, PartialEq)]
pub struct ImagePng {
    pub front: String,
    pub foil: Option<String>,
    pub etch: Option<String>,
}

pub struct ImagePngV {
    pub front: Seq<char>,
    pub foil: Option<Seq<char>>,
    pub etch: Option<Seq<char>>,
}

impl ImagePngV {
    pub open spec fn wf(&self) -> bool {
        &&& url_accepted(self.front)
        &&& self.foil matches Some(u) ==> url_accepted(u)
        &&& self.etch matches Some(u) ==> url_accepted(u)
    }
}

impl View for ImagePng {
    type V = ImagePngV;

    open spec fn view(&self) -> ImagePngV {
        ImagePngV {
            front: self.front@,
            foil: match self.foil {
                Some(s) => Some(s@),
                None => None,
            },
            etch: match self.etch {
                Some(s) => Some(s@),
                None => None,
            },
        }
    }
}

/// Texture image references, with optional foil and etch variants.
#[derive(Debug, Clone, PartialEq)]
pub struct ImageTex {
    pub front: String,
    pub foil: Option<String>,
    pub etch: Option<String>,
}

pub struct ImageTexV {
    pub front: Seq<char>,
    pub foil: Option<Seq<char>>,
    pub etch: Option<Seq<char>>,
}

impl ImageTexV {
    pub open spec fn wf(&self) -> bool {
        &&& url_accepted(self.front)
        &&& self.foil matches Some(u) ==> url_accepted(u)
        &&& self.etch matches Some(u) ==> url_accepted(u)
    }
}

impl View for ImageTex {
    type V = ImageTexV;

    open spec fn view(&self) -> ImageTexV {
        ImageTexV {
            front: self.front@,
            foil: match self.foil {
                Some(s) => Some(s@),
                None => None,
            },
            etch: match self.etch {
                Some(s) => Some(s@),
                None => None,
            },
        }
    }
}

/// The per-provider image bundle.
#[derive(Debug, Clone, PartialEq)]
pub struct TcglImages {
    pub jpg: ImageJpg,
    pub png: ImagePng,
    pub tex: ImageTex,
}

pub struct TcglImagesV {
    pub jpg: ImageJpgV,
    pub png: ImagePngV,
    pub tex: ImageTexV,
}

impl TcglImagesV {
    pub open spec fn wf(&self) -> bool {
        self.jpg.wf() && self.png.wf() && self.tex.wf()
    }
}

impl View for TcglImages {
    type V = TcglImagesV;

    open spec fn view(&self) -> TcglImagesV {
        TcglImagesV { jpg: self.jpg@, png: self.png@, tex: self.tex@ }
    }
}

/// The image-reference bundle.
#[derive(Debug, Clone, PartialEq)]
pub struct Images {
    pub tcgl: TcglImages,
}

pub struct ImagesV {
    pub tcgl: TcglImagesV,
}

impl ImagesV {
    pub open spec fn wf(&self) -> bool {
        self.tcgl.wf()
    }
}

impl View for Images {
    type V = ImagesV;

    open spec fn view(&self) -> ImagesV {
        ImagesV { tcgl: self.tcgl@ }
    }
}

/// An attack: name, optional text, ordered cost list, optional damage.
#[derive(Debug, Clone, PartialEq)]
pub struct Attack {
    pub name: String,
    pub text: Option<String>,
    pub cost: Vec<AttackCost>,
    pub damage: Option<Damage>,
}

pub struct AttackV {
    pub name: Seq<char>,
    pub text: Option<Seq<char>>,
    pub cost: Seq<AttackCost>,
    pub damage: Option<Damage>,
}

impl View for Attack {
    type V = AttackV;

    open spec fn view(&self) -> AttackV {
        AttackV {
            name: self.name@,
            text: match self.text {
                Some(s) => Some(s@),
                None => None,
            },
            cost: self.cost@,
            damage: self.damage,
        }
    }
}

/// An ability: name and text.
#[derive(Debug, Clone, PartialEq)]
pub struct Ability {
    pub name: String,
    pub text: String,
}

pub struct AbilityV {
    pub name: Seq<char>,
    pub text: Seq<char>,
}

impl View for Ability {
    type V = AbilityV;

    open spec fn view(&self) -> AbilityV {
        AbilityV { name: self.name@, text: self.text@ }
    }
}

/// A rule box: name and text.
#[derive(Debug, Clone, PartialEq)]
pub struct RuleBox {
    pub name: String,
    pub text: String,
}

pub struct RuleBoxV {
    pub name: Seq<char>,
    pub text: Seq<char>,
}

impl View for RuleBox {
    type V = RuleBoxV;

    open spec fn view(&self) -> RuleBoxV {
        RuleBoxV { name: self.name@, text: self.text@ }
    }
}

/// An effect: name and text.
#[derive(Debug, Clone, PartialEq)]
pub struct Effect {
    pub name: String,
    pub text: String,
}

pub struct EffectV {
    pub name: Seq<char>,
    pub text: Seq<char>,
}

impl View for Effect {
    type V = EffectV;

    open spec fn view(&self) -> EffectV {
        EffectV { name: self.name@, text: self.text@ }
    }
}

/// A free-form text box: optional name, required text.
#[derive(Debug, Clone, PartialEq)]
pub struct TextBox {
    pub name: Option<String>,
    pub text: String,
}

pub struct TextBoxV {
    pub name: Option<Seq<char>>,
    pub text: Seq<char>,
}

impl View for TextBox {
    type V = TextBoxV;

    open spec fn view(&self) -> TextBoxV {
        TextBoxV {
            name: match self.name {
                Some(s) => Some(s@),
                None => None,
            },
            text: self.text@,
        }
    }
}

/// Reminder text.
#[derive(Debug, Clone, PartialEq)]
pub struct Reminder {
    pub text: String,
}

pub struct ReminderV {
    pub text: Seq<char>,
}

impl View for Reminder {
    type V = ReminderV;

    open spec fn view(&self) -> ReminderV {
        ReminderV { text: self.text@ }
    }
}

/// A rule-text block, dispatched by its kind tag.
#[derive(Debug, Clone, PartialEq)]
pub enum Text {
    Attack(Attack),
    Ability(Ability),
    RuleBox(RuleBox),
    Effect(Effect),
    TextBox(TextBox),
    Reminder(Reminder),
}

pub enum TextV {
    Attack(AttackV),
    Ability(AbilityV),
    RuleBox(RuleBoxV),
    Effect(EffectV),
    TextBox(TextBoxV),
    Reminder(ReminderV),
}

impl View for Text {
    type V = TextV;

    open spec fn view(&self) -> TextV {
        match self {
            Text::Attack(x) => TextV::Attack(x@),
            Text::Ability(x) => TextV::Ability(x@),
            Text::RuleBox(x) => TextV::RuleBox(x@),
            Text::Effect(x) => TextV::Effect(x@),
            Text::TextBox(x) => TextV::TextBox(x@),
            Text::Reminder(x) => TextV::Reminder(x@),
        }
    }
}

/// The models of a list of rule-text blocks.
pub open spec fn texts_view(v: Seq<Text>) -> Seq<TextV> {
    v.map_values(|t: Text| t@)
}

/// A creature card.
#[derive(Debug, Clone, PartialEq)]
pub struct Pokemon {
    pub name: String,
    pub lang: Lang,
    pub foil: Option<Foil>,
    pub size: CardSize,
    pub back: CardBack,
    pub artists: Option<Artists>,
    pub regulation_mark: RegulationMark,
    pub set_icon: String,
    pub collector_number: CollectorNumber,
    pub rarity: Option<Rarity>,
    pub copyright: Option<Copyright>,
    pub tags: Option<Vec<CardTag>>,
    pub stage: Stage,
    pub stage_text: Option<String>,
    pub hp: u16,
    pub weakness: Option<Weakness>,
    pub resistance: Option<Resistance>,
    pub retreat: Option<u8>,
    pub flavor_text: Option<String>,
    pub text: Vec<Text>,
    pub ext: Ext,
    pub images: Images,
    pub types: Vec<EnergyType>,
}

pub struct PokemonV {
    pub name: Seq<char>,
    pub lang: Lang,
    pub foil: Option<Foil>,
    pub size: CardSize,
    pub back: CardBack,
    pub artists: Option<ArtistsV>,
    pub regulation_mark: RegulationMark,
    pub set_icon: Seq<char>,
    pub collector_number: CollectorNumberV,
    pub rarity: Option<Rarity>,
    pub copyright: Option<CopyrightV>,
    pub tags: Option<Seq<CardTag>>,
    pub stage: Stage,
    pub stage_text: Option<Seq<char>>,
    pub hp: u16,
    pub weakness: Option<WeaknessV>,
    pub resistance: Option<ResistanceV>,
    pub retreat: Option<u8>,
    pub flavor_text: Option<Seq<char>>,
    pub text: Seq<TextV>,
    pub ext: ExtV,
    pub images: ImagesV,
    pub types: Seq<EnergyType>,
}

impl PokemonV {
    pub open spec fn wf(&self) -> bool {
        &&& self.hp != 0
        &&& self.collector_number.wf()
        &&& self.ext.wf()
        &&& self.images.wf()
    }
}

impl View for Pokemon {
    type V = PokemonV;

    open spec fn view(&self) -> PokemonV {
        PokemonV {
            name: self.name@,
            lang: self.lang,
            foil: self.foil,
            size: self.size,
            back: self.back,
            artists: match self.artists {
                Some(a) => Some(a@),
                None => None,
            },
            regulation_mark: self.regulation_mark,
            set_icon: self.set_icon@,
            collector_number: self.collector_number@,
            rarity: self.rarity,
            copyright: match self.copyright {
                Some(c) => Some(c@),
                None => None,
            },
            tags: match self.tags {
                Some(t) => Some(t@),
                None => None,
            },
            stage: self.stage,
            stage_text: match self.stage_text {
                Some(s) => Some(s@),
                None => None,
            },
            hp: self.hp,
            weakness: match self.weakness {
                Some(w) => Some(w@),
                None => None,
            },
            resistance: match self.resistance {
                Some(x) => Some(x@),
                None => None,
            },
            retreat: self.retreat,
            flavor_text: match self.flavor_text {
                Some(s) => Some(s@),
                None => None,
            },
            text: texts_view(self.text@),
            ext: self.ext@,
            images: self.images@,
            types: self.types@,
        }
    }
}

/// An item trainer card.
#[derive(Debug, Clone, PartialEq)]
pub struct Item {
    pub name: String,
    pub lang: Lang,
    pub foil: Option<Foil>,
    pub size: CardSize,
    pub back: CardBack,
    pub artists: Option<Artists>,
    pub regulation_mark: RegulationMark,
    pub set_icon: String,
    pub collector_number: CollectorNumber,
    pub rarity: Option<Rarity>,
    pub copyright: Option<Copyright>,
    pub tags: Option<Vec<CardTag>>,
    pub stage_text: Option<String>,
    pub hp: Option<u16>,
    pub flavor_text: Option<String>,
    pub text: Vec<Text>,
    pub ext: Ext,
    pub images: Images,
}

pub struct ItemV {
    pub name: Seq<char>,
    pub lang: Lang,
    pub foil: Option<Foil>,
    pub size: CardSize,
    pub back: CardBack,
    pub artists: Option<ArtistsV>,
    pub regulation_mark: RegulationMark,
    pub set_icon: Seq<char>,
    pub collector_number: CollectorNumberV,
    pub rarity: Option<Rarity>,
    pub copyright: Option<CopyrightV>,
    pub tags: Option<Seq<CardTag>>,
    pub stage_text: Option<Seq<char>>,
    pub hp: Option<u16>,
    pub flavor_text: Option<Seq<char>>,
    pub text: Seq<TextV>,
    pub ext: ExtV,
    pub images: ImagesV,
}

impl ItemV {
    pub open spec fn wf(&self) -> bool {
        &&& self.hp matches Some(h) ==> h != 0
        &&& self.collector_number.wf()
        &&& self.ext.wf()
        &&& self.images.wf()
    }
}

impl View for Item {
    type V = ItemV;

    open spec fn view(&self) -> ItemV {
        ItemV {
            name: self.name@,
            lang: self.lang,
            foil: self.foil,
            size: self.size,
            back: self.back,
            artists: match self.artists {
                Some(a) => Some(a@),
                None => None,
            },
            regulation_mark: self.regulation_mark,
            set_icon: self.set_icon@,
            collector_number: self.collector_number@,
            rarity: self.rarity,
            copyright: match self.copyright {
                Some(c) => Some(c@),
                None => None,
            },
            tags: match self.tags {
                Some(t) => Some(t@),
                None => None,
            },
            stage_text: match self.stage_text {
                Some(s) => Some(s@),
                None => None,
            },
            hp: self.hp,
            flavor_text: match self.flavor_text {
                Some(s) => Some(s@),
                None => None,
            },
            text: texts_view(self.text@),
            ext: self.ext@,
            images: self.images@,
        }
    }
}

/// A supporter trainer card; it adds an optional subtitle.
#[derive(Debug, Clone, PartialEq)]
pub struct Supporter {
    pub name: String,
    pub subtitle: Option<String>,
    pub lang: Lang,
    pub foil: Option<Foil>,
    pub size: CardSize,
    pub back: CardBack,
    pub artists: Option<Artists>,
    pub regulation_mark: RegulationMark,
    pub set_icon: String,
    pub collector_number: CollectorNumber,
    pub rarity: Option<Rarity>,
    pub copyright: Option<Copyright>,
    pub tags: Option<Vec<CardTag>>,
    pub text: Vec<Text>,
    pub ext: Ext,
    pub images: Images,
}

pub struct SupporterV {
    pub name: Seq<char>,
    pub subtitle: Option<Seq<char>>,
    pub lang: Lang,
    pub foil: Option<Foil>,
    pub size: CardSize,
    pub back: CardBack,
    pub artists: Option<ArtistsV>,
    pub regulation_mark: RegulationMark,
    pub set_icon: Seq<char>,
    pub collector_number: CollectorNumberV,
    pub rarity: Option<Rarity>,
    pub copyright: Option<CopyrightV>,
    pub tags: Option<Seq<CardTag>>,
    pub text: Seq<TextV>,
    pub ext: ExtV,
    pub images: ImagesV,
}

impl SupporterV {
    pub open spec fn wf(&self) -> bool {
        &&& self.collector_number.wf()
        &&& self.ext.wf()
        &&& self.images.wf()
    }
}

impl View for Supporter {
    type V = SupporterV;

    open spec fn view(&self) -> SupporterV {
        SupporterV {
            name: self.name@,
            subtitle: match self.subtitle {
                Some(s) => Some(s@),
                None => None,
            },
            lang: self.lang,
            foil: self.foil,
            size: self.size,
            back: self.back,
            artists: match self.artists {
                Some(a) => Some(a@),
                None => None,
            },
            regulation_mark: self.regulation_mark,
            set_icon: self.set_icon@,
            collector_number: self.collector_number@,
            rarity: self.rarity,
            copyright: match self.copyright {
                Some(c) => Some(c@),
                None => None,
            },
            tags: match self.tags {
                Some(t) => Some(t@),
                None => None,
            },
            text: texts_view(self.text@),
            ext: self.ext@,
            images: self.images@,
        }
    }
}

/// A tool trainer card.
#[derive(Debug, Clone, PartialEq)]
pub struct Tool {
    pub name: String,
    pub lang: Lang,
    pub foil: Option<Foil>,
    pub size: CardSize,
    pub back: CardBack,
    pub artists: Option<Artists>,
    pub regulation_mark: RegulationMark,
    pub set_icon: String,
    pub collector_number: CollectorNumber,
    pub rarity: Option<Rarity>,
    pub copyright: Option<Copyright>,
    pub tags: Option<Vec<CardTag>>,
    pub flavor_text: Option<String>,
    pub text: Vec<Text>,
    pub ext: Ext,
    pub images: Images,
}

pub struct ToolV {
    pub name: Seq<char>,
    pub lang: Lang,
    pub foil: Option<Foil>,
    pub size: CardSize,
    pub back: CardBack,
    pub artists: Option<ArtistsV>,
    pub regulation_mark: RegulationMark,
    pub set_icon: Seq<char>,
    pub collector_number: CollectorNumberV,
    pub rarity: Option<Rarity>,
    pub copyright: Option<CopyrightV>,
    pub tags: Option<Seq<CardTag>>,
    pub flavor_text: Option<Seq<char>>,
    pub text: Seq<TextV>,
    pub ext: ExtV,
    pub images: ImagesV,
}

impl ToolV {
    pub open spec fn wf(&self) -> bool {
        &&& self.collector_number.wf()
        &&& self.ext.wf()
        &&& self.images.wf()
    }
}

impl View for Tool {
    type V = ToolV;

    open spec fn view(&self) -> ToolV {
        ToolV {
            name: self.name@,
            lang: self.lang,
            foil: self.foil,
            size: self.size,
            back: self.back,
            artists: match self.artists {
                Some(a) => Some(a@),
                None => None,
            },
            regulation_mark: self.regulation_mark,
            set_icon: self.set_icon@,
            collector_number: self.collector_number@,
            rarity: self.rarity,
            copyright: match self.copyright {
                Some(c) => Some(c@),
                None => None,
            },
            tags: match self.tags {
                Some(t) => Some(t@),
                None => None,
            },
            flavor_text: match self.flavor_text {
                Some(s) => Some(s@),
                None => None,
            },
            text: texts_view(self.text@),
            ext: self.ext@,
            images: self.images@,
        }
    }
}

/// A stadium trainer card.
#[derive(Debug, Clone, PartialEq)]
pub struct Stadium {
    pub name: String,
    pub lang: Lang,
    pub foil: Option<Foil>,
    pub size: CardSize,
    pub back: CardBack,
    pub artists: Option<Artists>,
    pub regulation_mark: RegulationMark,
    pub set_icon: String,
    pub collector_number: CollectorNumber,
    pub rarity: Option<Rarity>,
    pub copyright: Option<Copyright>,
    pub tags: Option<Vec<CardTag>>,
    pub flavor_text: Option<String>,
    pub text: Vec<Text>,
    pub ext: Ext,
    pub images: Images,
}

pub struct StadiumV {
    pub name: Seq<char>,
    pub lang: Lang,
    pub foil: Option<Foil>,
    pub size: CardSize,
    pub back: CardBack,
    pub artists: Option<ArtistsV>,
    pub regulation_mark: RegulationMark,
    pub set_icon: Seq<char>,
    pub collector_number: CollectorNumberV,
    pub rarity: Option<Rarity>,
    pub copyright: Option<CopyrightV>,
    pub tags: Option<Seq<CardTag>>,
    pub flavor_text: Option<Seq<char>>,
    pub text: Seq<TextV>,
    pub ext: ExtV,
    pub images: ImagesV,
}

impl StadiumV {
    pub open spec fn wf(&self) -> bool {
        &&& self.collector_number.wf()
        &&& self.ext.wf()
        &&& self.images.wf()
    }
}

impl View for Stadium {
    type V = StadiumV;

    open spec fn view(&self) -> StadiumV {
        StadiumV {
            name: self.name@,
            lang: self.lang,
            foil: self.foil,
            size: self.size,
            back: self.back,
            artists: match self.artists {
                Some(a) => Some(a@),
                None => None,
            },
            regulation_mark: self.regulation_mark,
            set_icon: self.set_icon@,
            collector_number: self.collector_number@,
            rarity: self.rarity,
            copyright: match self.copyright {
                Some(c) => Some(c@),
                None => None,
            },
            tags: match self.tags {
                Some(t) => Some(t@),
                None => None,
            },
            flavor_text: match self.flavor_text {
                Some(s) => Some(s@),
                None => None,
            },
            text: texts_view(self.text@),
            ext: self.ext@,
            images: self.images@,
        }
    }
}

/// A basic energy card.
#[derive(Debug, Clone, PartialEq)]
pub struct BasicEnergy {
    pub name: String,
    pub lang: Lang,
    pub foil: Option<Foil>,
    pub size: CardSize,
    pub back: CardBack,
    pub set_icon: String,
    pub collector_number: CollectorNumber,
    pub rarity: Option<Rarity>,
    pub copyright: Option<Copyright>,
    pub tags: Option<Vec<CardTag>>,
    pub ext: Ext,
    pub images: Images,
    pub types: Vec<EnergyType>,
}

pub struct BasicEnergyV {
    pub name: Seq<char>,
    pub lang: Lang,
    pub foil: Option<Foil>,
    pub size: CardSize,
    pub back: CardBack,
    pub set_icon: Seq<char>,
    pub collector_number: CollectorNumberV,
    pub rarity: Option<Rarity>,
    pub copyright: Option<CopyrightV>,
    pub tags: Option<Seq<CardTag>>,
    pub ext: ExtV,
    pub images: ImagesV,
    pub types: Seq<EnergyType>,
}

impl BasicEnergyV {
    pub open spec fn wf(&self) -> bool {
        &&& self.collector_number.wf()
        &&& self.ext.wf()
        &&& self.images.wf()
    }
}

impl View for BasicEnergy {
    type V = BasicEnergyV;

    open spec fn view(&self) -> BasicEnergyV {
        BasicEnergyV {
            name: self.name@,
            lang: self.lang,
            foil: self.foil,
            size: self.size,
            back: self.back,
            set_icon: self.set_icon@,
            collector_number: self.collector_number@,
            rarity: self.rarity,
            copyright: match self.copyright {
                Some(c) => Some(c@),
                None => None,
            },
            tags: match self.tags {
                Some(t) => Some(t@),
                None => None,
            },
            ext: self.ext@,
            images: self.images@,
            types: self.types@,
        }
    }
}

/// A special energy card.
#[derive(Debug, Clone, PartialEq)]
pub struct SpecialEnergy {
    pub name: String,
    pub lang: Lang,
    pub foil: Option<Foil>,
    pub size: CardSize,
    pub back: CardBack,
    pub regulation_mark: RegulationMark,
    pub set_icon: String,
    pub collector_number: CollectorNumber,
    pub rarity: Option<Rarity>,
    pub copyright: Option<Copyright>,
    pub tags: Option<Vec<CardTag>>,
    pub flavor_text: Option<String>,
    pub text: Vec<Text>,
    pub ext: Ext,
    pub images: Images,
}

pub struct SpecialEnergyV {
    pub name: Seq<char>,
    pub lang: Lang,
    pub foil: Option<Foil>,
    pub size: CardSize,
    pub back: CardBack,
    pub regulation_mark: RegulationMark,
    pub set_icon: Seq<char>,
    pub collector_number: CollectorNumberV,
    pub rarity: Option<Rarity>,
    pub copyright: Option<CopyrightV>,
    pub tags: Option<Seq<CardTag>>,
    pub flavor_text: Option<Seq<char>>,
    pub text: Seq<TextV>,
    pub ext: ExtV,
    pub images: ImagesV,
}

impl SpecialEnergyV {
    pub open spec fn wf(&self) -> bool {
        &&& self.collector_number.wf()
        &&& self.ext.wf()
        &&& self.images.wf()
    }
}

impl View for SpecialEnergy {
    type V = SpecialEnergyV;

    open spec fn view(&self) -> SpecialEnergyV {
        SpecialEnergyV {
            name: self.name@,
            lang: self.lang,
            foil: self.foil,
            size: self.size,
            back: self.back,
            regulation_mark: self.regulation_mark,
            set_icon: self.set_icon@,
            collector_number: self.collector_number@,
            rarity: self.rarity,
            copyright: match self.copyright {
                Some(c) => Some(c@),
                None => None,
            },
            tags: match self.tags {
                Some(t) => Some(t@),
                None => None,
            },
            flavor_text: match self.flavor_text {
                Some(s) => Some(s@),
                None => None,
            },
            text: texts_view(self.text@),
            ext: self.ext@,
            images: self.images@,
        }
    }
}

/// A trainer card: its nested discriminated union.
#[derive(Debug, Clone, PartialEq)]
pub enum Trainer {
    Item(Item),
    Supporter(Supporter),
    Tool(Tool),
    Stadium(Stadium),
}

pub enum TrainerV {
    Item(ItemV),
    Supporter(SupporterV),
    Tool(ToolV),
    Stadium(StadiumV),
}

impl TrainerV {
    pub open spec fn wf(&self) -> bool {
        match self {
            TrainerV::Item(x) => x.wf(),
            TrainerV::Supporter(x) => x.wf(),
            TrainerV::Tool(x) => x.wf(),
            TrainerV::Stadium(x) => x.wf(),
        }
    }
}

impl View for Trainer {
    type V = TrainerV;

    open spec fn view(&self) -> TrainerV {
        match self {
            Trainer::Item(x) => TrainerV::Item(x@),
            Trainer::Supporter(x) => TrainerV::Supporter(x@),
            Trainer::Tool(x) => TrainerV::Tool(x@),
            Trainer::Stadium(x) => TrainerV::Stadium(x@),
        }
    }
}

/// An energy card: its nested discriminated union.
#[derive(Debug, Clone, PartialEq)]
pub enum Energy {
    Basic(BasicEnergy),
    Special(SpecialEnergy),
}

pub enum EnergyV {
    Basic(BasicEnergyV),
    Special(SpecialEnergyV),
}

impl EnergyV {
    pub open spec fn wf(&self) -> bool {
        match self {
            EnergyV::Basic(x) => x.wf(),
            EnergyV::Special(x) => x.wf(),
        }
    }
}

impl View for Energy {
    type V = EnergyV;

    open spec fn view(&self) -> EnergyV {
        match self {
            Energy::Basic(x) => EnergyV::Basic(x@),
            Energy::Special(x) => EnergyV::Special(x@),
        }
    }
}

/// A card record: the root discriminated union.
#[derive(Debug, Clone, PartialEq)]
pub enum Card {
    Pokemon(Pokemon),
    Trainer(Trainer),
    Energy(Energy),
}

pub enum CardV {
    Pokemon(PokemonV),
    Trainer(TrainerV),
    Energy(EnergyV),
}

impl CardV {
    pub open spec fn wf(&self) -> bool {
        match self {
            CardV::Pokemon(x) => x.wf(),
            CardV::Trainer(x) => x.wf(),
            CardV::Energy(x) => x.wf(),
        }
    }
}

impl View for Card {
    type V = CardV;

    open spec fn view(&self) -> CardV {
        match self {
            Card::Pokemon(x) => CardV::Pokemon(x@),
            Card::Trainer(x) => CardV::Trainer(x@),
            Card::Energy(x) => CardV::Energy(x@),
        }
    }
}

/// The models of a list of card records.
pub open spec fn cards_view(v: Seq<Card>) -> Seq<CardV> {
    v.map_values(|c: Card| c@)
}

} // verus!
