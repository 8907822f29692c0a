//! The kinds of object whose looks the rogue must learn: weapons, potions
//! and their colours, wands and their materials, rings and their gems,
//! scrolls and the syllables of their titles.
use vstd::prelude::*;

verus! {

/// A kind of weapon.
#[derive(Debug, Copy, Clone, Eq, PartialEq, Structural)]
pub enum WeaponKind {
    Bow,
    Dart,
    Arrow,
    Dagger,
    Shuriken,
    Mace,
    LongSword,
    TwoHandedSword,
}

/// The name of the weapon kind.
pub open spec fn spec_weapon_kind_name(k: WeaponKind) -> Seq<char> {
    match k {
        WeaponKind::Bow => "short bow "@,
        WeaponKind::Dart => "darts "@,
        WeaponKind::Arrow => "arrows "@,
        WeaponKind::Dagger => "daggers "@,
        WeaponKind::Shuriken => "shurikens "@,
        WeaponKind::Mace => "mace "@,
        WeaponKind::LongSword => "long sword "@,
        WeaponKind::TwoHandedSword => "two-handed sword "@,
    }
}

/// Position of the weapon kind in its list.
pub open spec fn spec_weapon_kind_index(k: WeaponKind) -> usize {
    match k {
        WeaponKind::Bow => 0,
        WeaponKind::Dart => 1,
        WeaponKind::Arrow => 2,
        WeaponKind::Dagger => 3,
        WeaponKind::Shuriken => 4,
        WeaponKind::Mace => 5,
        WeaponKind::LongSword => 6,
        WeaponKind::TwoHandedSword => 7,
    }
}

impl WeaponKind {
    /// The weapon kind at position `index` of its list.
    pub open spec fn from_index_spec(index: usize) -> Self {
        choose|k: Self| spec_weapon_kind_index(k) == index
    }

    /// The weapon kind at position `index` of its list.
    pub fn from_index(index: usize) -> (r: Self)
        requires
            index < 8,
        ensures
            spec_weapon_kind_index(r) == index,
            r == Self::from_index_spec(index),
    {
        let r = match index {
            0 => WeaponKind::Bow,
            1 => WeaponKind::Dart,
            2 => WeaponKind::Arrow,
            3 => WeaponKind::Dagger,
            4 => WeaponKind::Shuriken,
            5 => WeaponKind::Mace,
            6 => WeaponKind::LongSword,
            _ => WeaponKind::TwoHandedSword,
        };
        proof {
            let c = Self::from_index_spec(index);
            assert(spec_weapon_kind_index(r) == index);
            assert(spec_weapon_kind_index(c) == index);
        }
        r
    }

    /// Position in its list.
    pub fn to_index(&self) -> (r: usize)
        ensures
            r == spec_weapon_kind_index(*self),
            r < 8,
    {
        match self {
            WeaponKind::Bow => 0,
            WeaponKind::Dart => 1,
            WeaponKind::Arrow => 2,
            WeaponKind::Dagger => 3,
            WeaponKind::Shuriken => 4,
            WeaponKind::Mace => 5,
            WeaponKind::LongSword => 6,
            WeaponKind::TwoHandedSword => 7,
        }
    }

    /// The name as the game prints it.
    pub fn name(&self) -> (r: &'static str)
        ensures
            r@ == spec_weapon_kind_name(*self),
    {
        match self {
            WeaponKind::Bow => "short bow ",
            WeaponKind::Dart => "darts ",
            WeaponKind::Arrow => "arrows ",
            WeaponKind::Dagger => "daggers ",
            WeaponKind::Shuriken => "shurikens ",
            WeaponKind::Mace => "mace ",
            WeaponKind::LongSword => "long sword ",
            WeaponKind::TwoHandedSword => "two-handed sword ",
        }
    }

    /// Whether the weapon is thrown by hand: darts, daggers and shurikens.
    pub fn is_throwing_weapon(&self) -> (r: bool)
        ensures
            r == (*self is Dart || *self is Dagger || *self is Shuriken),
    {
        match self {
            WeaponKind::Dart | WeaponKind::Dagger | WeaponKind::Shuriken => true,
            _ => false,
        }
    }

    /// Whether the weapon is thrown: arrows or a weapon thrown by hand.
    pub fn is_arrow_or_throwing_weapon(&self) -> (r: bool)
        ensures
            r == (*self is Arrow || *self is Dart || *self is Dagger || *self is Shuriken),
    {
        match self {
            WeaponKind::Arrow => true,
            _ => self.is_throwing_weapon(),
        }
    }

    /// The weapon's damage dice, as hits and damage per hit.
    pub fn damage(&self) -> (r: (usize, usize))
        ensures
            r == spec_weapon_damage(*self),
    {
        match self {
            WeaponKind::Bow => (1, 2),
            WeaponKind::Dart => (1, 1),
            WeaponKind::Arrow => (1, 2),
            WeaponKind::Dagger => (1, 3),
            WeaponKind::Shuriken => (1, 4),
            WeaponKind::Mace => (2, 3),
            WeaponKind::LongSword => (3, 4),
            WeaponKind::TwoHandedSword => (4, 5),
        }
    }
}

/// The damage dice of a weapon kind, as hits and damage per hit.
pub open spec fn spec_weapon_damage(k: WeaponKind) -> (usize, usize) {
    match k {
        WeaponKind::Bow => (1usize, 2usize),
        WeaponKind::Dart => (1usize, 1usize),
        WeaponKind::Arrow => (1usize, 2usize),
        WeaponKind::Dagger => (1usize, 3usize),
        WeaponKind::Shuriken => (1usize, 4usize),
        WeaponKind::Mace => (2usize, 3usize),
        WeaponKind::LongSword => (3usize, 4usize),
        WeaponKind::TwoHandedSword => (4usize, 5usize),
    }
}

/// The colour of a potion.
#[derive(Debug, Copy, Clone, Eq, PartialEq, Structural)]
pub enum PotionColor {
    Blue,
    Red,
    Green,
    Grey,
    Brown,
    Clear,
    Pink,
    White,
    Purple,
    Black,
    Yellow,
    Plaid,
    Burgundy,
    Beige,
}

/// The name of the potion color.
pub open spec fn spec_potion_color_name(k: PotionColor) -> Seq<char> {
    match k {
        PotionColor::Blue => "blue "@,
        PotionColor::Red => "red "@,
        PotionColor::Green => "green "@,
        PotionColor::Grey => "grey "@,
        PotionColor::Brown => "brown "@,
        PotionColor::Clear => "clear "@,
        PotionColor::Pink => "pink "@,
        PotionColor::White => "white "@,
        PotionColor::Purple => "purple "@,
        PotionColor::Black => "black "@,
        PotionColor::Yellow => "yellow "@,
        PotionColor::Plaid => "plaid "@,
        PotionColor::Burgundy => "burgundy "@,
        PotionColor::Beige => "beige "@,
    }
}

/// Position of the potion color in its list.
pub open spec fn spec_potion_color_index(k: PotionColor) -> usize {
    match k {
        PotionColor::Blue => 0,
        PotionColor::Red => 1,
        PotionColor::Green => 2,
        PotionColor::Grey => 3,
        PotionColor::Brown => 4,
        PotionColor::Clear => 5,
        PotionColor::Pink => 6,
        PotionColor::White => 7,
        PotionColor::Purple => 8,
        PotionColor::Black => 9,
        PotionColor::Yellow => 10,
        PotionColor::Plaid => 11,
        PotionColor::Burgundy => 12,
        PotionColor::Beige => 13,
    }
}

impl PotionColor {
    /// The potion color at position `index` of its list.
    pub open spec fn from_index_spec(index: usize) -> Self {
        choose|k: Self| spec_potion_color_index(k) == index
    }

    /// The potion color at position `index` of its list.
    pub fn from_index(index: usize) -> (r: Self)
        requires
            index < 14,
        ensures
            spec_potion_color_index(r) == index,
            r == Self::from_index_spec(index),
    {
        let r = match index {
            0 => PotionColor::Blue,
            1 => PotionColor::Red,
            2 => PotionColor::Green,
            3 => PotionColor::Grey,
            4 => PotionColor::Brown,
            5 => PotionColor::Clear,
            6 => PotionColor::Pink,
            7 => PotionColor::White,
            8 => PotionColor::Purple,
            9 => PotionColor::Black,
            10 => PotionColor::Yellow,
            11 => PotionColor::Plaid,
            12 => PotionColor::Burgundy,
            _ => PotionColor::Beige,
        };
        proof {
            let c = Self::from_index_spec(index);
            assert(spec_potion_color_index(r) == index);
            assert(spec_potion_color_index(c) == index);
        }
        r
    }

    /// Position in its list.
    pub fn to_index(&self) -> (r: usize)
        ensures
            r == spec_potion_color_index(*self),
            r < 14,
    {
        match self {
            PotionColor::Blue => 0,
            PotionColor::Red => 1,
            PotionColor::Green => 2,
            PotionColor::Grey => 3,
            PotionColor::Brown => 4,
            PotionColor::Clear => 5,
            PotionColor::Pink => 6,
            PotionColor::White => 7,
            PotionColor::Purple => 8,
            PotionColor::Black => 9,
            PotionColor::Yellow => 10,
            PotionColor::Plaid => 11,
            PotionColor::Burgundy => 12,
            PotionColor::Beige => 13,
        }
    }

    /// The name as the game prints it.
    pub fn name(&self) -> (r: &'static str)
        ensures
            r@ == spec_potion_color_name(*self),
    {
        match self {
            PotionColor::Blue => "blue ",
            PotionColor::Red => "red ",
            PotionColor::Green => "green ",
            PotionColor::Grey => "grey ",
            PotionColor::Brown => "brown ",
            PotionColor::Clear => "clear ",
            PotionColor::Pink => "pink ",
            PotionColor::White => "white ",
            PotionColor::Purple => "purple ",
            PotionColor::Black => "black ",
            PotionColor::Yellow => "yellow ",
            PotionColor::Plaid => "plaid ",
            PotionColor::Burgundy => "burgundy ",
            PotionColor::Beige => "beige ",
        }
    }
}

/// The material of a wand.
#[derive(Debug, Copy, Clone, Eq, PartialEq, Structural)]
pub enum WandMaterial {
    Steel,
    Bronze,
    Gold,
    Silver,
    Copper,
    Nickel,
    Cobalt,
    Tin,
    Iron,
    Magnesium,
    Chrome,
    Carbon,
    Platinum,
    Silicon,
    Titanium,
    Teak,
    Oak,
    Cherry,
    Birch,
    Pine,
    Cedar,
    Redwood,
    Balsa,
    Ivory,
    Walnut,
    Maple,
    Mahogany,
    Elm,
    Palm,
    Wooden,
}

/// The name of the wand material.
pub open spec fn spec_wand_material_name(k: WandMaterial) -> Seq<char> {
    match k {
        WandMaterial::Steel => "steel "@,
        WandMaterial::Bronze => "bronze "@,
        WandMaterial::Gold => "gold "@,
        WandMaterial::Silver => "silver "@,
        WandMaterial::Copper => "copper "@,
        WandMaterial::Nickel => "nickel "@,
        WandMaterial::Cobalt => "cobalt "@,
        WandMaterial::Tin => "tin "@,
        WandMaterial::Iron => "iron "@,
        WandMaterial::Magnesium => "magnesium "@,
        WandMaterial::Chrome => "chrome "@,
        WandMaterial::Carbon => "carbon "@,
        WandMaterial::Platinum => "platinum "@,
        WandMaterial::Silicon => "silicon "@,
        WandMaterial::Titanium => "titanium "@,
        WandMaterial::Teak => "teak "@,
        WandMaterial::Oak => "oak "@,
        WandMaterial::Cherry => "cherry "@,
        WandMaterial::Birch => "birch "@,
        WandMaterial::Pine => "pine "@,
        WandMaterial::Cedar => "cedar "@,
        WandMaterial::Redwood => "redwood "@,
        WandMaterial::Balsa => "balsa "@,
        WandMaterial::Ivory => "ivory "@,
        WandMaterial::Walnut => "walnut "@,
        WandMaterial::Maple => "maple "@,
        WandMaterial::Mahogany => "mahogany "@,
        WandMaterial::Elm => "elm "@,
        WandMaterial::Palm => "palm "@,
        WandMaterial::Wooden => "wooden "@,
    }
}

/// Position of the wand material in its list.
pub open spec fn spec_wand_material_index(k: WandMaterial) -> usize {
    match k {
        WandMaterial::Steel => 0,
        WandMaterial::Bronze => 1,
        WandMaterial::Gold => 2,
        WandMaterial::Silver => 3,
        WandMaterial::Copper => 4,
        WandMaterial::Nickel => 5,
        WandMaterial::Cobalt => 6,
        WandMaterial::Tin => 7,
        WandMaterial::Iron => 8,
        WandMaterial::Magnesium => 9,
        WandMaterial::Chrome => 10,
        WandMaterial::Carbon => 11,
        WandMaterial::Platinum => 12,
        WandMaterial::Silicon => 13,
        WandMaterial::Titanium => 14,
        WandMaterial::Teak => 15,
        WandMaterial::Oak => 16,
        WandMaterial::Cherry => 17,
        WandMaterial::Birch => 18,
        WandMaterial::Pine => 19,
        WandMaterial::Cedar => 20,
        WandMaterial::Redwood => 21,
        WandMaterial::Balsa => 22,
        WandMaterial::Ivory => 23,
        WandMaterial::Walnut => 24,
        WandMaterial::Maple => 25,
        WandMaterial::Mahogany => 26,
        WandMaterial::Elm => 27,
        WandMaterial::Palm => 28,
        WandMaterial::Wooden => 29,
    }
}

impl WandMaterial {
    /// The wand material at position `index` of its list.
    pub fn from_index(index: usize) -> (r: Self)
        requires
            index < 30,
        ensures
            spec_wand_material_index(r) == index,
    {
        match index {
            0 => WandMaterial::Steel,
            1 => WandMaterial::Bronze,
            2 => WandMaterial::Gold,
            3 => WandMaterial::Silver,
            4 => WandMaterial::Copper,
            5 => WandMaterial::Nickel,
            6 => WandMaterial::Cobalt,
            7 => WandMaterial::Tin,
            8 => WandMaterial::Iron,
            9 => WandMaterial::Magnesium,
            10 => WandMaterial::Chrome,
            11 => WandMaterial::Carbon,
            12 => WandMaterial::Platinum,
            13 => WandMaterial::Silicon,
            14 => WandMaterial::Titanium,
            15 => WandMaterial::Teak,
            16 => WandMaterial::Oak,
            17 => WandMaterial::Cherry,
            18 => WandMaterial::Birch,
            19 => WandMaterial::Pine,
            20 => WandMaterial::Cedar,
            21 => WandMaterial::Redwood,
            22 => WandMaterial::Balsa,
            23 => WandMaterial::Ivory,
            24 => WandMaterial::Walnut,
            25 => WandMaterial::Maple,
            26 => WandMaterial::Mahogany,
            27 => WandMaterial::Elm,
            28 => WandMaterial::Palm,
            _ => WandMaterial::Wooden,
        }
    }

    /// Position in its list.
    pub fn to_index(&self) -> (r: usize)
        ensures
            r == spec_wand_material_index(*self),
            r < 30,
    {
        match self {
            WandMaterial::Steel => 0,
            WandMaterial::Bronze => 1,
            WandMaterial::Gold => 2,
            WandMaterial::Silver => 3,
            WandMaterial::Copper => 4,
            WandMaterial::Nickel => 5,
            WandMaterial::Cobalt => 6,
            WandMaterial::Tin => 7,
            WandMaterial::Iron => 8,
            WandMaterial::Magnesium => 9,
            WandMaterial::Chrome => 10,
            WandMaterial::Carbon => 11,
            WandMaterial::Platinum => 12,
            WandMaterial::Silicon => 13,
            WandMaterial::Titanium => 14,
            WandMaterial::Teak => 15,
            WandMaterial::Oak => 16,
            WandMaterial::Cherry => 17,
            WandMaterial::Birch => 18,
            WandMaterial::Pine => 19,
            WandMaterial::Cedar => 20,
            WandMaterial::Redwood => 21,
            WandMaterial::Balsa => 22,
            WandMaterial::Ivory => 23,
            WandMaterial::Walnut => 24,
            WandMaterial::Maple => 25,
            WandMaterial::Mahogany => 26,
            WandMaterial::Elm => 27,
            WandMaterial::Palm => 28,
            WandMaterial::Wooden => 29,
        }
    }

    /// The name as the game prints it.
    pub fn name(&self) -> (r: &'static str)
        ensures
            r@ == spec_wand_material_name(*self),
    {
        match self {
            WandMaterial::Steel => "steel ",
            WandMaterial::Bronze => "bronze ",
            WandMaterial::Gold => "gold ",
            WandMaterial::Silver => "silver ",
            WandMaterial::Copper => "copper ",
            WandMaterial::Nickel => "nickel ",
            WandMaterial::Cobalt => "cobalt ",
            WandMaterial::Tin => "tin ",
            WandMaterial::Iron => "iron ",
            WandMaterial::Magnesium => "magnesium ",
            WandMaterial::Chrome => "chrome ",
            WandMaterial::Carbon => "carbon ",
            WandMaterial::Platinum => "platinum ",
            WandMaterial::Silicon => "silicon ",
            WandMaterial::Titanium => "titanium ",
            WandMaterial::Teak => "teak ",
            WandMaterial::Oak => "oak ",
            WandMaterial::Cherry => "cherry ",
            WandMaterial::Birch => "birch ",
            WandMaterial::Pine => "pine ",
            WandMaterial::Cedar => "cedar ",
            WandMaterial::Redwood => "redwood ",
            WandMaterial::Balsa => "balsa ",
            WandMaterial::Ivory => "ivory ",
            WandMaterial::Walnut => "walnut ",
            WandMaterial::Maple => "maple ",
            WandMaterial::Mahogany => "mahogany ",
            WandMaterial::Elm => "elm ",
            WandMaterial::Palm => "palm ",
            WandMaterial::Wooden => "wooden ",
        }
    }

    /// Whether the material is a wood, which makes the wand a staff.
    pub fn is_wood(&self) -> (r: bool)
        ensures
            r == (spec_wand_material_index(*self) >= 15),
    {
        self.to_index() >= 15
    }
}

/// The gem of a ring.
#[derive(Debug, Copy, Clone, Eq, PartialEq, Structural)]
pub enum RingGem {
    Diamond,
    Stibotantalite,
    LapiLazuli,
    Ruby,
    Emerald,
    Sapphire,
    Amethyst,
    Quartz,
    TigerEye,
    Opal,
    Agate,
    Turquoise,
    Pearl,
    Garnet,
}

/// The name of the ring gem.
pub open spec fn spec_ring_gem_name(k: RingGem) -> Seq<char> {
    match k {
        RingGem::Diamond => "diamond "@,
        RingGem::Stibotantalite => "stibotantalite "@,
        RingGem::LapiLazuli => "lapi-lazuli "@,
        RingGem::Ruby => "ruby "@,
        RingGem::Emerald => "emerald "@,
        RingGem::Sapphire => "sapphire "@,
        RingGem::Amethyst => "amethyst "@,
        RingGem::Quartz => "quartz "@,
        RingGem::TigerEye => "tiger-eye "@,
        RingGem::Opal => "opal "@,
        RingGem::Agate => "agate "@,
        RingGem::Turquoise => "turquoise "@,
        RingGem::Pearl => "pearl "@,
        RingGem::Garnet => "garnet "@,
    }
}

/// Position of the ring gem in its list.
pub open spec fn spec_ring_gem_index(k: RingGem) -> usize {
    match k {
        RingGem::Diamond => 0,
        RingGem::Stibotantalite => 1,
        RingGem::LapiLazuli => 2,
        RingGem::Ruby => 3,
        RingGem::Emerald => 4,
        RingGem::Sapphire => 5,
        RingGem::Amethyst => 6,
        RingGem::Quartz => 7,
        RingGem::TigerEye => 8,
        RingGem::Opal => 9,
        RingGem::Agate => 10,
        RingGem::Turquoise => 11,
        RingGem::Pearl => 12,
        RingGem::Garnet => 13,
    }
}

impl RingGem {
    /// The ring gem at position `index` of its list.
    pub fn from_index(index: usize) -> (r: Self)
        requires
            index < 14,
        ensures
            spec_ring_gem_index(r) == index,
    {
        match index {
            0 => RingGem::Diamond,
            1 => RingGem::Stibotantalite,
            2 => RingGem::LapiLazuli,
            3 => RingGem::Ruby,
            4 => RingGem::Emerald,
            5 => RingGem::Sapphire,
            6 => RingGem::Amethyst,
            7 => RingGem::Quartz,
            8 => RingGem::TigerEye,
            9 => RingGem::Opal,
            10 => RingGem::Agate,
            11 => RingGem::Turquoise,
            12 => RingGem::Pearl,
            _ => RingGem::Garnet,
        }
    }

    /// Position in its list.
    pub fn to_index(&self) -> (r: usize)
        ensures
            r == spec_ring_gem_index(*self),
            r < 14,
    {
        match self {
            RingGem::Diamond => 0,
            RingGem::Stibotantalite => 1,
            RingGem::LapiLazuli => 2,
            RingGem::Ruby => 3,
            RingGem::Emerald => 4,
            RingGem::Sapphire => 5,
            RingGem::Amethyst => 6,
            RingGem::Quartz => 7,
            RingGem::TigerEye => 8,
            RingGem::Opal => 9,
            RingGem::Agate => 10,
            RingGem::Turquoise => 11,
            RingGem::Pearl => 12,
            RingGem::Garnet => 13,
        }
    }

    /// The name as the game prints it.
    pub fn name(&self) -> (r: &'static str)
        ensures
            r@ == spec_ring_gem_name(*self),
    {
        match self {
            RingGem::Diamond => "diamond ",
            RingGem::Stibotantalite => "stibotantalite ",
            RingGem::LapiLazuli => "lapi-lazuli ",
            RingGem::Ruby => "ruby ",
            RingGem::Emerald => "emerald ",
            RingGem::Sapphire => "sapphire ",
            RingGem::Amethyst => "amethyst ",
            RingGem::Quartz => "quartz ",
            RingGem::TigerEye => "tiger-eye ",
            RingGem::Opal => "opal ",
            RingGem::Agate => "agate ",
            RingGem::Turquoise => "turquoise ",
            RingGem::Pearl => "pearl ",
            RingGem::Garnet => "garnet ",
        }
    }
}

/// Number of potion kinds.
pub const POTIONS: usize = 14;
/// Number of scroll kinds.
pub const SCROLLS: usize = 12;
/// Number of weapon kinds.
pub const WEAPONS: usize = 8;
/// Number of wand kinds.
pub const WANDS: usize = 10;
/// Number of ring kinds.
pub const RINGS: usize = 11;
/// Number of wand materials.
pub const MAX_WAND_MATERIAL: usize = 30;
/// Number of ring gems.
pub const MAX_GEM: usize = 14;
/// Number of syllables that scroll titles are made of.
pub const MAX_SYLLABLE: usize = 40;

/// The syllables that scroll titles are made of.
pub open spec fn spec_syllable(i: usize) -> Seq<char> {
    match i {
        0 => "blech"@,
        1 => "foo"@,
        2 => "barf"@,
        3 => "rech"@,
        4 => "bar"@,
        5 => "blech"@,
        6 => "quo"@,
        7 => "bloto"@,
        8 => "woh"@,
        9 => "caca"@,
        10 => "blorp"@,
        11 => "erp"@,
        12 => "festr"@,
        13 => "rot"@,
        14 => "slie"@,
        15 => "snorf"@,
        16 => "iky"@,
        17 => "yuky"@,
        18 => "ooze"@,
        19 => "ah"@,
        20 => "bahl"@,
        21 => "zep"@,
        22 => "druhl"@,
        23 => "flem"@,
        24 => "behil"@,
        25 => "arek"@,
        26 => "mep"@,
        27 => "zihr"@,
        28 => "grit"@,
        29 => "kona"@,
        30 => "kini"@,
        31 => "ichi"@,
        32 => "niah"@,
        33 => "ogr"@,
        34 => "ooh"@,
        35 => "ighr"@,
        36 => "coph"@,
        37 => "swerr"@,
        38 => "mihln"@,
        _ => "poxi"@,
    }
}

/// The syllable at position `i`.
pub fn syllable(i: usize) -> (r: &'static str)
    requires
        i < MAX_SYLLABLE,
    ensures
        r@ == spec_syllable(i),
{
    match i {
        0 => "blech",
        1 => "foo",
        2 => "barf",
        3 => "rech",
        4 => "bar",
        5 => "blech",
        6 => "quo",
        7 => "bloto",
        8 => "woh",
        9 => "caca",
        10 => "blorp",
        11 => "erp",
        12 => "festr",
        13 => "rot",
        14 => "slie",
        15 => "snorf",
        16 => "iky",
        17 => "yuky",
        18 => "ooze",
        19 => "ah",
        20 => "bahl",
        21 => "zep",
        22 => "druhl",
        23 => "flem",
        24 => "behil",
        25 => "arek",
        26 => "mep",
        27 => "zihr",
        28 => "grit",
        29 => "kona",
        30 => "kini",
        31 => "ichi",
        32 => "niah",
        33 => "ogr",
        34 => "ooh",
        35 => "ighr",
        36 => "coph",
        37 => "swerr",
        38 => "mihln",
        _ => "poxi",
    }
}

} // verus!
