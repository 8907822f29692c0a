//! The kinds of monster and their fixed attributes.
use vstd::prelude::*;

use crate::constants::AMULET_LEVEL;
use crate::hit::damage_stat::DamageStat;
use crate::monster::flags::{spec_empty_flags, MonsterFlags};
use crate::random::get_rand_usize;

verus! {

/// Number of monster kinds.
pub const MONSTERS: usize = 26;

/// A kind of monster, in the order of their letters.
#[derive(Debug, Copy, Clone, Eq, PartialEq, Structural)]
pub enum MonsterKind {
    Aquator,
    Bat,
    Centaur,
    Dragon,
    Emu,
    FlyTrap,
    Griffin,
    Hobgoblin,
    IceMonster,
    Jabberwock,
    Kestrel,
    Leprechaun,
    Medusa,
    Nymph,
    Orc,
    Phantom,
    Quagga,
    Rattlesnake,
    Snake,
    Troll,
    Unicorn,
    Vampire,
    Wraith,
    Xeroc,
    Yeti,
    Zombie,
}

/// Position of the kind in the alphabetical list.
pub open spec fn spec_index(k: MonsterKind) -> usize {
    match k {
        MonsterKind::Aquator => 0,
        MonsterKind::Bat => 1,
        MonsterKind::Centaur => 2,
        MonsterKind::Dragon => 3,
        MonsterKind::Emu => 4,
        MonsterKind::FlyTrap => 5,
        MonsterKind::Griffin => 6,
        MonsterKind::Hobgoblin => 7,
        MonsterKind::IceMonster => 8,
        MonsterKind::Jabberwock => 9,
        MonsterKind::Kestrel => 10,
        MonsterKind::Leprechaun => 11,
        MonsterKind::Medusa => 12,
        MonsterKind::Nymph => 13,
        MonsterKind::Orc => 14,
        MonsterKind::Phantom => 15,
        MonsterKind::Quagga => 16,
        MonsterKind::Rattlesnake => 17,
        MonsterKind::Snake => 18,
        MonsterKind::Troll => 19,
        MonsterKind::Unicorn => 20,
        MonsterKind::Vampire => 21,
        MonsterKind::Wraith => 22,
        MonsterKind::Xeroc => 23,
        MonsterKind::Yeti => 24,
        MonsterKind::Zombie => 25,
    }
}

/// The kind at a position of the alphabetical list.
pub open spec fn spec_from_index(i: usize) -> MonsterKind {
    if i == 0 {
        MonsterKind::Aquator
    } else if i == 1 {
        MonsterKind::Bat
    } else if i == 2 {
        MonsterKind::Centaur
    } else if i == 3 {
        MonsterKind::Dragon
    } else if i == 4 {
        MonsterKind::Emu
    } else if i == 5 {
        MonsterKind::FlyTrap
    } else if i == 6 {
        MonsterKind::Griffin
    } else if i == 7 {
        MonsterKind::Hobgoblin
    } else if i == 8 {
        MonsterKind::IceMonster
    } else if i == 9 {
        MonsterKind::Jabberwock
    } else if i == 10 {
        MonsterKind::Kestrel
    } else if i == 11 {
        MonsterKind::Leprechaun
    } else if i == 12 {
        MonsterKind::Medusa
    } else if i == 13 {
        MonsterKind::Nymph
    } else if i == 14 {
        MonsterKind::Orc
    } else if i == 15 {
        MonsterKind::Phantom
    } else if i == 16 {
        MonsterKind::Quagga
    } else if i == 17 {
        MonsterKind::Rattlesnake
    } else if i == 18 {
        MonsterKind::Snake
    } else if i == 19 {
        MonsterKind::Troll
    } else if i == 20 {
        MonsterKind::Unicorn
    } else if i == 21 {
        MonsterKind::Vampire
    } else if i == 22 {
        MonsterKind::Wraith
    } else if i == 23 {
        MonsterKind::Xeroc
    } else if i == 24 {
        MonsterKind::Yeti
    } else {
        MonsterKind::Zombie
    }
}

/// Hit points of a fresh monster of this kind.
pub open spec fn spec_hp_to_kill(k: MonsterKind) -> isize {
    match k {
        MonsterKind::Aquator => 25,
        MonsterKind::Bat => 10,
        MonsterKind::Centaur => 32,
        MonsterKind::Dragon => 145,
        MonsterKind::Emu => 11,
        MonsterKind::FlyTrap => 73,
        MonsterKind::Griffin => 115,
        MonsterKind::Hobgoblin => 15,
        MonsterKind::IceMonster => 15,
        MonsterKind::Jabberwock => 132,
        MonsterKind::Kestrel => 10,
        MonsterKind::Leprechaun => 25,
        MonsterKind::Medusa => 97,
        MonsterKind::Nymph => 25,
        MonsterKind::Orc => 25,
        MonsterKind::Phantom => 76,
        MonsterKind::Quagga => 30,
        MonsterKind::Rattlesnake => 19,
        MonsterKind::Snake => 8,
        MonsterKind::Troll => 75,
        MonsterKind::Unicorn => 90,
        MonsterKind::Vampire => 55,
        MonsterKind::Wraith => 45,
        MonsterKind::Xeroc => 42,
        MonsterKind::Yeti => 35,
        MonsterKind::Zombie => 21,
    }
}

/// The letter that shows the monster on the screen.
pub open spec fn spec_screen_char(k: MonsterKind) -> char {
    match k {
        MonsterKind::Aquator => 'A',
        MonsterKind::Bat => 'B',
        MonsterKind::Centaur => 'C',
        MonsterKind::Dragon => 'D',
        MonsterKind::Emu => 'E',
        MonsterKind::FlyTrap => 'F',
        MonsterKind::Griffin => 'G',
        MonsterKind::Hobgoblin => 'H',
        MonsterKind::IceMonster => 'I',
        MonsterKind::Jabberwock => 'J',
        MonsterKind::Kestrel => 'K',
        MonsterKind::Leprechaun => 'L',
        MonsterKind::Medusa => 'M',
        MonsterKind::Nymph => 'N',
        MonsterKind::Orc => 'O',
        MonsterKind::Phantom => 'P',
        MonsterKind::Quagga => 'Q',
        MonsterKind::Rattlesnake => 'R',
        MonsterKind::Snake => 'S',
        MonsterKind::Troll => 'T',
        MonsterKind::Unicorn => 'U',
        MonsterKind::Vampire => 'V',
        MonsterKind::Wraith => 'W',
        MonsterKind::Xeroc => 'X',
        MonsterKind::Yeti => 'Y',
        MonsterKind::Zombie => 'Z',
    }
}

/// Experience points for killing the monster.
pub open spec fn spec_kill_exp(k: MonsterKind) -> isize {
    match k {
        MonsterKind::Aquator => 20,
        MonsterKind::Bat => 2,
        MonsterKind::Centaur => 15,
        MonsterKind::Dragon => 5000,
        MonsterKind::Emu => 2,
        MonsterKind::FlyTrap => 91,
        MonsterKind::Griffin => 2000,
        MonsterKind::Hobgoblin => 3,
        MonsterKind::IceMonster => 5,
        MonsterKind::Jabberwock => 3000,
        MonsterKind::Kestrel => 2,
        MonsterKind::Leprechaun => 21,
        MonsterKind::Medusa => 28,
        MonsterKind::Nymph => 39,
        MonsterKind::Orc => 5,
        MonsterKind::Phantom => 120,
        MonsterKind::Quagga => 20,
        MonsterKind::Rattlesnake => 10,
        MonsterKind::Snake => 2,
        MonsterKind::Troll => 125,
        MonsterKind::Unicorn => 27,
        MonsterKind::Vampire => 39,
        MonsterKind::Wraith => 55,
        MonsterKind::Xeroc => 110,
        MonsterKind::Yeti => 50,
        MonsterKind::Zombie => 8,
    }
}

/// Shallowest depth at which the kind appears.
pub open spec fn spec_first_level(k: MonsterKind) -> usize {
    match k {
        MonsterKind::Aquator => 9,
        MonsterKind::Bat => 1,
        MonsterKind::Centaur => 7,
        MonsterKind::Dragon => 21,
        MonsterKind::Emu => 1,
        MonsterKind::FlyTrap => 12,
        MonsterKind::Griffin => 20,
        MonsterKind::Hobgoblin => 1,
        MonsterKind::IceMonster => 2,
        MonsterKind::Jabberwock => 21,
        MonsterKind::Kestrel => 1,
        MonsterKind::Leprechaun => 6,
        MonsterKind::Medusa => 126,
        MonsterKind::Nymph => 10,
        MonsterKind::Orc => 4,
        MonsterKind::Phantom => 15,
        MonsterKind::Quagga => 8,
        MonsterKind::Rattlesnake => 3,
        MonsterKind::Snake => 1,
        MonsterKind::Troll => 13,
        MonsterKind::Unicorn => 26,
        MonsterKind::Vampire => 126,
        MonsterKind::Wraith => 14,
        MonsterKind::Xeroc => 16,
        MonsterKind::Yeti => 11,
        MonsterKind::Zombie => 5,
    }
}

/// Deepest depth at which the kind appears.
pub open spec fn spec_last_level(k: MonsterKind) -> usize {
    match k {
        MonsterKind::Aquator => 18,
        MonsterKind::Bat => 8,
        MonsterKind::Centaur => 16,
        MonsterKind::Dragon => 126,
        MonsterKind::Emu => 7,
        MonsterKind::FlyTrap => 126,
        MonsterKind::Griffin => 126,
        MonsterKind::Hobgoblin => 10,
        MonsterKind::IceMonster => 11,
        MonsterKind::Jabberwock => 126,
        MonsterKind::Kestrel => 6,
        MonsterKind::Leprechaun => 16,
        MonsterKind::Medusa => 85,
        MonsterKind::Nymph => 19,
        MonsterKind::Orc => 13,
        MonsterKind::Phantom => 24,
        MonsterKind::Quagga => 17,
        MonsterKind::Rattlesnake => 12,
        MonsterKind::Snake => 9,
        MonsterKind::Troll => 22,
        MonsterKind::Unicorn => 85,
        MonsterKind::Vampire => 85,
        MonsterKind::Wraith => 23,
        MonsterKind::Xeroc => 25,
        MonsterKind::Yeti => 20,
        MonsterKind::Zombie => 14,
    }
}

/// Percent chance that the monster hits.
pub open spec fn spec_m_hit_chance(k: MonsterKind) -> usize {
    match k {
        MonsterKind::Aquator => 100,
        MonsterKind::Bat => 60,
        MonsterKind::Centaur => 85,
        MonsterKind::Dragon => 100,
        MonsterKind::Emu => 65,
        MonsterKind::FlyTrap => 80,
        MonsterKind::Griffin => 85,
        MonsterKind::Hobgoblin => 67,
        MonsterKind::IceMonster => 68,
        MonsterKind::Jabberwock => 100,
        MonsterKind::Kestrel => 60,
        MonsterKind::Leprechaun => 75,
        MonsterKind::Medusa => 85,
        MonsterKind::Nymph => 75,
        MonsterKind::Orc => 70,
        MonsterKind::Phantom => 80,
        MonsterKind::Quagga => 78,
        MonsterKind::Rattlesnake => 70,
        MonsterKind::Snake => 50,
        MonsterKind::Troll => 75,
        MonsterKind::Unicorn => 85,
        MonsterKind::Vampire => 85,
        MonsterKind::Wraith => 75,
        MonsterKind::Xeroc => 75,
        MonsterKind::Yeti => 80,
        MonsterKind::Zombie => 69,
    }
}

/// Percent chance that the monster drops an object when killed.
pub open spec fn spec_drop_percent(k: MonsterKind) -> usize {
    match k {
        MonsterKind::Aquator => 0,
        MonsterKind::Bat => 0,
        MonsterKind::Centaur => 10,
        MonsterKind::Dragon => 90,
        MonsterKind::Emu => 0,
        MonsterKind::FlyTrap => 0,
        MonsterKind::Griffin => 10,
        MonsterKind::Hobgoblin => 0,
        MonsterKind::IceMonster => 0,
        MonsterKind::Jabberwock => 0,
        MonsterKind::Kestrel => 0,
        MonsterKind::Leprechaun => 0,
        MonsterKind::Medusa => 25,
        MonsterKind::Nymph => 100,
        MonsterKind::Orc => 10,
        MonsterKind::Phantom => 50,
        MonsterKind::Quagga => 20,
        MonsterKind::Rattlesnake => 0,
        MonsterKind::Snake => 0,
        MonsterKind::Troll => 33,
        MonsterKind::Unicorn => 33,
        MonsterKind::Vampire => 18,
        MonsterKind::Wraith => 0,
        MonsterKind::Xeroc => 0,
        MonsterKind::Yeti => 20,
        MonsterKind::Zombie => 0,
    }
}

/// Damage dice of the kind.
pub open spec fn spec_damage(k: MonsterKind) -> Seq<DamageStat> {
    match k {
        MonsterKind::Aquator => seq![DamageStat { hits: 0, damage: 0 }],
        MonsterKind::Bat => seq![DamageStat { hits: 1, damage: 3 }],
        MonsterKind::Centaur => seq![DamageStat { hits: 3, damage: 3 }, DamageStat { hits: 2, damage: 5 }],
        MonsterKind::Dragon => seq![DamageStat { hits: 4, damage: 6 }, DamageStat { hits: 4, damage: 9 }],
        MonsterKind::Emu => seq![DamageStat { hits: 1, damage: 3 }],
        MonsterKind::FlyTrap => seq![DamageStat { hits: 5, damage: 5 }],
        MonsterKind::Griffin => seq![DamageStat { hits: 5, damage: 5 }, DamageStat { hits: 5, damage: 5 }],
        MonsterKind::Hobgoblin => seq![DamageStat { hits: 1, damage: 3 }, DamageStat { hits: 1, damage: 2 }],
        MonsterKind::IceMonster => seq![DamageStat { hits: 0, damage: 0 }],
        MonsterKind::Jabberwock => seq![DamageStat { hits: 3, damage: 10 }, DamageStat { hits: 4, damage: 5 }],
        MonsterKind::Kestrel => seq![DamageStat { hits: 1, damage: 4 }],
        MonsterKind::Leprechaun => seq![DamageStat { hits: 0, damage: 0 }],
        MonsterKind::Medusa => seq![DamageStat { hits: 4, damage: 4 }, DamageStat { hits: 3, damage: 7 }],
        MonsterKind::Nymph => seq![DamageStat { hits: 0, damage: 0 }],
        MonsterKind::Orc => seq![DamageStat { hits: 1, damage: 6 }],
        MonsterKind::Phantom => seq![DamageStat { hits: 5, damage: 4 }],
        MonsterKind::Quagga => seq![DamageStat { hits: 3, damage: 5 }],
        MonsterKind::Rattlesnake => seq![DamageStat { hits: 2, damage: 5 }],
        MonsterKind::Snake => seq![DamageStat { hits: 1, damage: 3 }],
        MonsterKind::Troll => seq![DamageStat { hits: 4, damage: 6 }, DamageStat { hits: 1, damage: 4 }],
        MonsterKind::Unicorn => seq![DamageStat { hits: 4, damage: 10 }],
        MonsterKind::Vampire => seq![DamageStat { hits: 1, damage: 14 }, DamageStat { hits: 1, damage: 4 }],
        MonsterKind::Wraith => seq![DamageStat { hits: 2, damage: 8 }],
        MonsterKind::Xeroc => seq![DamageStat { hits: 4, damage: 6 }],
        MonsterKind::Yeti => seq![DamageStat { hits: 3, damage: 6 }],
        MonsterKind::Zombie => seq![DamageStat { hits: 1, damage: 7 }],
    }
}

impl MonsterKind {
    /// The kind at position `index` of the alphabetical list.
    pub fn from_index(index: usize) -> (r: Self)
        requires
            index < MONSTERS,
        ensures
            r == spec_from_index(index),
            spec_index(r) == index,
    {
        match index {
            0 => MonsterKind::Aquator,
            1 => MonsterKind::Bat,
            2 => MonsterKind::Centaur,
            3 => MonsterKind::Dragon,
            4 => MonsterKind::Emu,
            5 => MonsterKind::FlyTrap,
            6 => MonsterKind::Griffin,
            7 => MonsterKind::Hobgoblin,
            8 => MonsterKind::IceMonster,
            9 => MonsterKind::Jabberwock,
            10 => MonsterKind::Kestrel,
            11 => MonsterKind::Leprechaun,
            12 => MonsterKind::Medusa,
            13 => MonsterKind::Nymph,
            14 => MonsterKind::Orc,
            15 => MonsterKind::Phantom,
            16 => MonsterKind::Quagga,
            17 => MonsterKind::Rattlesnake,
            18 => MonsterKind::Snake,
            19 => MonsterKind::Troll,
            20 => MonsterKind::Unicorn,
            21 => MonsterKind::Vampire,
            22 => MonsterKind::Wraith,
            23 => MonsterKind::Xeroc,
            24 => MonsterKind::Yeti,
            _ => MonsterKind::Zombie,
        }
    }

    /// A kind drawn at random.
    pub fn random_any() -> (r: Self)
        ensures
            spec_index(r) < MONSTERS,
    {
        Self::from_index(get_rand_usize(0, MONSTERS - 1))
    }

    /// The name of a kind drawn at random.
    pub fn random_name() -> (r: &'static str)
        ensures
            exists|k: MonsterKind| r@ == spec_name(k),
    {
        let random_kind = Self::from_index(get_rand_usize(0, MONSTERS - 1));
        random_kind.name()
    }

    /// Position of the kind in the alphabetical list.
    pub fn index(&self) -> (r: usize)
        ensures
            r == spec_index(*self),
            r < MONSTERS,
    {
        match self {
            MonsterKind::Aquator => 0,
            MonsterKind::Bat => 1,
            MonsterKind::Centaur => 2,
            MonsterKind::Dragon => 3,
            MonsterKind::Emu => 4,
            MonsterKind::FlyTrap => 5,
            MonsterKind::Griffin => 6,
            MonsterKind::Hobgoblin => 7,
            MonsterKind::IceMonster => 8,
            MonsterKind::Jabberwock => 9,
            MonsterKind::Kestrel => 10,
            MonsterKind::Leprechaun => 11,
            MonsterKind::Medusa => 12,
            MonsterKind::Nymph => 13,
            MonsterKind::Orc => 14,
            MonsterKind::Phantom => 15,
            MonsterKind::Quagga => 16,
            MonsterKind::Rattlesnake => 17,
            MonsterKind::Snake => 18,
            MonsterKind::Troll => 19,
            MonsterKind::Unicorn => 20,
            MonsterKind::Vampire => 21,
            MonsterKind::Wraith => 22,
            MonsterKind::Xeroc => 23,
            MonsterKind::Yeti => 24,
            MonsterKind::Zombie => 25,
        }
    }

    /// The name of the kind.
    pub fn name(&self) -> (r: &'static str)
        ensures
            r@ == spec_name(*self),
    {
        match self {
            MonsterKind::Aquator => {
                proof { reveal_strlit("aquator"); }
                "aquator"
            },
            MonsterKind::Bat => {
                proof { reveal_strlit("bat"); }
                "bat"
            },
            MonsterKind::Centaur => {
                proof { reveal_strlit("centaur"); }
                "centaur"
            },
            MonsterKind::Dragon => {
                proof { reveal_strlit("dragon"); }
                "dragon"
            },
            MonsterKind::Emu => {
                proof { reveal_strlit("emu"); }
                "emu"
            },
            MonsterKind::FlyTrap => {
                proof { reveal_strlit("venus fly-trap"); }
                "venus fly-trap"
            },
            MonsterKind::Griffin => {
                proof { reveal_strlit("griffin"); }
                "griffin"
            },
            MonsterKind::Hobgoblin => {
                proof { reveal_strlit("hobgoblin"); }
                "hobgoblin"
            },
            MonsterKind::IceMonster => {
                proof { reveal_strlit("ice monster"); }
                "ice monster"
            },
            MonsterKind::Jabberwock => {
                proof { reveal_strlit("jabberwock"); }
                "jabberwock"
            },
            MonsterKind::Kestrel => {
                proof { reveal_strlit("kestrel"); }
                "kestrel"
            },
            MonsterKind::Leprechaun => {
                proof { reveal_strlit("leprechaun"); }
                "leprechaun"
            },
            MonsterKind::Medusa => {
                proof { reveal_strlit("medusa"); }
                "medusa"
            },
            MonsterKind::Nymph => {
                proof { reveal_strlit("nymph"); }
                "nymph"
            },
            MonsterKind::Orc => {
                proof { reveal_strlit("orc"); }
                "orc"
            },
            MonsterKind::Phantom => {
                proof { reveal_strlit("phantom"); }
                "phantom"
            },
            MonsterKind::Quagga => {
                proof { reveal_strlit("quagga"); }
                "quagga"
            },
            MonsterKind::Rattlesnake => {
                proof { reveal_strlit("rattlesnake"); }
                "rattlesnake"
            },
            MonsterKind::Snake => {
                proof { reveal_strlit("snake"); }
                "snake"
            },
            MonsterKind::Troll => {
                proof { reveal_strlit("troll"); }
                "troll"
            },
            MonsterKind::Unicorn => {
                proof { reveal_strlit("black unicorn"); }
                "black unicorn"
            },
            MonsterKind::Vampire => {
                proof { reveal_strlit("vampire"); }
                "vampire"
            },
            MonsterKind::Wraith => {
                proof { reveal_strlit("wraith"); }
                "wraith"
            },
            MonsterKind::Xeroc => {
                proof { reveal_strlit("xeroc"); }
                "xeroc"
            },
            MonsterKind::Yeti => {
                proof { reveal_strlit("yeti"); }
                "yeti"
            },
            MonsterKind::Zombie => {
                proof { reveal_strlit("zombie"); }
                "zombie"
            },
        }
    }

    /// The flags of a monster of this kind made at `depth`: the kind's
    /// starting flags, hasted below the amulet's depth by more than two.
    pub fn depth_adjusted_flags(&self, depth: usize) -> (r: MonsterFlags)
        ensures
            r == (if depth > AMULET_LEVEL + 2 {
                spec_hasted(spec_flags(*self))
            } else {
                spec_flags(*self)
            }),
    {
        let flags = self.flags();
        if depth > AMULET_LEVEL + 2 {
            MonsterFlags { hasted: true, ..flags }
        } else {
            flags
        }
    }

    /// The starting flags of the kind.
    fn flags(&self) -> (r: MonsterFlags)
        ensures
            r == spec_flags(*self),
    {
        reveal(spec_flags);
        match self {
            MonsterKind::Aquator => MonsterFlags::a(),
            MonsterKind::Bat => MonsterFlags::b(),
            MonsterKind::Centaur => MonsterFlags::c(),
            MonsterKind::Dragon => MonsterFlags::d(),
            MonsterKind::Emu => MonsterFlags::e(),
            MonsterKind::FlyTrap => MonsterFlags::f(),
            MonsterKind::Griffin => MonsterFlags::g(),
            MonsterKind::Hobgoblin => MonsterFlags::h(),
            MonsterKind::IceMonster => MonsterFlags::i(),
            MonsterKind::Jabberwock => MonsterFlags::j(),
            MonsterKind::Kestrel => MonsterFlags::k(),
            MonsterKind::Leprechaun => MonsterFlags::l(),
            MonsterKind::Medusa => MonsterFlags::m(),
            MonsterKind::Nymph => MonsterFlags::n(),
            MonsterKind::Orc => MonsterFlags::o(),
            MonsterKind::Phantom => MonsterFlags::p(),
            MonsterKind::Quagga => MonsterFlags::q(),
            MonsterKind::Rattlesnake => MonsterFlags::r(),
            MonsterKind::Snake => MonsterFlags::s(),
            MonsterKind::Troll => MonsterFlags::t(),
            MonsterKind::Unicorn => MonsterFlags::u(),
            MonsterKind::Vampire => MonsterFlags::v(),
            MonsterKind::Wraith => MonsterFlags::w(),
            MonsterKind::Xeroc => MonsterFlags::x(),
            MonsterKind::Yeti => MonsterFlags::y(),
            MonsterKind::Zombie => MonsterFlags::z(),
        }
    }

    /// Damage dice of the kind.
    pub fn damage(&self) -> (r: Vec<DamageStat>)
        ensures
            r@ == spec_damage(*self),
    {
        match self {
            MonsterKind::Aquator => vec![DamageStat { hits: 0, damage: 0 }],
            MonsterKind::Bat => vec![DamageStat { hits: 1, damage: 3 }],
            MonsterKind::Centaur => vec![DamageStat { hits: 3, damage: 3 }, DamageStat { hits: 2, damage: 5 }],
            MonsterKind::Dragon => vec![DamageStat { hits: 4, damage: 6 }, DamageStat { hits: 4, damage: 9 }],
            MonsterKind::Emu => vec![DamageStat { hits: 1, damage: 3 }],
            MonsterKind::FlyTrap => vec![DamageStat { hits: 5, damage: 5 }],
            MonsterKind::Griffin => vec![DamageStat { hits: 5, damage: 5 }, DamageStat { hits: 5, damage: 5 }],
            MonsterKind::Hobgoblin => vec![DamageStat { hits: 1, damage: 3 }, DamageStat { hits: 1, damage: 2 }],
            MonsterKind::IceMonster => vec![DamageStat { hits: 0, damage: 0 }],
            MonsterKind::Jabberwock => vec![DamageStat { hits: 3, damage: 10 }, DamageStat { hits: 4, damage: 5 }],
            MonsterKind::Kestrel => vec![DamageStat { hits: 1, damage: 4 }],
            MonsterKind::Leprechaun => vec![DamageStat { hits: 0, damage: 0 }],
            MonsterKind::Medusa => vec![DamageStat { hits: 4, damage: 4 }, DamageStat { hits: 3, damage: 7 }],
            MonsterKind::Nymph => vec![DamageStat { hits: 0, damage: 0 }],
            MonsterKind::Orc => vec![DamageStat { hits: 1, damage: 6 }],
            MonsterKind::Phantom => vec![DamageStat { hits: 5, damage: 4 }],
            MonsterKind::Quagga => vec![DamageStat { hits: 3, damage: 5 }],
            MonsterKind::Rattlesnake => vec![DamageStat { hits: 2, damage: 5 }],
            MonsterKind::Snake => vec![DamageStat { hits: 1, damage: 3 }],
            MonsterKind::Troll => vec![DamageStat { hits: 4, damage: 6 }, DamageStat { hits: 1, damage: 4 }],
            MonsterKind::Unicorn => vec![DamageStat { hits: 4, damage: 10 }],
            MonsterKind::Vampire => vec![DamageStat { hits: 1, damage: 14 }, DamageStat { hits: 1, damage: 4 }],
            MonsterKind::Wraith => vec![DamageStat { hits: 2, damage: 8 }],
            MonsterKind::Xeroc => vec![DamageStat { hits: 4, damage: 6 }],
            MonsterKind::Yeti => vec![DamageStat { hits: 3, damage: 6 }],
            MonsterKind::Zombie => vec![DamageStat { hits: 1, damage: 7 }],
        }
    }

    /// Hit points of a fresh monster of this kind.
    pub fn hp_to_kill(&self) -> (r: isize)
        ensures
            r == spec_hp_to_kill(*self),
    {
        match self {
            MonsterKind::Aquator => 25,
            MonsterKind::Bat => 10,
            MonsterKind::Centaur => 32,
            MonsterKind::Dragon => 145,
            MonsterKind::Emu => 11,
            MonsterKind::FlyTrap => 73,
            MonsterKind::Griffin => 115,
            MonsterKind::Hobgoblin => 15,
            MonsterKind::IceMonster => 15,
            MonsterKind::Jabberwock => 132,
            MonsterKind::Kestrel => 10,
            MonsterKind::Leprechaun => 25,
            MonsterKind::Medusa => 97,
            MonsterKind::Nymph => 25,
            MonsterKind::Orc => 25,
            MonsterKind::Phantom => 76,
            MonsterKind::Quagga => 30,
            MonsterKind::Rattlesnake => 19,
            MonsterKind::Snake => 8,
            MonsterKind::Troll => 75,
            MonsterKind::Unicorn => 90,
            MonsterKind::Vampire => 55,
            MonsterKind::Wraith => 45,
            MonsterKind::Xeroc => 42,
            MonsterKind::Yeti => 35,
            MonsterKind::Zombie => 21,
        }
    }

    /// The letter that shows the monster on the screen.
    pub fn screen_char(&self) -> (r: char)
        ensures
            r == spec_screen_char(*self),
    {
        match self {
            MonsterKind::Aquator => 'A',
            MonsterKind::Bat => 'B',
            MonsterKind::Centaur => 'C',
            MonsterKind::Dragon => 'D',
            MonsterKind::Emu => 'E',
            MonsterKind::FlyTrap => 'F',
            MonsterKind::Griffin => 'G',
            MonsterKind::Hobgoblin => 'H',
            MonsterKind::IceMonster => 'I',
            MonsterKind::Jabberwock => 'J',
            MonsterKind::Kestrel => 'K',
            MonsterKind::Leprechaun => 'L',
            MonsterKind::Medusa => 'M',
            MonsterKind::Nymph => 'N',
            MonsterKind::Orc => 'O',
            MonsterKind::Phantom => 'P',
            MonsterKind::Quagga => 'Q',
            MonsterKind::Rattlesnake => 'R',
            MonsterKind::Snake => 'S',
            MonsterKind::Troll => 'T',
            MonsterKind::Unicorn => 'U',
            MonsterKind::Vampire => 'V',
            MonsterKind::Wraith => 'W',
            MonsterKind::Xeroc => 'X',
            MonsterKind::Yeti => 'Y',
            MonsterKind::Zombie => 'Z',
        }
    }

    /// Experience points for killing the monster.
    pub fn kill_exp(&self) -> (r: isize)
        ensures
            r == spec_kill_exp(*self),
    {
        match self {
            MonsterKind::Aquator => 20,
            MonsterKind::Bat => 2,
            MonsterKind::Centaur => 15,
            MonsterKind::Dragon => 5000,
            MonsterKind::Emu => 2,
            MonsterKind::FlyTrap => 91,
            MonsterKind::Griffin => 2000,
            MonsterKind::Hobgoblin => 3,
            MonsterKind::IceMonster => 5,
            MonsterKind::Jabberwock => 3000,
            MonsterKind::Kestrel => 2,
            MonsterKind::Leprechaun => 21,
            MonsterKind::Medusa => 28,
            MonsterKind::Nymph => 39,
            MonsterKind::Orc => 5,
            MonsterKind::Phantom => 120,
            MonsterKind::Quagga => 20,
            MonsterKind::Rattlesnake => 10,
            MonsterKind::Snake => 2,
            MonsterKind::Troll => 125,
            MonsterKind::Unicorn => 27,
            MonsterKind::Vampire => 39,
            MonsterKind::Wraith => 55,
            MonsterKind::Xeroc => 110,
            MonsterKind::Yeti => 50,
            MonsterKind::Zombie => 8,
        }
    }

    /// Shallowest depth at which the kind appears.
    pub fn first_level(&self) -> (r: usize)
        ensures
            r == spec_first_level(*self),
    {
        match self {
            MonsterKind::Aquator => 9,
            MonsterKind::Bat => 1,
            MonsterKind::Centaur => 7,
            MonsterKind::Dragon => 21,
            MonsterKind::Emu => 1,
            MonsterKind::FlyTrap => 12,
            MonsterKind::Griffin => 20,
            MonsterKind::Hobgoblin => 1,
            MonsterKind::IceMonster => 2,
            MonsterKind::Jabberwock => 21,
            MonsterKind::Kestrel => 1,
            MonsterKind::Leprechaun => 6,
            MonsterKind::Medusa => 126,
            MonsterKind::Nymph => 10,
            MonsterKind::Orc => 4,
            MonsterKind::Phantom => 15,
            MonsterKind::Quagga => 8,
            MonsterKind::Rattlesnake => 3,
            MonsterKind::Snake => 1,
            MonsterKind::Troll => 13,
            MonsterKind::Unicorn => 26,
            MonsterKind::Vampire => 126,
            MonsterKind::Wraith => 14,
            MonsterKind::Xeroc => 16,
            MonsterKind::Yeti => 11,
            MonsterKind::Zombie => 5,
        }
    }

    /// Deepest depth at which the kind appears.
    pub fn last_level(&self) -> (r: usize)
        ensures
            r == spec_last_level(*self),
    {
        match self {
            MonsterKind::Aquator => 18,
            MonsterKind::Bat => 8,
            MonsterKind::Centaur => 16,
            MonsterKind::Dragon => 126,
            MonsterKind::Emu => 7,
            MonsterKind::FlyTrap => 126,
            MonsterKind::Griffin => 126,
            MonsterKind::Hobgoblin => 10,
            MonsterKind::IceMonster => 11,
            MonsterKind::Jabberwock => 126,
            MonsterKind::Kestrel => 6,
            MonsterKind::Leprechaun => 16,
            MonsterKind::Medusa => 85,
            MonsterKind::Nymph => 19,
            MonsterKind::Orc => 13,
            MonsterKind::Phantom => 24,
            MonsterKind::Quagga => 17,
            MonsterKind::Rattlesnake => 12,
            MonsterKind::Snake => 9,
            MonsterKind::Troll => 22,
            MonsterKind::Unicorn => 85,
            MonsterKind::Vampire => 85,
            MonsterKind::Wraith => 23,
            MonsterKind::Xeroc => 25,
            MonsterKind::Yeti => 20,
            MonsterKind::Zombie => 14,
        }
    }

    /// Percent chance that the monster hits.
    pub fn m_hit_chance(&self) -> (r: usize)
        ensures
            r == spec_m_hit_chance(*self),
    {
        match self {
            MonsterKind::Aquator => 100,
            MonsterKind::Bat => 60,
            MonsterKind::Centaur => 85,
            MonsterKind::Dragon => 100,
            MonsterKind::Emu => 65,
            MonsterKind::FlyTrap => 80,
            MonsterKind::Griffin => 85,
            MonsterKind::Hobgoblin => 67,
            MonsterKind::IceMonster => 68,
            MonsterKind::Jabberwock => 100,
            MonsterKind::Kestrel => 60,
            MonsterKind::Leprechaun => 75,
            MonsterKind::Medusa => 85,
            MonsterKind::Nymph => 75,
            MonsterKind::Orc => 70,
            MonsterKind::Phantom => 80,
            MonsterKind::Quagga => 78,
            MonsterKind::Rattlesnake => 70,
            MonsterKind::Snake => 50,
            MonsterKind::Troll => 75,
            MonsterKind::Unicorn => 85,
            MonsterKind::Vampire => 85,
            MonsterKind::Wraith => 75,
            MonsterKind::Xeroc => 75,
            MonsterKind::Yeti => 80,
            MonsterKind::Zombie => 69,
        }
    }

    /// Percent chance that the monster drops an object when killed.
    pub fn drop_percent(&self) -> (r: usize)
        ensures
            r == spec_drop_percent(*self),
    {
        match self {
            MonsterKind::Aquator => 0,
            MonsterKind::Bat => 0,
            MonsterKind::Centaur => 10,
            MonsterKind::Dragon => 90,
            MonsterKind::Emu => 0,
            MonsterKind::FlyTrap => 0,
            MonsterKind::Griffin => 10,
            MonsterKind::Hobgoblin => 0,
            MonsterKind::IceMonster => 0,
            MonsterKind::Jabberwock => 0,
            MonsterKind::Kestrel => 0,
            MonsterKind::Leprechaun => 0,
            MonsterKind::Medusa => 25,
            MonsterKind::Nymph => 100,
            MonsterKind::Orc => 10,
            MonsterKind::Phantom => 50,
            MonsterKind::Quagga => 20,
            MonsterKind::Rattlesnake => 0,
            MonsterKind::Snake => 0,
            MonsterKind::Troll => 33,
            MonsterKind::Unicorn => 33,
            MonsterKind::Vampire => 18,
            MonsterKind::Wraith => 0,
            MonsterKind::Xeroc => 0,
            MonsterKind::Yeti => 20,
            MonsterKind::Zombie => 0,
        }
    }
}

/// The name of the kind.
pub open spec fn spec_name(k: MonsterKind) -> Seq<char> {
    match k {
        MonsterKind::Aquator => "aquator"@,
        MonsterKind::Bat => "bat"@,
        MonsterKind::Centaur => "centaur"@,
        MonsterKind::Dragon => "dragon"@,
        MonsterKind::Emu => "emu"@,
        MonsterKind::FlyTrap => "venus fly-trap"@,
        MonsterKind::Griffin => "griffin"@,
        MonsterKind::Hobgoblin => "hobgoblin"@,
        MonsterKind::IceMonster => "ice monster"@,
        MonsterKind::Jabberwock => "jabberwock"@,
        MonsterKind::Kestrel => "kestrel"@,
        MonsterKind::Leprechaun => "leprechaun"@,
        MonsterKind::Medusa => "medusa"@,
        MonsterKind::Nymph => "nymph"@,
        MonsterKind::Orc => "orc"@,
        MonsterKind::Phantom => "phantom"@,
        MonsterKind::Quagga => "quagga"@,
        MonsterKind::Rattlesnake => "rattlesnake"@,
        MonsterKind::Snake => "snake"@,
        MonsterKind::Troll => "troll"@,
        MonsterKind::Unicorn => "black unicorn"@,
        MonsterKind::Vampire => "vampire"@,
        MonsterKind::Wraith => "wraith"@,
        MonsterKind::Xeroc => "xeroc"@,
        MonsterKind::Yeti => "yeti"@,
        MonsterKind::Zombie => "zombie"@,
    }
}

/// The flags with `hasted` set.
pub open spec fn spec_hasted(f: MonsterFlags) -> MonsterFlags {
    MonsterFlags { hasted: true, ..f }
}

/// The starting flags of the kind.
#[verifier::opaque]
pub open spec fn spec_flags(k: MonsterKind) -> MonsterFlags {
    match k {
        MonsterKind::Aquator => MonsterFlags { asleep: true, wakens: true, wanders: true, rusts: true, ..spec_empty_flags() },
        MonsterKind::Bat => MonsterFlags { asleep: true, wanders: true, flits: true, ..spec_empty_flags() },
        MonsterKind::Centaur => MonsterFlags { asleep: true, wanders: true, ..spec_empty_flags() },
        MonsterKind::Dragon => MonsterFlags { asleep: true, wakens: true, flames: true, ..spec_empty_flags() },
        MonsterKind::Emu => MonsterFlags { asleep: true, wakens: true, ..spec_empty_flags() },
        MonsterKind::FlyTrap => MonsterFlags { holds: true, stationary: true, ..spec_empty_flags() },
        MonsterKind::Griffin => MonsterFlags { asleep: true, wakens: true, wanders: true, flies: true, ..spec_empty_flags() },
        MonsterKind::Hobgoblin => MonsterFlags { asleep: true, wakens: true, wanders: true, ..spec_empty_flags() },
        MonsterKind::IceMonster => MonsterFlags { asleep: true, freezes: true, ..spec_empty_flags() },
        MonsterKind::Jabberwock => MonsterFlags { asleep: true, wanders: true, ..spec_empty_flags() },
        MonsterKind::Kestrel => MonsterFlags { asleep: true, wakens: true, wanders: true, flies: true, ..spec_empty_flags() },
        MonsterKind::Leprechaun => MonsterFlags { asleep: true, steals_gold: true, ..spec_empty_flags() },
        MonsterKind::Medusa => MonsterFlags { asleep: true, wakens: true, wanders: true, confuses: true, ..spec_empty_flags() },
        MonsterKind::Nymph => MonsterFlags { asleep: true, steals_item: true, ..spec_empty_flags() },
        MonsterKind::Orc => MonsterFlags { asleep: true, wakens: true, wanders: true, seeks_gold: true, ..spec_empty_flags() },
        MonsterKind::Phantom => MonsterFlags { asleep: true, invisible: true, wanders: true, flits: true, ..spec_empty_flags() },
        MonsterKind::Quagga => MonsterFlags { asleep: true, wakens: true, wanders: true, ..spec_empty_flags() },
        MonsterKind::Rattlesnake => MonsterFlags { asleep: true, wakens: true, wanders: true, stings: true, ..spec_empty_flags() },
        MonsterKind::Snake => MonsterFlags { asleep: true, wakens: true, wanders: true, ..spec_empty_flags() },
        MonsterKind::Troll => MonsterFlags { asleep: true, wakens: true, wanders: true, ..spec_empty_flags() },
        MonsterKind::Unicorn => MonsterFlags { asleep: true, wakens: true, wanders: true, ..spec_empty_flags() },
        MonsterKind::Vampire => MonsterFlags { asleep: true, wakens: true, wanders: true, drains_life: true, ..spec_empty_flags() },
        MonsterKind::Wraith => MonsterFlags { asleep: true, wanders: true, drops_level: true, ..spec_empty_flags() },
        MonsterKind::Xeroc => MonsterFlags { asleep: true, imitates: true, ..spec_empty_flags() },
        MonsterKind::Yeti => MonsterFlags { asleep: true, wanders: true, ..spec_empty_flags() },
        MonsterKind::Zombie => MonsterFlags { asleep: true, wakens: true, wanders: true, ..spec_empty_flags() },
    }
}

/// Each kind sits at its own position of the alphabetical list: taking the
/// kind at a kind's position gives that kind back, and taking the position of
/// the kind at a position gives that position back.
pub proof fn law_index_round_trip(k: MonsterKind, i: usize)
    ensures
        spec_from_index(spec_index(k)) == k,
        i < MONSTERS ==> spec_index(spec_from_index(i)) == i,
{
}

/// Every kind that a level can hold is met first no deeper than it is last
/// met, except the medusa and the vampire, whose first depth lies below their
/// last.
pub proof fn law_first_level_not_after_last(k: MonsterKind)
    requires
        !(k is Medusa),
        !(k is Vampire),
    ensures
        spec_first_level(k) <= spec_last_level(k),
{
}

} // verus!
