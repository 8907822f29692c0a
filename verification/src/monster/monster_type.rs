//! The kinds of monster as plain names.
use vstd::prelude::*;

verus! {

/// A kind of monster, in the order of their letters.
#[derive(Debug, Copy, Clone, Eq, PartialEq, Structural)]
pub enum MonsterType {
    Aquator,
    Bat,
    Centaur,
    Dragon,
    Emu,
    FlyTrap,
    Griffin,
    Hobgoblin,
    IceMonster,
    Jabberwock,
    Kestrel,
    Leprechaun,
    Medusa,
    Nymph,
    Orc,
    Phantom,
    Quagga,
    Rattlesnake,
    Snake,
    Troll,
    Unicorn,
    Vampire,
    Wraith,
    Xeroc,
    Yeti,
    Zombie,
}

/// The name of the type.
pub open spec fn spec_type_name(t: MonsterType) -> Seq<char> {
    match t {
        MonsterType::Aquator => "aquator"@,
        MonsterType::Bat => "bat"@,
        MonsterType::Centaur => "centaur"@,
        MonsterType::Dragon => "dragon"@,
        MonsterType::Emu => "emu"@,
        MonsterType::FlyTrap => "venus fly-trap"@,
        MonsterType::Griffin => "griffin"@,
        MonsterType::Hobgoblin => "hobgoblin"@,
        MonsterType::IceMonster => "ice monster"@,
        MonsterType::Jabberwock => "jabberwock"@,
        MonsterType::Kestrel => "kestrel"@,
        MonsterType::Leprechaun => "leprechaun"@,
        MonsterType::Medusa => "medusa"@,
        MonsterType::Nymph => "nymph"@,
        MonsterType::Orc => "orc"@,
        MonsterType::Phantom => "phantom"@,
        MonsterType::Quagga => "quagga"@,
        MonsterType::Rattlesnake => "rattlesnake"@,
        MonsterType::Snake => "snake"@,
        MonsterType::Troll => "troll"@,
        MonsterType::Unicorn => "black unicorn"@,
        MonsterType::Vampire => "vampire"@,
        MonsterType::Wraith => "wraith"@,
        MonsterType::Xeroc => "xeroc"@,
        MonsterType::Yeti => "yeti"@,
        MonsterType::Zombie => "zombie"@,
    }
}

/// Position of the type in the alphabetical list.
pub open spec fn spec_type_index(t: MonsterType) -> usize {
    match t {
        MonsterType::Aquator => 0,
        MonsterType::Bat => 1,
        MonsterType::Centaur => 2,
        MonsterType::Dragon => 3,
        MonsterType::Emu => 4,
        MonsterType::FlyTrap => 5,
        MonsterType::Griffin => 6,
        MonsterType::Hobgoblin => 7,
        MonsterType::IceMonster => 8,
        MonsterType::Jabberwock => 9,
        MonsterType::Kestrel => 10,
        MonsterType::Leprechaun => 11,
        MonsterType::Medusa => 12,
        MonsterType::Nymph => 13,
        MonsterType::Orc => 14,
        MonsterType::Phantom => 15,
        MonsterType::Quagga => 16,
        MonsterType::Rattlesnake => 17,
        MonsterType::Snake => 18,
        MonsterType::Troll => 19,
        MonsterType::Unicorn => 20,
        MonsterType::Vampire => 21,
        MonsterType::Wraith => 22,
        MonsterType::Xeroc => 23,
        MonsterType::Yeti => 24,
        MonsterType::Zombie => 25,
    }
}

impl MonsterType {
    /// The type at position `index` of the alphabetical list.
    pub fn from_index(index: usize) -> (r: Self)
        requires
            index < 26,
        ensures
            spec_type_index(r) == index,
    {
        match index {
            0 => MonsterType::Aquator,
            1 => MonsterType::Bat,
            2 => MonsterType::Centaur,
            3 => MonsterType::Dragon,
            4 => MonsterType::Emu,
            5 => MonsterType::FlyTrap,
            6 => MonsterType::Griffin,
            7 => MonsterType::Hobgoblin,
            8 => MonsterType::IceMonster,
            9 => MonsterType::Jabberwock,
            10 => MonsterType::Kestrel,
            11 => MonsterType::Leprechaun,
            12 => MonsterType::Medusa,
            13 => MonsterType::Nymph,
            14 => MonsterType::Orc,
            15 => MonsterType::Phantom,
            16 => MonsterType::Quagga,
            17 => MonsterType::Rattlesnake,
            18 => MonsterType::Snake,
            19 => MonsterType::Troll,
            20 => MonsterType::Unicorn,
            21 => MonsterType::Vampire,
            22 => MonsterType::Wraith,
            23 => MonsterType::Xeroc,
            24 => MonsterType::Yeti,
            _ => MonsterType::Zombie,
        }
    }

    /// The name of the type.
    pub fn name(&self) -> (r: &'static str)
        ensures
            r@ == spec_type_name(*self),
    {
        match self {
            MonsterType::Aquator => {
                proof { reveal_strlit("aquator"); }
                "aquator"
            },
            MonsterType::Bat => {
                proof { reveal_strlit("bat"); }
                "bat"
            },
            MonsterType::Centaur => {
                proof { reveal_strlit("centaur"); }
                "centaur"
            },
            MonsterType::Dragon => {
                proof { reveal_strlit("dragon"); }
                "dragon"
            },
            MonsterType::Emu => {
                proof { reveal_strlit("emu"); }
                "emu"
            },
            MonsterType::FlyTrap => {
                proof { reveal_strlit("venus fly-trap"); }
                "venus fly-trap"
            },
            MonsterType::Griffin => {
                proof { reveal_strlit("griffin"); }
                "griffin"
            },
            MonsterType::Hobgoblin => {
                proof { reveal_strlit("hobgoblin"); }
                "hobgoblin"
            },
            MonsterType::IceMonster => {
                proof { reveal_strlit("ice monster"); }
                "ice monster"
            },
            MonsterType::Jabberwock => {
                proof { reveal_strlit("jabberwock"); }
                "jabberwock"
            },
            MonsterType::Kestrel => {
                proof { reveal_strlit("kestrel"); }
                "kestrel"
            },
            MonsterType::Leprechaun => {
                proof { reveal_strlit("leprechaun"); }
                "leprechaun"
            },
            MonsterType::Medusa => {
                proof { reveal_strlit("medusa"); }
                "medusa"
            },
            MonsterType::Nymph => {
                proof { reveal_strlit("nymph"); }
                "nymph"
            },
            MonsterType::Orc => {
                proof { reveal_strlit("orc"); }
                "orc"
            },
            MonsterType::Phantom => {
                proof { reveal_strlit("phantom"); }
                "phantom"
            },
            MonsterType::Quagga => {
                proof { reveal_strlit("quagga"); }
                "quagga"
            },
            MonsterType::Rattlesnake => {
                proof { reveal_strlit("rattlesnake"); }
                "rattlesnake"
            },
            MonsterType::Snake => {
                proof { reveal_strlit("snake"); }
                "snake"
            },
            MonsterType::Troll => {
                proof { reveal_strlit("troll"); }
                "troll"
            },
            MonsterType::Unicorn => {
                proof { reveal_strlit("black unicorn"); }
                "black unicorn"
            },
            MonsterType::Vampire => {
                proof { reveal_strlit("vampire"); }
                "vampire"
            },
            MonsterType::Wraith => {
                proof { reveal_strlit("wraith"); }
                "wraith"
            },
            MonsterType::Xeroc => {
                proof { reveal_strlit("xeroc"); }
                "xeroc"
            },
            MonsterType::Yeti => {
                proof { reveal_strlit("yeti"); }
                "yeti"
            },
            MonsterType::Zombie => {
                proof { reveal_strlit("zombie"); }
                "zombie"
            },
        }
    }
}

} // verus!
