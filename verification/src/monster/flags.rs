//! The status flags of a monster, and the flags that each kind starts with.
use vstd::prelude::*;

verus! {

/// What a monster is doing and what it can do.
#[derive(Debug, Copy, Clone, Eq, PartialEq, Structural)]
pub struct MonsterFlags {
    pub hasted: bool,
    pub slowed: bool,
    pub invisible: bool,
    pub asleep: bool,
    pub wakens: bool,
    pub wanders: bool,
    pub flies: bool,
    pub flits: bool,
    pub can_flit: bool,
    pub confused: bool,
    pub rusts: bool,
    pub holds: bool,
    pub freezes: bool,
    pub steals_gold: bool,
    pub steals_item: bool,
    pub stings: bool,
    pub drains_life: bool,
    pub drops_level: bool,
    pub seeks_gold: bool,
    pub freezing_rogue: bool,
    pub rust_vanished: bool,
    pub confuses: bool,
    pub imitates: bool,
    pub flames: bool,
    pub stationary: bool,
    pub napping: bool,
    pub already_moved: bool,
}

/// Flags with nothing set.
pub open spec fn spec_empty_flags() -> MonsterFlags {
    MonsterFlags {
        hasted: false,
        slowed: false,
        invisible: false,
        asleep: false,
        wakens: false,
        wanders: false,
        flies: false,
        flits: false,
        can_flit: false,
        confused: false,
        rusts: false,
        holds: false,
        freezes: false,
        steals_gold: false,
        steals_item: false,
        stings: false,
        drains_life: false,
        drops_level: false,
        seeks_gold: false,
        freezing_rogue: false,
        rust_vanished: false,
        confuses: false,
        imitates: false,
        flames: false,
        stationary: false,
        napping: false,
        already_moved: false,
    }
}

/// Whether any of the flags of a special hit is set.
pub open spec fn spec_special_hit(f: MonsterFlags) -> bool {
    f.rusts || f.holds || f.freezes || f.steals_gold || f.steals_item || f.stings || f.drains_life
        || f.drops_level
}

/// The flags with every flag of a special hit set to `value`.
pub open spec fn spec_with_special_hit(f: MonsterFlags, value: bool) -> MonsterFlags {
    MonsterFlags {
        rusts: value,
        holds: value,
        freezes: value,
        steals_gold: value,
        steals_item: value,
        stings: value,
        drains_life: value,
        drops_level: value,
        ..f
    }
}

/// The flags after a wake-up: a napping monster stays as it was; any other
/// is no longer asleep, imitating or waiting to waken.
pub open spec fn spec_woken(f: MonsterFlags) -> MonsterFlags {
    if f.napping {
        f
    } else {
        MonsterFlags { asleep: false, imitates: false, wakens: false, ..f }
    }
}

/// The flags with `confuses` cleared.
#[verifier::opaque]
pub open spec fn spec_without_confuses(f: MonsterFlags) -> MonsterFlags {
    MonsterFlags { confuses: false, ..f }
}

/// The flags of a monster ready to move again: `already_moved` cleared.
#[verifier::opaque]
pub open spec fn spec_ready_again(f: MonsterFlags) -> MonsterFlags {
    MonsterFlags { already_moved: false, ..f }
}

/// The flags of a monster that no longer goes for gold.
#[verifier::opaque]
pub open spec fn spec_without_gold_seeking(f: MonsterFlags) -> MonsterFlags {
    MonsterFlags { seeks_gold: false, ..f }
}

/// The flags of a monster that no longer imitates an object.
#[verifier::opaque]
pub open spec fn spec_not_imitating(f: MonsterFlags) -> MonsterFlags {
    MonsterFlags { imitates: false, ..f }
}

/// The flags of a monster found out: one that imitated an object stops and
/// is set to waken; any other stays as it was.
#[verifier::opaque]
pub open spec fn spec_unmasked(f: MonsterFlags) -> MonsterFlags {
    if f.imitates {
        MonsterFlags { imitates: false, wakens: true, ..f }
    } else {
        f
    }
}

/// The flags of a monster held fast: asleep, and not to waken.
#[verifier::opaque]
pub open spec fn spec_held(f: MonsterFlags) -> MonsterFlags {
    MonsterFlags { asleep: true, wakens: false, ..f }
}

/// The flags of a monster that has taken its move this turn.
#[verifier::opaque]
pub open spec fn spec_moved(f: MonsterFlags) -> MonsterFlags {
    MonsterFlags { already_moved: true, ..f }
}

/// The flags of a monster that wakes to the rogue unless it imitates an
/// object.
#[verifier::opaque]
pub open spec fn spec_wakens_unless_imitating(f: MonsterFlags) -> MonsterFlags {
    MonsterFlags { wakens: f.wakens || !f.imitates, ..f }
}

impl MonsterFlags {
    /// Makes the monster wake to the rogue, unless it imitates an object.
    pub fn wakens_unless_imitating(&mut self)
        ensures
            *final(self) == spec_wakens_unless_imitating(*old(self)),
    {
        reveal(spec_wakens_unless_imitating);
        self.wakens = self.wakens || !self.imitates;
    }

    /// Stops the monster imitating an object.
    pub fn stop_imitating(&mut self)
        ensures
            *final(self) == spec_not_imitating(*old(self)),
    {
        reveal(spec_not_imitating);
        self.imitates = false;
    }

    /// Unmasks an imitating monster, which will then waken.
    pub fn unmask(&mut self)
        ensures
            *final(self) == spec_unmasked(*old(self)),
    {
        reveal(spec_unmasked);
        if self.imitates {
            self.imitates = false;
            self.wakens = true;
        }
    }

    /// Holds the monster fast: it falls asleep and will not waken.
    pub fn hold(&mut self)
        ensures
            *final(self) == spec_held(*old(self)),
    {
        reveal(spec_held);
        self.asleep = true;
        self.wakens = false;
    }

    /// Marks the monster's move of this turn as taken.
    pub fn mark_moved(&mut self)
        ensures
            *final(self) == spec_moved(*old(self)),
    {
        reveal(spec_moved);
        self.already_moved = true;
    }

    /// Stops the monster going for gold.
    pub fn stop_seeking_gold(&mut self)
        ensures
            *final(self) == spec_without_gold_seeking(*old(self)),
    {
        reveal(spec_without_gold_seeking);
        self.seeks_gold = false;
    }

    /// Marks the monster ready to move again.
    pub fn ready_again(&mut self)
        ensures
            *final(self) == spec_ready_again(*old(self)),
    {
        reveal(spec_ready_again);
        self.already_moved = false;
    }

    /// The flags with `confuses` cleared.
    pub fn without_confuses(&self) -> (r: Self)
        ensures
            r == spec_without_confuses(*self),
    {
        reveal(spec_without_confuses);
        MonsterFlags { confuses: false, ..*self }
    }

    /// Wakes the monster unless it is napping.
    pub fn wake_up(&mut self)
        ensures
            *final(self) == spec_woken(*old(self)),
    {
        if !self.napping {
            self.asleep = false;
            self.imitates = false;
            self.wakens = false;
        }
    }

    /// Whether the monster's hit does something besides damage.
    pub fn special_hit(&self) -> (r: bool)
        ensures
            r == spec_special_hit(*self),
    {
        self.rusts || self.holds || self.freezes || self.steals_gold || self.steals_item
            || self.stings || self.drains_life || self.drops_level
    }

    /// Sets every flag of a special hit to `value`.
    pub fn set_special_hit(&mut self, value: bool)
        ensures
            *final(self) == spec_with_special_hit(*old(self), value),
    {
        self.rusts = value;
        self.holds = value;
        self.freezes = value;
        self.steals_gold = value;
        self.steals_item = value;
        self.stings = value;
        self.drains_life = value;
        self.drops_level = value;
    }

    /// Starting flags of the aquator.
    pub fn a() -> (r: Self)
        ensures
            r == (MonsterFlags { asleep: true, wakens: true, wanders: true, rusts: true, ..spec_empty_flags() }),
    {
        MonsterFlags { asleep: true, wakens: true, wanders: true, rusts: true, ..Self::empty() }
    }

    /// Starting flags of the bat.
    pub fn b() -> (r: Self)
        ensures
            r == (MonsterFlags { asleep: true, wanders: true, flits: true, ..spec_empty_flags() }),
    {
        MonsterFlags { asleep: true, wanders: true, flits: true, ..Self::empty() }
    }

    /// Starting flags of the centaur.
    pub fn c() -> (r: Self)
        ensures
            r == (MonsterFlags { asleep: true, wanders: true, ..spec_empty_flags() }),
    {
        MonsterFlags { asleep: true, wanders: true, ..Self::empty() }
    }

    /// Starting flags of the dragon.
    pub fn d() -> (r: Self)
        ensures
            r == (MonsterFlags { asleep: true, wakens: true, flames: true, ..spec_empty_flags() }),
    {
        MonsterFlags { asleep: true, wakens: true, flames: true, ..Self::empty() }
    }

    /// Starting flags of the emu.
    pub fn e() -> (r: Self)
        ensures
            r == (MonsterFlags { asleep: true, wakens: true, ..spec_empty_flags() }),
    {
        MonsterFlags { asleep: true, wakens: true, ..Self::empty() }
    }

    /// Starting flags of the venus fly-trap.
    pub fn f() -> (r: Self)
        ensures
            r == (MonsterFlags { holds: true, stationary: true, ..spec_empty_flags() }),
    {
        MonsterFlags { holds: true, stationary: true, ..Self::empty() }
    }

    /// Starting flags of the griffin.
    pub fn g() -> (r: Self)
        ensures
            r == (MonsterFlags { asleep: true, wakens: true, wanders: true, flies: true, ..spec_empty_flags() }),
    {
        MonsterFlags { asleep: true, wakens: true, wanders: true, flies: true, ..Self::empty() }
    }

    /// Starting flags of the hobgoblin.
    pub fn h() -> (r: Self)
        ensures
            r == (MonsterFlags { asleep: true, wakens: true, wanders: true, ..spec_empty_flags() }),
    {
        MonsterFlags { asleep: true, wakens: true, wanders: true, ..Self::empty() }
    }

    /// Starting flags of the ice monster.
    pub fn i() -> (r: Self)
        ensures
            r == (MonsterFlags { asleep: true, freezes: true, ..spec_empty_flags() }),
    {
        MonsterFlags { asleep: true, freezes: true, ..Self::empty() }
    }

    /// Starting flags of the jabberwock.
    pub fn j() -> (r: Self)
        ensures
            r == (MonsterFlags { asleep: true, wanders: true, ..spec_empty_flags() }),
    {
        MonsterFlags { asleep: true, wanders: true, ..Self::empty() }
    }

    /// Starting flags of the kestrel.
    pub fn k() -> (r: Self)
        ensures
            r == (MonsterFlags { asleep: true, wakens: true, wanders: true, flies: true, ..spec_empty_flags() }),
    {
        MonsterFlags { asleep: true, wakens: true, wanders: true, flies: true, ..Self::empty() }
    }

    /// Starting flags of the leprechaun.
    pub fn l() -> (r: Self)
        ensures
            r == (MonsterFlags { asleep: true, steals_gold: true, ..spec_empty_flags() }),
    {
        MonsterFlags { asleep: true, steals_gold: true, ..Self::empty() }
    }

    /// Starting flags of the medusa.
    pub fn m() -> (r: Self)
        ensures
            r == (MonsterFlags { asleep: true, wakens: true, wanders: true, confuses: true, ..spec_empty_flags() }),
    {
        MonsterFlags { asleep: true, wakens: true, wanders: true, confuses: true, ..Self::empty() }
    }

    /// Starting flags of the nymph.
    pub fn n() -> (r: Self)
        ensures
            r == (MonsterFlags { asleep: true, steals_item: true, ..spec_empty_flags() }),
    {
        MonsterFlags { asleep: true, steals_item: true, ..Self::empty() }
    }

    /// Starting flags of the orc.
    pub fn o() -> (r: Self)
        ensures
            r == (MonsterFlags { asleep: true, wakens: true, wanders: true, seeks_gold: true, ..spec_empty_flags() }),
    {
        MonsterFlags { asleep: true, wakens: true, wanders: true, seeks_gold: true, ..Self::empty() }
    }

    /// Starting flags of the phantom.
    pub fn p() -> (r: Self)
        ensures
            r == (MonsterFlags { asleep: true, invisible: true, wanders: true, flits: true, ..spec_empty_flags() }),
    {
        MonsterFlags { asleep: true, invisible: true, wanders: true, flits: true, ..Self::empty() }
    }

    /// Starting flags of the quagga.
    pub fn q() -> (r: Self)
        ensures
            r == (MonsterFlags { asleep: true, wakens: true, wanders: true, ..spec_empty_flags() }),
    {
        MonsterFlags { asleep: true, wakens: true, wanders: true, ..Self::empty() }
    }

    /// Starting flags of the rattlesnake.
    pub fn r() -> (r: Self)
        ensures
            r == (MonsterFlags { asleep: true, wakens: true, wanders: true, stings: true, ..spec_empty_flags() }),
    {
        MonsterFlags { asleep: true, wakens: true, wanders: true, stings: true, ..Self::empty() }
    }

    /// Starting flags of the snake.
    pub fn s() -> (r: Self)
        ensures
            r == (MonsterFlags { asleep: true, wakens: true, wanders: true, ..spec_empty_flags() }),
    {
        MonsterFlags { asleep: true, wakens: true, wanders: true, ..Self::empty() }
    }

    /// Starting flags of the troll.
    pub fn t() -> (r: Self)
        ensures
            r == (MonsterFlags { asleep: true, wakens: true, wanders: true, ..spec_empty_flags() }),
    {
        MonsterFlags { asleep: true, wakens: true, wanders: true, ..Self::empty() }
    }

    /// Starting flags of the black unicorn.
    pub fn u() -> (r: Self)
        ensures
            r == (MonsterFlags { asleep: true, wakens: true, wanders: true, ..spec_empty_flags() }),
    {
        MonsterFlags { asleep: true, wakens: true, wanders: true, ..Self::empty() }
    }

    /// Starting flags of the vampire.
    pub fn v() -> (r: Self)
        ensures
            r == (MonsterFlags { asleep: true, wakens: true, wanders: true, drains_life: true, ..spec_empty_flags() }),
    {
        MonsterFlags { asleep: true, wakens: true, wanders: true, drains_life: true, ..Self::empty() }
    }

    /// Starting flags of the wraith.
    pub fn w() -> (r: Self)
        ensures
            r == (MonsterFlags { asleep: true, wanders: true, drops_level: true, ..spec_empty_flags() }),
    {
        MonsterFlags { asleep: true, wanders: true, drops_level: true, ..Self::empty() }
    }

    /// Starting flags of the xeroc.
    pub fn x() -> (r: Self)
        ensures
            r == (MonsterFlags { asleep: true, imitates: true, ..spec_empty_flags() }),
    {
        MonsterFlags { asleep: true, imitates: true, ..Self::empty() }
    }

    /// Starting flags of the yeti.
    pub fn y() -> (r: Self)
        ensures
            r == (MonsterFlags { asleep: true, wanders: true, ..spec_empty_flags() }),
    {
        MonsterFlags { asleep: true, wanders: true, ..Self::empty() }
    }

    /// Starting flags of the zombie.
    pub fn z() -> (r: Self)
        ensures
            r == (MonsterFlags { asleep: true, wakens: true, wanders: true, ..spec_empty_flags() }),
    {
        MonsterFlags { asleep: true, wakens: true, wanders: true, ..Self::empty() }
    }

    /// Flags with nothing set.
    pub fn empty() -> (r: Self)
        ensures
            r == spec_empty_flags(),
    {
        MonsterFlags {
            hasted: false,
            slowed: false,
            invisible: false,
            asleep: false,
            wakens: false,
            wanders: false,
            flies: false,
            flits: false,
            can_flit: false,
            confused: false,
            rusts: false,
            holds: false,
            freezes: false,
            steals_gold: false,
            steals_item: false,
            stings: false,
            drains_life: false,
            drops_level: false,
            seeks_gold: false,
            freezing_rogue: false,
            rust_vanished: false,
            confuses: false,
            imitates: false,
            flames: false,
            stationary: false,
            napping: false,
            already_moved: false,
        }
    }
}

impl Default for MonsterFlags {
    fn default() -> (r: Self)
        ensures
            r == spec_empty_flags(),
    {
        Self::empty()
    }
}

/// Setting the flags of a special hit to a value makes `special_hit` report
/// that value.
pub proof fn law_special_hit_after_set(f: MonsterFlags, value: bool)
    ensures
        spec_special_hit(spec_with_special_hit(f, value)) == value,
{
}

/// Waking up twice is the same as waking up once.
pub proof fn law_wake_up_idempotent(f: MonsterFlags)
    ensures
        spec_woken(spec_woken(f)) == spec_woken(f),
{
}

} // verus!
