//! How the rogue's wounds heal as turns go by.
use vstd::prelude::*;

verus! {

/// What healing remembers from turn to turn.
#[derive(Debug, Copy, Clone, Eq, PartialEq, Structural)]
pub struct Healer {
    /// The experience level the pace of healing was set for; none at first.
    pub heal_level: isize,
    /// Turns between two heals at that level.
    pub time_between_heals: isize,
    /// Turns since the last heal, or since the rogue was last at full health.
    pub time_since_last_heal_or_damage: isize,
    /// Every other heal gives one point more.
    pub double_healing_toggle: bool,
}

/// Turns between two heals at experience level `level`: twenty at the
/// first, fewer as the rogue grows, two from the twelfth on.
pub open spec fn spec_time_between_heals(level: int) -> int {
    if level == 1 {
        20
    } else if level == 2 {
        18
    } else if level == 3 {
        17
    } else if level == 4 {
        14
    } else if level == 5 {
        13
    } else if level == 6 {
        10
    } else if level == 7 {
        9
    } else if level == 8 {
        8
    } else if level == 9 {
        7
    } else if level == 10 {
        4
    } else if level == 11 {
        3
    } else {
        2
    }
}

/// Turns between two heals at experience level `level`.
fn time_between_heals(level: isize) -> (r: isize)
    ensures
        r == spec_time_between_heals(level as int),
{
    if level == 1 {
        20
    } else if level == 2 {
        18
    } else if level == 3 {
        17
    } else if level == 4 {
        14
    } else if level == 5 {
        13
    } else if level == 6 {
        10
    } else if level == 7 {
        9
    } else if level == 8 {
        8
    } else if level == 9 {
        7
    } else if level == 10 {
        4
    } else if level == 11 {
        3
    } else {
        2
    }
}

impl Healer {
    /// Healing that has not yet set its pace.
    pub fn new() -> (r: Self)
        ensures
            r == (Healer {
                heal_level: -1isize,
                time_between_heals: 0,
                time_since_last_heal_or_damage: 0,
                double_healing_toggle: false,
            }),
    {
        Healer { heal_level: -1, time_between_heals: 0, time_since_last_heal_or_damage: 0, double_healing_toggle: false }
    }

    /// One turn of healing.  At full health the count of turns starts
    /// over.  Otherwise the pace follows the rogue's experience level, and
    /// once enough turns have passed the rogue gains one hit point, one more
    /// every other time, and the bonus of its rings of regeneration, up to
    /// its most hit points.  Returns whether the hit points changed and must
    /// be shown again.
    pub fn heal(&mut self, hp_current: &mut isize, hp_max: isize, exp_level: isize, regeneration: isize) -> (healed: bool)
        requires
            old(self).time_since_last_heal_or_damage < isize::MAX,
            isize::MIN <= *old(hp_current) + 2 + regeneration <= isize::MAX,
            isize::MIN <= *old(hp_current) + 1 + regeneration,
            *old(hp_current) + 2 <= isize::MAX,
        ensures
            ({
                let before = *old(self);
                if *old(hp_current) == hp_max {
                    &&& *final(self) == Healer { time_since_last_heal_or_damage: 0, ..before }
                    &&& *final(hp_current) == *old(hp_current)
                    &&& !healed
                } else {
                    let between = if exp_level != before.heal_level {
                        spec_time_between_heals(exp_level as int)
                    } else {
                        before.time_between_heals as int
                    };
                    let since = before.time_since_last_heal_or_damage + 1;
                    &&& final(self).heal_level == exp_level
                    &&& final(self).time_between_heals == between
                    &&& if since >= between {
                        let toggle = !before.double_healing_toggle;
                        let raised = *old(hp_current) + 1 + (if toggle { 1int } else { 0int }) + regeneration;
                        &&& final(self).time_since_last_heal_or_damage == 0
                        &&& final(self).double_healing_toggle == toggle
                        &&& *final(hp_current) == (if raised <= hp_max { raised } else { hp_max as int })
                        &&& healed
                    } else {
                        &&& final(self).time_since_last_heal_or_damage == since
                        &&& final(self).double_healing_toggle == before.double_healing_toggle
                        &&& *final(hp_current) == *old(hp_current)
                        &&& !healed
                    }
                }
            }),
    {
        if *hp_current == hp_max {
            self.time_since_last_heal_or_damage = 0;
            return false;
        }
        if exp_level != self.heal_level {
            self.heal_level = exp_level;
            self.time_between_heals = time_between_heals(exp_level);
        }
        self.time_since_last_heal_or_damage = self.time_since_last_heal_or_damage + 1;
        if self.time_since_last_heal_or_damage >= self.time_between_heals {
            self.time_since_last_heal_or_damage = 0;
            self.double_healing_toggle = !self.double_healing_toggle;
            let mut healing = *hp_current;
            healing = healing + 1;
            if self.double_healing_toggle {
                healing = healing + 1;
            }
            healing = healing + regeneration;
            *hp_current = if healing <= hp_max { healing } else { hp_max };
            true
        } else {
            false
        }
    }
}

} // verus!
