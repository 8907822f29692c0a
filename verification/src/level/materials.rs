//! What a cell of the dungeon is made of, and whether the rogue has found it.
use vstd::prelude::*;

use crate::room::DoorDirection;

verus! {

/// Character of a plain floor cell.
pub const FLOOR_CHAR: char = '.';
/// Character of a floor cell with a trap that has been found.
pub const TRAP_CHAR: char = '^';
/// Character of a floor cell with a hidden trap.
pub const FLOOR_WITH_HIDDEN_TRAP_CHAR: char = ',';
/// Character of the stairs.
pub const STAIRS_CHAR: char = '%';

/// Whether a feature has been found.
#[derive(Debug, Copy, Clone, Eq, PartialEq, Structural)]
pub enum Visibility {
    Visible,
    Hidden,
}

impl Visibility {
    /// Whether the feature is still hidden.
    pub fn is_hidden(&self) -> (r: bool)
        ensures
            r == (*self is Hidden),
    {
        *self == Self::Hidden
    }
}

/// The material of a cell.
#[derive(Debug, Copy, Clone, Eq, PartialEq, Structural)]
pub enum CellMaterial {
    Nothing,
    HorizontalWall,
    VerticalWall,
    Door(DoorDirection, Visibility),
    Floor(FloorFixture),
    Tunnel(Visibility, TunnelFixture),
}

/// Whether the material holds stairs.
pub open spec fn spec_material_is_stairs(m: CellMaterial) -> bool {
    match m {
        CellMaterial::Floor(fix) => fix is Stairs,
        CellMaterial::Tunnel(_, fix) => fix is Stairs,
        _ => false,
    }
}

/// Whether the material is a floor with a trap, found or not.
pub open spec fn spec_material_is_trap(m: CellMaterial) -> bool {
    match m {
        CellMaterial::Floor(fix) => fix is Trap,
        _ => false,
    }
}

/// The material with every hidden feature found.
pub open spec fn spec_to_visible(m: CellMaterial) -> CellMaterial {
    match m {
        CellMaterial::Door(dir, _) => CellMaterial::Door(dir, Visibility::Visible),
        CellMaterial::Floor(fix) => CellMaterial::Floor(spec_fixture_to_visible(fix)),
        CellMaterial::Tunnel(_, fix) => CellMaterial::Tunnel(Visibility::Visible, fix),
        _ => m,
    }
}

/// The material with every feature that can hide hidden.
pub open spec fn spec_to_hidden(m: CellMaterial) -> CellMaterial {
    match m {
        CellMaterial::Door(dir, _) => CellMaterial::Door(dir, Visibility::Hidden),
        CellMaterial::Floor(fix) => CellMaterial::Floor(spec_fixture_to_hidden(fix)),
        CellMaterial::Tunnel(_, fix) => CellMaterial::Tunnel(Visibility::Hidden, fix),
        _ => m,
    }
}

/// The material with stairs put on a floor or a passage.
pub open spec fn spec_with_stairs(m: CellMaterial) -> CellMaterial {
    match m {
        CellMaterial::Floor(_) => CellMaterial::Floor(FloorFixture::Stairs),
        CellMaterial::Tunnel(viz, _) => CellMaterial::Tunnel(viz, TunnelFixture::Stairs),
        _ => m,
    }
}

/// The material with a hidden trap put on a floor.
pub open spec fn spec_with_hidden_trap(m: CellMaterial) -> CellMaterial {
    match m {
        CellMaterial::Floor(_) => CellMaterial::Floor(FloorFixture::Trap(Visibility::Hidden)),
        _ => m,
    }
}

/// The character that shows the material on the screen.
pub open spec fn spec_material_char(m: CellMaterial) -> char {
    match m {
        CellMaterial::Nothing => ' ',
        CellMaterial::HorizontalWall => '-',
        CellMaterial::VerticalWall => '|',
        CellMaterial::Door(dir, vis) => match vis {
            Visibility::Visible => '+',
            Visibility::Hidden => if dir is Up || dir is Down { '-' } else { '|' },
        },
        CellMaterial::Floor(fix) => match fix {
            FloorFixture::Nothing => FLOOR_CHAR,
            FloorFixture::Trap(Visibility::Visible) => TRAP_CHAR,
            FloorFixture::Trap(Visibility::Hidden) => FLOOR_WITH_HIDDEN_TRAP_CHAR,
            FloorFixture::Stairs => STAIRS_CHAR,
        },
        CellMaterial::Tunnel(viz, fix) => match viz {
            Visibility::Visible => if fix is Stairs { '%' } else { '#' },
            Visibility::Hidden => ' ',
        },
    }
}

impl CellMaterial {
    /// Whether the material is a wall of either sort.
    pub fn is_any_wall(&self) -> (r: bool)
        ensures
            r == (*self is HorizontalWall || *self is VerticalWall),
    {
        match self {
            Self::HorizontalWall => true,
            Self::VerticalWall => true,
            _ => false,
        }
    }

    /// Whether the material is a top or bottom wall.
    pub fn is_horizontal_wall(&self) -> (r: bool)
        ensures
            r == (*self is HorizontalWall),
    {
        match self {
            Self::HorizontalWall => true,
            _ => false,
        }
    }

    /// Whether the material is a side wall.
    pub fn is_vertical_wall(&self) -> (r: bool)
        ensures
            r == (*self is VerticalWall),
    {
        match self {
            Self::VerticalWall => true,
            _ => false,
        }
    }

    /// Whether the material is floor, whatever stands on it.
    pub fn is_any_floor(&self) -> (r: bool)
        ensures
            r == (*self is Floor),
    {
        match self {
            Self::Floor(_) => true,
            _ => false,
        }
    }

    /// Whether the material is a door, found or not.
    pub fn is_any_door(&self) -> (r: bool)
        ensures
            r == (*self is Door),
    {
        match self {
            Self::Door(_, _) => true,
            _ => false,
        }
    }

    /// Whether the material is a floor with a trap, found or not.
    pub fn is_any_trap(&self) -> (r: bool)
        ensures
            r == spec_material_is_trap(*self),
    {
        match self {
            CellMaterial::Floor(fix) => fix.is_any_trap(),
            _ => false,
        }
    }

    /// Whether the material is a floor with a trap that has been found.
    pub fn is_visible_trap(&self) -> (r: bool)
        ensures
            r == (*self == CellMaterial::Floor(FloorFixture::Trap(Visibility::Visible))),
    {
        CellMaterial::Floor(FloorFixture::Trap(Visibility::Visible)) == *self
    }

    /// The material with a hidden trap where it is floor; other materials
    /// are returned unchanged.
    pub fn with_hidden_trap(&self) -> (r: Self)
        ensures
            r == spec_with_hidden_trap(*self),
    {
        match self {
            CellMaterial::Floor(_) => CellMaterial::Floor(FloorFixture::Trap(Visibility::Hidden)),
            _ => *self,
        }
    }

    /// Whether the material holds stairs.
    pub fn is_stairs(&self) -> (r: bool)
        ensures
            r == spec_material_is_stairs(*self),
    {
        match self {
            CellMaterial::Floor(fix) => fix.is_stairs(),
            CellMaterial::Tunnel(_, fix) => fix.is_stairs(),
            _ => false,
        }
    }

    /// The material with stairs where it is floor or passage; other
    /// materials are returned unchanged.
    pub fn with_stairs(&self) -> (r: Self)
        ensures
            r == spec_with_stairs(*self),
    {
        match self {
            CellMaterial::Floor(_) => CellMaterial::Floor(FloorFixture::Stairs),
            CellMaterial::Tunnel(viz, _) => CellMaterial::Tunnel(*viz, TunnelFixture::Stairs),
            _ => *self,
        }
    }

    /// Whether the material is passage.
    pub fn is_any_tunnel(&self) -> (r: bool)
        ensures
            r == (*self is Tunnel),
    {
        match self {
            Self::Tunnel(_, _) => true,
            _ => false,
        }
    }

    /// Whether the material is anything but passage.
    pub fn is_not_tunnel(&self) -> (r: bool)
        ensures
            r == !(*self is Tunnel),
    {
        !self.is_any_tunnel()
    }

    /// The material with its door, trap or passage found.
    pub fn to_visible(&self) -> (r: Self)
        ensures
            r == spec_to_visible(*self),
    {
        match self {
            CellMaterial::Nothing => CellMaterial::Nothing,
            CellMaterial::HorizontalWall => CellMaterial::HorizontalWall,
            CellMaterial::VerticalWall => CellMaterial::VerticalWall,
            CellMaterial::Door(dir, _) => CellMaterial::Door(*dir, Visibility::Visible),
            CellMaterial::Floor(fix) => CellMaterial::Floor(fix.to_visible()),
            CellMaterial::Tunnel(_, fix) => CellMaterial::Tunnel(Visibility::Visible, *fix),
        }
    }

    /// The material with its door, trap or passage hidden.
    pub fn to_hidden(&self) -> (r: Self)
        ensures
            r == spec_to_hidden(*self),
    {
        match self {
            CellMaterial::Nothing => CellMaterial::Nothing,
            CellMaterial::HorizontalWall => CellMaterial::HorizontalWall,
            CellMaterial::VerticalWall => CellMaterial::VerticalWall,
            CellMaterial::Door(dir, _) => CellMaterial::Door(*dir, Visibility::Hidden),
            CellMaterial::Floor(fix) => CellMaterial::Floor(fix.to_hidden()),
            CellMaterial::Tunnel(_, fix) => CellMaterial::Tunnel(Visibility::Hidden, *fix),
        }
    }

    /// The character that shows the material on the screen.
    pub fn to_char(&self) -> (r: char)
        ensures
            r == spec_material_char(*self),
    {
        match self {
            CellMaterial::Nothing => ' ',
            CellMaterial::HorizontalWall => '-',
            CellMaterial::VerticalWall => '|',
            CellMaterial::Door(dir, vis) => {
                match vis {
                    Visibility::Visible => '+',
                    Visibility::Hidden => match dir.is_up_or_down() {
                        true => '-',
                        false => '|',
                    },
                }
            },
            CellMaterial::Floor(fix) => {
                match fix {
                    FloorFixture::Nothing => FLOOR_CHAR,
                    FloorFixture::Trap(viz) => match viz {
                        Visibility::Visible => TRAP_CHAR,
                        Visibility::Hidden => FLOOR_WITH_HIDDEN_TRAP_CHAR,
                    },
                    FloorFixture::Stairs => STAIRS_CHAR,
                }
            },
            CellMaterial::Tunnel(viz, fix) => {
                match viz {
                    Visibility::Visible => match fix {
                        TunnelFixture::Stairs => '%',
                        TunnelFixture::Nothing => '#',
                    },
                    Visibility::Hidden => ' ',
                }
            },
        }
    }
}

impl Default for CellMaterial {
    fn default() -> (r: Self)
        ensures
            r is Nothing,
    {
        Self::Nothing
    }
}

/// What stands in a passage.
#[derive(Debug, Copy, Clone, Eq, PartialEq, Structural)]
pub enum TunnelFixture {
    Nothing,
    Stairs,
}

impl TunnelFixture {
    /// Whether the passage holds stairs.
    pub fn is_stairs(&self) -> (r: bool)
        ensures
            r == (*self is Stairs),
    {
        *self == TunnelFixture::Stairs
    }
}

impl Default for TunnelFixture {
    fn default() -> (r: Self)
        ensures
            r is Nothing,
    {
        TunnelFixture::Nothing
    }
}

/// What stands on a floor.
#[derive(Debug, Copy, Clone, Eq, PartialEq, Structural)]
pub enum FloorFixture {
    Nothing,
    Stairs,
    Trap(Visibility),
}

/// The fixture with its trap found.
pub open spec fn spec_fixture_to_visible(f: FloorFixture) -> FloorFixture {
    match f {
        FloorFixture::Trap(_) => FloorFixture::Trap(Visibility::Visible),
        _ => f,
    }
}

/// The fixture with its trap hidden.
pub open spec fn spec_fixture_to_hidden(f: FloorFixture) -> FloorFixture {
    match f {
        FloorFixture::Trap(_) => FloorFixture::Trap(Visibility::Hidden),
        _ => f,
    }
}

impl FloorFixture {
    /// The character of the fixture, with `ground_char` for plain floor.
    pub fn as_char(&self, ground_char: char) -> (r: char)
        ensures
            r == (match *self {
                FloorFixture::Nothing => ground_char,
                FloorFixture::Stairs => '%',
                FloorFixture::Trap(Visibility::Visible) => '^',
                FloorFixture::Trap(Visibility::Hidden) => ',',
            }),
    {
        match self {
            FloorFixture::Nothing => ground_char,
            FloorFixture::Stairs => '%',
            FloorFixture::Trap(Visibility::Visible) => '^',
            FloorFixture::Trap(Visibility::Hidden) => ',',
        }
    }

    /// Whether a trap stands here, found or not.
    pub fn is_any_trap(&self) -> (r: bool)
        ensures
            r == (*self is Trap),
    {
        match self {
            FloorFixture::Nothing => false,
            FloorFixture::Stairs => false,
            FloorFixture::Trap(_) => true,
        }
    }

    /// Whether the stairs stand here.
    pub fn is_stairs(&self) -> (r: bool)
        ensures
            r == (*self is Stairs),
    {
        match self {
            FloorFixture::Nothing => false,
            FloorFixture::Stairs => true,
            FloorFixture::Trap(_) => false,
        }
    }

    /// Whether a hidden trap stands here.
    pub fn is_hidden(&self) -> (r: bool)
        ensures
            r == (*self == FloorFixture::Trap(Visibility::Hidden)),
    {
        match self {
            FloorFixture::Nothing => false,
            FloorFixture::Stairs => false,
            FloorFixture::Trap(viz) => viz.is_hidden(),
        }
    }

    /// The fixture with its trap found.
    pub fn to_visible(&self) -> (r: Self)
        ensures
            r == spec_fixture_to_visible(*self),
    {
        match self {
            FloorFixture::Nothing => FloorFixture::Nothing,
            FloorFixture::Stairs => FloorFixture::Stairs,
            FloorFixture::Trap(_) => FloorFixture::Trap(Visibility::Visible),
        }
    }

    /// The fixture with its trap hidden.
    pub fn to_hidden(&self) -> (r: Self)
        ensures
            r == spec_fixture_to_hidden(*self),
    {
        match self {
            FloorFixture::Nothing => FloorFixture::Nothing,
            FloorFixture::Stairs => FloorFixture::Stairs,
            FloorFixture::Trap(_) => FloorFixture::Trap(Visibility::Hidden),
        }
    }
}

impl Default for FloorFixture {
    fn default() -> (r: Self)
        ensures
            r is Nothing,
    {
        FloorFixture::Nothing
    }
}

/// Finding what was hidden gives what finding gives without hiding: hiding
/// loses nothing but visibility.
pub proof fn law_hide_then_find(m: CellMaterial)
    ensures
        spec_to_visible(spec_to_hidden(m)) == spec_to_visible(m),
        spec_to_hidden(spec_to_visible(m)) == spec_to_hidden(m),
{
}

/// Finding what was already found changes nothing.
pub proof fn law_find_twice(m: CellMaterial)
    ensures
        spec_to_visible(spec_to_visible(m)) == spec_to_visible(m),
{
}

/// Hiding and finding keep what a cell is made of.
pub proof fn law_visibility_keeps_kind(m: CellMaterial)
    ensures
        (spec_to_hidden(m) is Door) == (m is Door),
        (spec_to_hidden(m) is Tunnel) == (m is Tunnel),
        (spec_to_hidden(m) is Floor) == (m is Floor),
        (spec_to_visible(m) is Door) == (m is Door),
        (spec_to_visible(m) is Tunnel) == (m is Tunnel),
        (spec_to_visible(m) is Floor) == (m is Floor),
        spec_material_is_stairs(spec_to_hidden(m)) == spec_material_is_stairs(m),
        spec_material_is_trap(spec_to_hidden(m)) == spec_material_is_trap(m),
{
}

} // verus!
