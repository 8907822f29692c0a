//! One cell of the dungeon: its material, the object on it and whether a
//! monster stands there.
use vstd::prelude::*;

use crate::level::materials::{
    spec_material_is_stairs, spec_material_is_trap, spec_to_hidden, spec_to_visible,
    spec_with_hidden_trap, spec_with_stairs, CellMaterial, FloorFixture, Visibility,
};
use crate::object_what::ObjectWhat;

verus! {

/// One cell of the dungeon.
#[derive(Debug, Copy, Clone, Eq, PartialEq, Structural)]
pub struct DungeonCell {
    pub material: CellMaterial,
    pub object: ObjectWhat,
    pub monster: bool,
}

/// Whether a cell shows something that the rogue has not found yet.
pub open spec fn spec_cell_is_hidden(c: DungeonCell) -> bool {
    match c.material {
        CellMaterial::Door(_, viz) => viz is Hidden,
        CellMaterial::Floor(fix) => fix == FloorFixture::Trap(Visibility::Hidden),
        CellMaterial::Tunnel(viz, _) => viz is Hidden,
        _ => false,
    }
}

/// The empty cell: no material, no object, no monster.
pub open spec fn spec_nothing_cell() -> DungeonCell {
    DungeonCell { material: CellMaterial::Nothing, object: ObjectWhat::Nothing, monster: false }
}

impl DungeonCell {
    /// The empty cell: no material, no object, no monster.
    pub fn nothing() -> (r: Self)
        ensures
            r == spec_nothing_cell(),
    {
        DungeonCell { material: CellMaterial::Nothing, object: ObjectWhat::Nothing, monster: false }
    }

    /// Whether the cell is a wall of either sort.
    pub fn is_any_wall(&self) -> (r: bool)
        ensures
            r == (self.material is HorizontalWall || self.material is VerticalWall),
    {
        self.material.is_any_wall()
    }

    /// Whether the cell is a top or bottom wall.
    pub fn is_horizontal_wall(&self) -> (r: bool)
        ensures
            r == (self.material is HorizontalWall),
    {
        self.material.is_horizontal_wall()
    }

    /// Whether the cell is a side wall.
    pub fn is_vertical_wall(&self) -> (r: bool)
        ensures
            r == (self.material is VerticalWall),
    {
        self.material.is_vertical_wall()
    }

    /// Whether the cell holds stairs.
    pub fn is_stairs(&self) -> (r: bool)
        ensures
            r == spec_material_is_stairs(self.material),
    {
        self.material.is_stairs()
    }

    /// Puts stairs on the cell where it is floor or passage.
    pub fn add_stairs(&mut self)
        ensures
            final(self).material == spec_with_stairs(old(self).material),
            final(self).object == old(self).object,
            final(self).monster == old(self).monster,
    {
        self.material = self.material.with_stairs();
    }

    /// Whether the cell is a floor with a trap, found or not.
    pub fn is_any_trap(&self) -> (r: bool)
        ensures
            r == spec_material_is_trap(self.material),
    {
        self.material.is_any_trap()
    }

    /// Puts a hidden trap on the cell where it is floor.
    pub fn add_hidden_trap(&mut self)
        ensures
            final(self).material == spec_with_hidden_trap(old(self).material),
            final(self).object == old(self).object,
            final(self).monster == old(self).monster,
    {
        self.material = self.material.with_hidden_trap();
    }

    /// Whether the cell is floor.
    pub fn is_any_floor(&self) -> (r: bool)
        ensures
            r == (self.material is Floor),
    {
        self.material.is_any_floor()
    }

    /// Whether the cell is a door.
    pub fn is_any_door(&self) -> (r: bool)
        ensures
            r == (self.material is Door),
    {
        self.material.is_any_door()
    }

    /// Whether the cell is passage.
    pub fn is_any_tunnel(&self) -> (r: bool)
        ensures
            r == (self.material is Tunnel),
    {
        self.material.is_any_tunnel()
    }

    /// Whether the cell is anything but passage.
    pub fn is_not_tunnel(&self) -> (r: bool)
        ensures
            r == !(self.material is Tunnel),
    {
        self.material.is_not_tunnel()
    }

    /// Whether the cell holds a door, trap or passage not found yet.
    pub fn is_any_hidden(&self) -> (r: bool)
        ensures
            r == spec_cell_is_hidden(*self),
    {
        match self.material() {
            CellMaterial::Nothing | CellMaterial::HorizontalWall | CellMaterial::VerticalWall => false,
            CellMaterial::Door(_, viz) => viz.is_hidden(),
            CellMaterial::Floor(fix) => fix.is_hidden(),
            CellMaterial::Tunnel(viz, _) => viz.is_hidden(),
        }
    }

    /// Marks the cell's door, trap or passage as found.
    pub fn set_visible(&mut self)
        ensures
            final(self).material == spec_to_visible(old(self).material),
            final(self).object == old(self).object,
            final(self).monster == old(self).monster,
    {
        self.material = self.material.to_visible();
    }

    /// Hides the cell's door, trap or passage.
    pub fn set_hidden(&mut self)
        ensures
            final(self).material == spec_to_hidden(old(self).material),
            final(self).object == old(self).object,
            final(self).monster == old(self).monster,
    {
        self.material = self.material.to_hidden();
    }

    /// Whether the cell is empty: no material, no object, no monster.
    pub fn is_nothing(&self) -> (r: bool)
        ensures
            r == (*self == spec_nothing_cell()),
    {
        *self == Self::nothing()
    }

    /// Empties the cell.
    pub fn reset_to_nothing(&mut self)
        ensures
            *final(self) == spec_nothing_cell(),
    {
        *self = Self::nothing();
    }

    /// The material of the cell.
    pub fn material(&self) -> (r: &CellMaterial)
        ensures
            *r == self.material,
    {
        &self.material
    }

    /// Gives the cell a new material and clears its object and monster.
    pub fn set_material_remove_others(&mut self, mat: CellMaterial)
        ensures
            *final(self) == (DungeonCell { material: mat, object: ObjectWhat::Nothing, monster: false }),
    {
        self.material = mat;
        self.object = ObjectWhat::Nothing;
        self.monster = false;
    }

    /// Whether the cell is of material `mat` with no object and no monster.
    pub fn is_material_no_others(&self, mat: CellMaterial) -> (r: bool)
        ensures
            r == (self.material == mat && self.object is Nothing && !self.monster),
    {
        self.material == mat && self.object == ObjectWhat::Nothing && self.monster == false
    }

    /// Whether a monster stands on the cell.
    pub fn has_monster(&self) -> (r: bool)
        ensures
            r == self.monster,
    {
        self.monster
    }

    /// Records whether a monster stands on the cell.
    pub fn set_monster(&mut self, value: bool)
        ensures
            *final(self) == (DungeonCell { monster: value, ..*old(self) }),
    {
        self.monster = value;
    }

    /// The class of the object on the cell.
    pub fn object_what(&self) -> (r: ObjectWhat)
        ensures
            r == self.object,
    {
        self.object
    }

    /// Whether an object lies on the cell.
    pub fn has_object(&self) -> (r: bool)
        ensures
            r == !(self.object is Nothing),
    {
        self.object.is_object()
    }

    /// Takes the object off the cell.
    pub fn clear_object(&mut self)
        ensures
            *final(self) == (DungeonCell { object: ObjectWhat::Nothing, ..*old(self) }),
    {
        self.object = ObjectWhat::Nothing
    }

    /// Records the class of the object on the cell.
    pub fn set_object(&mut self, value: ObjectWhat)
        ensures
            *final(self) == (DungeonCell { object: value, ..*old(self) }),
    {
        self.object = value
    }
}

impl Default for DungeonCell {
    fn default() -> (r: Self)
        ensures
            r == spec_nothing_cell(),
    {
        Self::nothing()
    }
}

} // verus!
