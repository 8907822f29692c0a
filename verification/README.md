# rogue

The rules of a Rogue-style dungeon game as a library whose behaviour is
stated in contracts and proved with Verus.

- `src/level/` — the dungeon of one level: cells and their materials, rooms
  in a three by three grid of slots, and `dig`, which lays out rooms, puts
  doors in their walls, digs passages, mazes and dead ends, and checks that
  the rooms are joined.
- `src/monster/` — monster kinds and flags, the roster of a level, and
  `moves`, which decides a monster's turn and steps it through the dungeon.
- `src/hit/` — damage dice (rolled, summed and read from text such as
  "1d3/2d4"), the rogue's chance to hit and its strikes.
- `src/objects/`, `src/armors.rs` — objects, their kinds, the notes the rogue
  keeps on them and the names it gives them.
- `src/actions/` — eating, reading scrolls, quaffing potions, searching and
  taking the stairs, as steps that hand their outside effects to the rest of
  the game.
- `src/inventory.rs` — how objects are described to the player.
- `src/components/` — hunger and the healing of wounds.
- `src/motion.rs`, `src/room.rs`, `src/trap.rs`, `src/spot.rs` — moving and
  hunger, rooms and doors, traps and spots.
- `src/random.rs` — dice from the `rand` crate, the only outside calls.

`app/main.rs` digs one level and prints it.
