//! Taking the stairs down and up.
use vstd::prelude::*;

use crate::level::Level;

verus! {

/// What climbing the stairs does.
#[derive(Debug, Copy, Clone, Eq, PartialEq, Structural)]
pub enum UpResult {
    KeepLevel,
    UpLevel,
    WonGame,
}

/// How a turn ends the level: down the stairs, up them, or out of the
/// dungeon with the game won.
#[derive(Debug, Copy, Clone, Eq, PartialEq, Structural)]
pub enum LevelChange {
    StairsDown,
    StairsUp,
    ExitWon,
}

/// What the rogue's position and state say about the stairs.
#[derive(Debug, Copy, Clone, Eq, PartialEq, Structural)]
pub struct StairsContext {
    pub wizard: bool,
    pub on_stairs: bool,
    pub levitating: bool,
    pub has_amulet: bool,
    pub cur_depth: usize,
}

/// Whether the rogue can go down, with what it is told when it cannot: a
/// wizard always can; otherwise it must stand on the stairs ("I see no way
/// down") and not float ("you're floating in the air!").
pub fn drop_check(ctx: &StairsContext) -> (r: (bool, Option<&'static str>))
    ensures
        r.0 == (ctx.wizard || (ctx.on_stairs && !ctx.levitating)),
        r.0 ==> r.1 is None,
        !r.0 && !ctx.on_stairs ==> (r.1 matches Some(m) && m@ == "I see no way down"@),
        !r.0 && ctx.on_stairs ==> (r.1 matches Some(m) && m@ == "you're floating in the air!"@),
{
    if ctx.wizard {
        return (true, None);
    }
    if ctx.on_stairs {
        if ctx.levitating {
            return (false, Some("you're floating in the air!"));
        }
        return (true, None);
    }
    (false, Some("I see no way down"))
}

/// Climbing the stairs: a wizard always goes; otherwise the rogue must
/// stand on the stairs ("I see no way up") and carry the amulet ("Your way
/// is magically blocked").  Going up leaves a message for the next level;
/// from the first level it wins the game.
pub fn check_up(ctx: &StairsContext, level: &mut Level) -> (r: (UpResult, Option<&'static str>))
    ensures
        (r.0 is KeepLevel) == (!ctx.wizard && (!ctx.on_stairs || !ctx.has_amulet)),
        r.0 is KeepLevel ==> *final(level) == *old(level),
        r.0 is KeepLevel && !ctx.on_stairs ==> (r.1 matches Some(m) && m@ == "I see no way up"@),
        r.0 is KeepLevel && ctx.on_stairs ==> (r.1 matches Some(m) && m@ == "Your way is magically blocked"@),
        !(r.0 is KeepLevel) ==> r.1 is None && (final(level).new_level_message matches Some(m) && m@
            == "you feel a wrenching sensation in your gut"@) && (r.0 is WonGame <==> ctx.cur_depth == 1),
{
    if !ctx.wizard {
        if !ctx.on_stairs {
            return (UpResult::KeepLevel, Some("I see no way up"));
        }
        if !ctx.has_amulet {
            return (UpResult::KeepLevel, Some("Your way is magically blocked"));
        }
    }
    level.new_level_message = Some("you feel a wrenching sensation in your gut".to_string());
    if ctx.cur_depth == 1 {
        (UpResult::WonGame, None)
    } else {
        (UpResult::UpLevel, None)
    }
}

/// Going down the stairs.
pub struct Descend;

impl Descend {
    /// Goes down when the rogue can; otherwise the turn goes on, with what
    /// the rogue is told.
    pub fn update(ctx: &StairsContext) -> (r: (Option<LevelChange>, Option<&'static str>))
        ensures
            (r.0 is Some) == (ctx.wizard || (ctx.on_stairs && !ctx.levitating)),
            r.0 matches Some(c) ==> c is StairsDown,
    {
        let (can_drop, message) = drop_check(ctx);
        if can_drop {
            (Some(LevelChange::StairsDown), message)
        } else {
            (None, message)
        }
    }
}

/// Going up the stairs.
pub struct Ascend;

impl Ascend {
    /// Goes up, or out of the dungeon from the first level, when the rogue
    /// can; otherwise the turn goes on, with what the rogue is told.
    pub fn update(ctx: &StairsContext, level: &mut Level) -> (r: (Option<LevelChange>, Option<&'static str>))
        ensures
            (r.0 is None) == (!ctx.wizard && (!ctx.on_stairs || !ctx.has_amulet)),
            r.0 matches Some(c) ==> (c is ExitWon <==> ctx.cur_depth == 1),
            r.0 matches Some(c) ==> !(c is StairsDown),
    {
        let (result, message) = check_up(ctx, level);
        match result {
            UpResult::KeepLevel => (None, message),
            UpResult::UpLevel => (Some(LevelChange::StairsUp), message),
            UpResult::WonGame => (Some(LevelChange::ExitWon), message),
        }
    }
}

} // verus!
