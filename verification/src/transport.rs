//! The rules by which light travels through a scene: what happens at the
//! first sphere a ray meets, how a ray is followed from mirror to mirror, and
//! which light reaches a point.
//!
//! The rules are decisions on what a ray has seen. Casting the rays and
//! weighing the light is left to the caller, who reports what each ray has
//! seen and carries out the move that the rules answer with.

use crate::objects::{is_positive, lawful, positive, Seen, SurfaceType};
use crate::ppm::RGB;
use vstd::prelude::*;

verus! {

/// How many mirrors a ray is followed across.
pub const MIRROR_BUDGET: u8 = 4;

/// How deep traces may nest when a trace starts with this allowance. The
/// value is a matter of tuning: it only has to be large enough that no
/// picture of interest reaches it.
pub const DEPTH_LIMIT: u32 = 16;

/// What is added to the brightness of a point on a mirror or on a
/// transparent sphere before its colour is scaled.
pub const SHINE_BONUS: u8 = 255;

/// How far, in thousandths of the way from the shaded point to the centre of
/// its sphere, the target of a shadow ray is moved, so that the point does
/// not hide itself from the light. The value is a matter of tuning.
pub const SHADOW_BIAS_THOUSANDTHS: u8 = 1;

/// The grey level of a pixel whose ray meets nothing.
pub const BACKGROUND: u8 = 10;

/// The grey level a mirror shows when the ray it reflects meets nothing.
pub const VOID_DIRECT: u8 = 5;

/// The grey level a mirror shows when a ray meets nothing after it has been
/// passed on by another mirror or by a transparent sphere.
pub const VOID_REFLECTED: u8 = 15;

/// The grey level a mirror shows when the ray has not come to rest within
/// the budget.
pub const UNRESOLVED: u8 = 10;

/// The grey level a transparent sphere shows when nothing is seen through it.
pub const VOID_REFRACTED: u8 = 15;

/// The grey pixel whose three channels are `level`.
pub open spec fn grey(level: u8) -> RGB {
    RGB { r: level, g: level, b: level }
}

/// The grey pixel whose three channels are `level`.
pub fn grey_pixel(level: u8) -> (c: RGB)
    ensures
        c == grey(level),
{
    RGB { r: level, g: level, b: level }
}

/// Whether the light reaches a point on the sphere `shaded`, given the sphere
/// `blocker` that a ray from the light towards the point meets first. The
/// light is cut off exactly when that ray meets another sphere first.
pub open spec fn lit(shaded: usize, blocker: Option<usize>) -> bool {
    match blocker {
        Some(i) => i == shaded,
        None => true,
    }
}

/// Whether the light reaches a point on the sphere `shaded`, given the sphere
/// `blocker` that a ray from the light towards the point meets first.
pub fn reaches(shaded: usize, blocker: Option<usize>) -> (b: bool)
    ensures
        b == lit(shaded, blocker),
{
    match blocker {
        Some(i) => i == shaded,
        None => true,
    }
}

/// A sphere casts no shadow on itself: where the ray from the light meets the
/// shaded sphere first, the light reaches the point, and it is cut off by any
/// other sphere.
pub proof fn own_shadow_is_no_shadow(shaded: usize, other: usize)
    ensures
        lit(shaded, Some(shaded)),
        lit(shaded, None),
        other != shaded ==> !lit(shaded, Some(other)),
{
}

/// Whether a light that reaches a point adds scattered light to it: only an
/// opaque surface scatters light, and only towards the side that `facing`
/// counts as greater than zero.
pub fn scatters_light<T: PartialOrd + From<u8>>(surface: &SurfaceType<T>, facing: &T) -> (b: bool)
    ensures
        lawful::<T>() ==> b == (*surface is Solid && positive(*facing)),
        !(*surface is Solid) ==> !b,
{
    surface.scatters() && is_positive(facing)
}

/// Whether a light that reaches a point adds a highlight to it: it does on
/// every kind of surface, where the mirrored light lines up with the ray by
/// more than zero.
pub fn glints<T: PartialOrd + From<u8>>(aligned: &T) -> (b: bool)
    ensures
        lawful::<T>() ==> b == positive(*aligned),
{
    is_positive(aligned)
}

/// The colour of the pixel of a ray whose trace gave `traced`: the colour
/// traced, or the background where the ray met nothing.
pub open spec fn painted(traced: Option<RGB>) -> RGB {
    match traced {
        Some(found) => found,
        None => grey(BACKGROUND),
    }
}

/// The colour of the pixel of a ray whose trace gave `traced`: the colour
/// traced, or the background where the ray met nothing.
pub fn pixel(traced: Option<RGB>) -> (c: RGB)
    ensures
        c == painted(traced),
{
    match traced {
        Some(found) => found,
        None => grey_pixel(BACKGROUND),
    }
}

/// The state of a ray that is followed from mirror to mirror.
#[derive(Clone, Copy, Debug, PartialEq, Eq, Structural)]
pub struct MirrorWalk {
    /// How many mirrors the ray has been reflected by since the walk began.
    pub bounces: u8,
    /// How many more times the ray may pass through a transparent sphere or
    /// start a trace of its own.
    pub depth: u32,
    /// Whether the ray has not been passed on yet.
    pub first: bool,
}

/// What is to be done with a ray that is followed from mirror to mirror, once
/// it is known what the ray has seen.
#[derive(Clone, Copy, Debug, PartialEq, Eq, Structural)]
pub enum Move {
    /// The walk is over and the mirror shows this colour.
    Settle(RGB),
    /// The walk is over: the mirror shows what a trace along the ray finds.
    /// That trace may nest as deep as given here.
    Resolve { depth: u32 },
    /// The ray goes to the point where it meets the mirror, is reflected
    /// there, and the walk goes on.
    Reflect,
    /// The ray goes to the point where it meets the transparent sphere,
    /// passes through it, and the walk goes on.
    Refract,
}

impl Move {
    /// Whether the walk goes on after this move.
    pub open spec fn goes_on(self) -> bool {
        self is Reflect || self is Refract
    }
}

impl MirrorWalk {
    /// The walk of a ray that a mirror has just reflected for the first time.
    pub open spec fn start(depth: u32) -> MirrorWalk {
        MirrorWalk { bounces: 0, depth, first: true }
    }

    /// Whether one more mirror would use up the budget.
    pub open spec fn on_last_mirror(self) -> bool {
        self.bounces + 1 >= MIRROR_BUDGET
    }

    /// The move that answers what the ray has seen.
    pub open spec fn answer(self, seen: Seen) -> Move {
        match seen {
            Seen::Nothing => Move::Settle(
                grey(
                    if self.first {
                        VOID_DIRECT
                    } else {
                        VOID_REFLECTED
                    },
                ),
            ),
            Seen::Solid(_) => if self.depth > 0 {
                Move::Resolve { depth: (self.depth - 1) as u32 }
            } else {
                Move::Settle(grey(UNRESOLVED))
            },
            Seen::Mirror => if self.on_last_mirror() {
                Move::Settle(grey(UNRESOLVED))
            } else {
                Move::Reflect
            },
            Seen::Transparent => if self.depth > 0 {
                Move::Refract
            } else {
                Move::Settle(grey(UNRESOLVED))
            },
        }
    }

    /// The state of the walk after the move that answers what the ray has
    /// seen. A mirror uses up one unit of the budget; a transparent sphere
    /// uses none of it, but one unit of the depth.
    pub open spec fn after(self, seen: Seen) -> MirrorWalk {
        match self.answer(seen) {
            Move::Reflect => MirrorWalk {
                bounces: (self.bounces + 1) as u8,
                depth: self.depth,
                first: false,
            },
            Move::Refract => MirrorWalk {
                bounces: self.bounces,
                depth: (self.depth - 1) as u32,
                first: false,
            },
            _ => self,
        }
    }

    /// How many more moves the walk can go on for at most.
    pub open spec fn reserve(self) -> nat {
        let mirrors: nat = if self.on_last_mirror() {
            0
        } else {
            (MIRROR_BUDGET - 1 - self.bounces) as nat
        };
        mirrors + self.depth as nat
    }

    /// Whether the walk goes on after each of `sights`, seen one after another.
    pub open spec fn wanders(self, sights: Seq<Seen>) -> bool
        decreases sights.len(),
    {
        sights.len() > 0 ==> self.answer(sights[0]).goes_on() && self.after(sights[0]).wanders(
            sights.drop_first(),
        )
    }

    /// How many of `sights` are mirrors.
    pub open spec fn mirrors_in(sights: Seq<Seen>) -> nat
        decreases sights.len(),
    {
        if sights.len() == 0 {
            0
        } else {
            let rest = Self::mirrors_in(sights.drop_first());
            if sights[0] is Mirror {
                rest + 1
            } else {
                rest
            }
        }
    }

    /// The walk of a ray that a mirror has just reflected for the first time.
    pub fn new(depth: u32) -> (walk: MirrorWalk)
        ensures
            walk == MirrorWalk::start(depth),
    {
        MirrorWalk { bounces: 0, depth, first: true }
    }

    /// Takes what the ray has seen, answers with the move to make, and
    /// remembers what the move has used up.
    pub fn step(&mut self, seen: Seen) -> (m: Move)
        ensures
            m == old(self).answer(seen),
            *final(self) == old(self).after(seen),
            m.goes_on() ==> final(self).reserve() + 1 == old(self).reserve(),
    {
        match seen {
            Seen::Nothing => {
                if self.first {
                    Move::Settle(grey_pixel(VOID_DIRECT))
                } else {
                    Move::Settle(grey_pixel(VOID_REFLECTED))
                }
            },
            Seen::Solid(_) => {
                if self.depth > 0 {
                    Move::Resolve { depth: self.depth - 1 }
                } else {
                    Move::Settle(grey_pixel(UNRESOLVED))
                }
            },
            Seen::Mirror => {
                if self.bounces >= MIRROR_BUDGET - 1 {
                    Move::Settle(grey_pixel(UNRESOLVED))
                } else {
                    self.bounces = self.bounces + 1;
                    self.first = false;
                    Move::Reflect
                }
            },
            Seen::Transparent => {
                if self.depth > 0 {
                    self.depth = self.depth - 1;
                    self.first = false;
                    Move::Refract
                } else {
                    Move::Settle(grey_pixel(UNRESOLVED))
                }
            },
        }
    }
}

/// A mirror whose reflected ray meets nothing shows the darkest grey, however
/// deep traces may nest.
pub proof fn first_look_into_the_void(depth: u32)
    ensures
        MirrorWalk::start(depth).answer(Seen::Nothing) == Move::Settle(RGB { r: 5, g: 5, b: 5 }),
{
}

/// A ray that meets nothing after it has been passed on shows the lighter
/// grey.
pub proof fn later_look_into_the_void(walk: MirrorWalk, sight: Seen)
    requires
        walk.answer(sight).goes_on(),
    ensures
        walk.after(sight).answer(Seen::Nothing) == Move::Settle(RGB { r: 15, g: 15, b: 15 }),
{
}

/// A transparent sphere on the way uses up none of the mirror budget.
pub proof fn transparent_is_exempt(walk: MirrorWalk)
    ensures
        walk.after(Seen::Transparent).bounces == walk.bounces,
{
}

/// Every walk ends: it cannot go on for more moves than its reserve, and the
/// mirrors that reflect it, those before the walk counted in, stay below the
/// budget.
pub proof fn walk_ends(walk: MirrorWalk, sights: Seq<Seen>)
    requires
        walk.wanders(sights),
    ensures
        sights.len() <= walk.reserve(),
        MirrorWalk::mirrors_in(sights) > 0 ==> walk.bounces + MirrorWalk::mirrors_in(sights)
            < MIRROR_BUDGET,
    decreases sights.len(),
{
    if sights.len() > 0 {
        walk_ends(walk.after(sights[0]), sights.drop_first());
    }
}

/// What is to be done at the first sphere that a ray meets.
#[derive(Clone, Copy, Debug, PartialEq, Eq, Structural)]
pub enum Plan {
    /// The ray meets nothing, and the trace gives no colour.
    Miss,
    /// The trace gives `base`, scaled by the brightness of the point with
    /// `bonus` added to it.
    Paint { base: RGB, bonus: u8 },
    /// The ray is reflected and followed from mirror to mirror, starting
    /// with this walk; the trace gives the colour the walk ends with, scaled
    /// by the brightness of the point with the bonus added to it.
    Bounce(MirrorWalk),
    /// The ray passes through the sphere and is traced on, nesting as deep as
    /// given here; the trace gives the colour found, or the grey of
    /// `VOID_REFRACTED` if none is found, scaled by the brightness of the
    /// point with the bonus added to it.
    Refract { depth: u32 },
}

/// What is to be done at the first sphere that a ray meets, given what the
/// ray has seen there and how deep traces may still nest.
pub open spec fn plan_for(seen: Seen, depth: u32) -> Plan {
    match seen {
        Seen::Nothing => Plan::Miss,
        Seen::Solid(base) => Plan::Paint { base, bonus: 0 },
        Seen::Mirror => Plan::Bounce(MirrorWalk::start(depth)),
        Seen::Transparent => if depth > 0 {
            Plan::Refract { depth: (depth - 1) as u32 }
        } else {
            Plan::Paint { base: grey(VOID_REFRACTED), bonus: SHINE_BONUS }
        },
    }
}

/// What is to be done at the first sphere that a ray meets, given what the
/// ray has seen there and how deep traces may still nest.
pub fn plan(seen: Seen, depth: u32) -> (p: Plan)
    ensures
        p == plan_for(seen, depth),
{
    match seen {
        Seen::Nothing => Plan::Miss,
        Seen::Solid(base) => Plan::Paint { base, bonus: 0 },
        Seen::Mirror => Plan::Bounce(MirrorWalk::new(depth)),
        Seen::Transparent => {
            if depth > 0 {
                Plan::Refract { depth: depth - 1 }
            } else {
                Plan::Paint { base: grey_pixel(VOID_REFRACTED), bonus: SHINE_BONUS }
            }
        },
    }
}

/// The colour that a trace through a transparent sphere was looking for: the
/// colour found, or the grey of `VOID_REFRACTED` if nothing was found.
pub fn seen_through(traced: Option<RGB>) -> (c: RGB)
    ensures
        c == match traced {
            Some(found) => found,
            None => grey(VOID_REFRACTED),
        },
{
    match traced {
        Some(found) => found,
        None => grey_pixel(VOID_REFRACTED),
    }
}

/// What breaks a trace although the rules leave no room for it: the caller's
/// arithmetic has contradicted itself.
#[derive(Clone, Copy, Debug, PartialEq, Eq, Structural)]
pub enum Fault {
    /// A ray was to pass through a sphere that is not transparent.
    NotTransparent,
    /// A trace found nothing along a ray on which a sphere had just been seen.
    LostSight,
}

/// The colour of a pixel whose trace broke: a magenta that no grey of the
/// rules can be mistaken for.
pub open spec fn fault_colour() -> RGB {
    RGB { r: 255, g: 0, b: 255 }
}

/// The colour that a mirror shows at the end of a walk that ended with
/// `Move::Resolve`: the colour traced. That the trace found none is a fault,
/// for the walk had seen an opaque sphere along the same ray.
pub fn mirrored(traced: Option<RGB>) -> (c: Result<RGB, Fault>)
    ensures
        c == match traced {
            Some(found) => Ok::<RGB, Fault>(found),
            None => Err::<RGB, Fault>(Fault::LostSight),
        },
{
    match traced {
        Some(found) => Ok(found),
        None => Err(Fault::LostSight),
    }
}

/// What a trace gives in the end: the colour found, none where the ray met
/// nothing, and the colour of faults where the trace broke, so that one
/// broken pixel does not stop the picture.
pub open spec fn shown(outcome: Result<Option<RGB>, Fault>) -> Option<RGB> {
    match outcome {
        Ok(found) => found,
        Err(_) => Some(fault_colour()),
    }
}

/// What a trace gives in the end: the colour found, none where the ray met
/// nothing, and the colour of faults where the trace broke.
pub fn recovered(outcome: Result<Option<RGB>, Fault>) -> (traced: Option<RGB>)
    ensures
        traced == shown(outcome),
{
    match outcome {
        Ok(found) => found,
        Err(_) => Some(RGB { r: 255, g: 0, b: 255 }),
    }
}

/// A trace that another trace starts may nest less deep than the one that
/// starts it, so traces cannot start one another without end.
pub proof fn nested_traces_are_shallower(walk: MirrorWalk, seen: Seen, depth: u32)
    ensures
        plan_for(seen, depth) matches Plan::Refract { depth: inner } ==> inner < depth,
        plan_for(seen, depth) matches Plan::Bounce(started) ==> started.depth == depth,
        walk.answer(seen) matches Move::Resolve { depth: inner } ==> inner < walk.depth,
        walk.after(seen).depth <= walk.depth,
{
}

/// A trace gives no colour exactly when the ray meets nothing, however deep
/// traces may nest and even where the trace breaks; the pixel of such a ray
/// is the background.
pub proof fn only_a_miss_gives_no_colour(seen: Seen, depth: u32, fault: Fault)
    ensures
        plan_for(seen, depth) is Miss <==> seen is Nothing,
        shown(Err(fault)).is_some(),
        painted(shown(Ok(None))) == (RGB { r: 10, g: 10, b: 10 }),
{
}

} // verus!
