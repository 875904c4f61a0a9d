use vstd::prelude::*;
use crate::animation::{Animation, AnimationView};
use crate::geometry::{in_limit, Rect, COORD_LIMIT, MAX_SPEED, WORLD_HEIGHT, WORLD_WIDTH};
use crate::random::random_between;

verus! {

/// Highest point the hook can be raised to; reaching it completes a reel-in.
/// Free-swimming fish also respawn below it.
pub const HOOK_CEILING: i64 = 500;

/// A movable, animated entity on screen: the fisherman, the hook, the line or
/// the body of a fish.
#[allow(non_camel_case_types)]
pub struct Char_action {
    /// Where the actor is drawn, in screen pixels.
    pub screen_region: Rect,
    /// The sprite-sheet region last resolved for drawing.
    pub sheet_region: Rect,
    pub animations: Vec<Animation>,
    pub current_animation_index: usize,
    /// Pixels moved per tick.
    pub speed: i64,
    pub facing_left: bool,
    /// Stable slot of this actor in the list of sprites handed to the renderer.
    pub sprites_index: usize,
}

impl Char_action {
    /// A live active animation, well-formed animations, a screen region
    /// within the coordinate limit and a speed within its bounds.
    pub open spec fn wf(&self) -> bool {
        &&& self.animations@.len() > 0
        &&& self.current_animation_index < self.animations@.len()
        &&& forall|i: int| 0 <= i < self.animations@.len() ==> (#[trigger] self.animations@[i]).wf()
        &&& self.screen_region.bounded()
        &&& 0 <= self.speed <= MAX_SPEED
    }

    /// The animation that is playing.
    pub open spec fn active(&self) -> AnimationView {
        self.animations@[self.current_animation_index as int]@
    }

    /// This actor with another screen region.
    pub open spec fn placed(self, r: Rect) -> Char_action {
        Char_action { screen_region: r, ..self }
    }

    /// This actor at another x.
    pub open spec fn at_x(self, x: int) -> Char_action {
        self.placed(Rect { x: x as i64, ..self.screen_region })
    }

    /// This actor at another y.
    pub open spec fn at_y(self, y: int) -> Char_action {
        self.placed(Rect { y: y as i64, ..self.screen_region })
    }

    /// `self` is where `before` gets to by moving right one step: `speed`
    /// pixels further right, or, past the right edge of the world, at the left
    /// edge at some height below the hook's ceiling.
    pub open spec fn swam_right_from(self, before: Char_action) -> bool {
        let x = before.screen_region.x + before.speed;
        if x < WORLD_WIDTH {
            self == before.at_x(x)
        } else {
            &&& 0 <= self.screen_region.y < HOOK_CEILING
            &&& self == before.placed(Rect { x: 0, y: self.screen_region.y, ..before.screen_region })
        }
    }

    /// `self` is where `before` gets to by moving left one step: `speed`
    /// pixels further left, or, at or past the left edge of the world, at the
    /// right edge at some height within the world.
    pub open spec fn swam_left_from(self, before: Char_action) -> bool {
        let x = before.screen_region.x - before.speed;
        if x > 0 {
            self == before.at_x(x)
        } else {
            &&& 0 <= self.screen_region.y <= WORLD_HEIGHT
            &&& self == before.placed(
                Rect { x: WORLD_WIDTH, y: self.screen_region.y, ..before.screen_region },
            )
        }
    }

    /// One step down: `speed` pixels lower but not below 0, for an actor
    /// above the floor; any other actor stays.
    pub open spec fn lowered(self) -> Char_action {
        let y = self.screen_region.y;
        if y > 0 {
            self.at_y(
                if y - self.speed > 0 {
                    y - self.speed
                } else {
                    0
                },
            )
        } else {
            self
        }
    }

    /// One step up: `speed` pixels higher but not above `ceiling`, for an
    /// actor below it; any other actor stays.
    pub open spec fn raised(self, ceiling: int) -> Char_action {
        let y = self.screen_region.y;
        if y < ceiling {
            self.at_y(
                if y + self.speed < ceiling {
                    y + self.speed
                } else {
                    ceiling
                },
            )
        } else {
            self
        }
    }

    /// Where one step of walking leads: `speed` pixels in the facing direction.
    pub open spec fn walk_target(&self) -> int {
        if self.facing_left {
            self.screen_region.x - self.speed
        } else {
            self.screen_region.x + self.speed
        }
    }

    /// The actor with its active animation replaced by one of the given view,
    /// and every other animation as it was.
    pub open spec fn active_became(&self, before: &Char_action, v: AnimationView) -> bool {
        &&& self.animations@.len() == before.animations@.len()
        &&& self.animations@[self.current_animation_index as int].wf()
        &&& self.animations@[self.current_animation_index as int]@ == v
        &&& forall|j: int|
            0 <= j < self.animations@.len() && j != self.current_animation_index
                ==> #[trigger] self.animations@[j] == before.animations@[j]
    }

    pub fn new(
        screen_re: Rect,
        sheet_re: Rect,
        anims: Vec<Animation>,
        cur_anim_index: usize,
        spe: i64,
        facing_lef: bool,
        sprites_ind: usize,
    ) -> (r: Char_action)
        requires
            cur_anim_index < anims@.len(),
            forall|i: int| 0 <= i < anims@.len() ==> (#[trigger] anims@[i]).wf(),
            screen_re.bounded(),
            0 <= spe <= MAX_SPEED,
        ensures
            r.wf(),
            r.screen_region == screen_re,
            r.sheet_region == sheet_re,
            r.animations == anims,
            r.current_animation_index == cur_anim_index,
            r.speed == spe,
            r.facing_left == facing_lef,
            r.sprites_index == sprites_ind,
    {
        Char_action {
            screen_region: screen_re,
            sheet_region: sheet_re,
            animations: anims,
            current_animation_index: cur_anim_index,
            speed: spe,
            facing_left: facing_lef,
            sprites_index: sprites_ind,
        }
    }

    /// Whether one step of walking stays within the world's coordinate limit.
    pub fn can_walk(&self) -> (r: bool)
        requires
            self.wf(),
        ensures
            r == in_limit(self.walk_target()),
    {
        if self.facing_left {
            self.screen_region.x - self.speed >= -COORD_LIMIT
        } else {
            self.screen_region.x + self.speed <= COORD_LIMIT
        }
    }

    /// Moves `speed` pixels left or right, the way the actor faces.
    pub fn walk(&mut self)
        requires
            old(self).wf(),
            in_limit(old(self).walk_target()),
        ensures
            final(self).wf(),
            *final(self) == old(self).at_x(old(self).walk_target()),
    {
        if self.facing_left {
            self.screen_region.x = self.screen_region.x - self.speed;
        } else {
            self.screen_region.x = self.screen_region.x + self.speed;
        }
    }

    /// Turns to face left; the active animation is mirrored to match.
    pub fn face_left(&mut self)
        requires
            old(self).wf(),
        ensures
            final(self).wf(),
            final(self).facing_left,
            final(self).active_became(old(self), AnimationView { facing_left: true, ..old(self).active() }),
            final(self).screen_region == old(self).screen_region,
            final(self).sheet_region == old(self).sheet_region,
            final(self).current_animation_index == old(self).current_animation_index,
            final(self).speed == old(self).speed,
            final(self).sprites_index == old(self).sprites_index,
    {
        self.set_facing(true);
    }

    /// Turns to face right; the active animation is drawn unmirrored.
    pub fn face_right(&mut self)
        requires
            old(self).wf(),
        ensures
            final(self).wf(),
            !final(self).facing_left,
            final(self).active_became(old(self), AnimationView { facing_left: false, ..old(self).active() }),
            final(self).screen_region == old(self).screen_region,
            final(self).sheet_region == old(self).sheet_region,
            final(self).current_animation_index == old(self).current_animation_index,
            final(self).speed == old(self).speed,
            final(self).sprites_index == old(self).sprites_index,
    {
        self.set_facing(false);
    }

    /// Teleports to the right edge of the world at height `y`.
    pub fn reset_x_to(&mut self, y: i64)
        requires
            old(self).wf(),
            0 <= y <= WORLD_HEIGHT,
        ensures
            final(self).wf(),
            *final(self) == old(self).placed(Rect { x: WORLD_WIDTH, y, ..old(self).screen_region }),
    {
        self.screen_region.x = WORLD_WIDTH;
        self.screen_region.y = y;
    }

    /// Teleports to the right edge of the world at a random height.
    pub fn reset_x(&mut self)
        requires
            old(self).wf(),
        ensures
            final(self).wf(),
            final(self).screen_region.x == WORLD_WIDTH,
            0 <= final(self).screen_region.y <= WORLD_HEIGHT,
            *final(self) == old(self).placed(
                Rect { x: WORLD_WIDTH, y: final(self).screen_region.y, ..old(self).screen_region },
            ),
    {
        let y = random_between(0, WORLD_HEIGHT);
        self.reset_x_to(y);
    }

    /// Teleports to the bottom edge of the world at horizontal position `x`.
    pub fn reset_y_to(&mut self, x: i64)
        requires
            old(self).wf(),
            0 <= x <= WORLD_WIDTH,
        ensures
            final(self).wf(),
            *final(self) == old(self).placed(Rect { x, y: WORLD_HEIGHT, ..old(self).screen_region }),
    {
        self.screen_region.x = x;
        self.screen_region.y = WORLD_HEIGHT;
    }

    /// Teleports to the bottom edge of the world at a random horizontal position.
    pub fn reset_y(&mut self)
        requires
            old(self).wf(),
        ensures
            final(self).wf(),
            final(self).screen_region.y == WORLD_HEIGHT,
            0 <= final(self).screen_region.x <= WORLD_WIDTH,
            *final(self) == old(self).placed(
                Rect { x: final(self).screen_region.x, y: WORLD_HEIGHT, ..old(self).screen_region },
            ),
    {
        let x = random_between(0, WORLD_WIDTH);
        self.reset_y_to(x);
    }

    /// Sinks by `speed`; on reaching the floor it reappears at the bottom edge
    /// at a random horizontal position.
    pub fn move_down(&mut self)
        requires
            old(self).wf(),
        ensures
            final(self).wf(),
            old(self).screen_region.y - old(self).speed > 0 ==> *final(self) == old(self).at_y(
                old(self).screen_region.y - old(self).speed,
            ),
            old(self).screen_region.y - old(self).speed <= 0 ==> {
                &&& final(self).screen_region.y == WORLD_HEIGHT
                &&& 0 <= final(self).screen_region.x <= WORLD_WIDTH
                &&& *final(self) == old(self).placed(
                    Rect {
                        x: final(self).screen_region.x,
                        y: WORLD_HEIGHT,
                        ..old(self).screen_region
                    },
                )
            },
    {
        let y = self.screen_region.y - self.speed;
        if y > 0 {
            self.screen_region.y = y;
        } else {
            self.reset_y();
        }
    }

    /// Moves right by `speed`; past the right edge of the world it wraps to
    /// the left edge at height `respawn_y`.
    pub fn move_right_or_wrap_to(&mut self, respawn_y: i64)
        requires
            old(self).wf(),
            0 <= respawn_y < HOOK_CEILING,
        ensures
            final(self).wf(),
            *final(self) == if old(self).screen_region.x + old(self).speed < WORLD_WIDTH {
                old(self).at_x(old(self).screen_region.x + old(self).speed)
            } else {
                old(self).placed(Rect { x: 0, y: respawn_y, ..old(self).screen_region })
            },
    {
        let x = self.screen_region.x + self.speed;
        if x < WORLD_WIDTH {
            self.screen_region.x = x;
        } else {
            self.screen_region.x = 0;
            self.screen_region.y = respawn_y;
        }
    }

    /// Moves right by `speed`; past the right edge of the world it wraps to
    /// the left edge at a random height below the hook's ceiling.
    pub fn move_right(&mut self)
        requires
            old(self).wf(),
        ensures
            final(self).wf(),
            final(self).swam_right_from(*old(self)),
    {
        if self.screen_region.x + self.speed < WORLD_WIDTH {
            self.move_right_or_wrap_to(0);
        } else {
            let y = random_between(0, HOOK_CEILING - 1);
            self.move_right_or_wrap_to(y);
        }
    }

    /// Moves left by `speed`; at or past the left edge of the world it
    /// respawns at the right edge at a random height.
    pub fn move_left(&mut self)
        requires
            old(self).wf(),
        ensures
            final(self).wf(),
            final(self).swam_left_from(*old(self)),
    {
        let x = self.screen_region.x - self.speed;
        if x > 0 {
            self.screen_region.x = x;
        } else {
            self.reset_x();
        }
    }

    /// Lowers by `speed`, never below the floor at 0; an actor already at or
    /// below the floor stays where it is.
    pub fn travel_down(&mut self)
        requires
            old(self).wf(),
        ensures
            final(self).wf(),
            *final(self) == old(self).lowered(),
    {
        if self.screen_region.y > 0 {
            let y = self.screen_region.y - self.speed;
            self.screen_region.y = if y > 0 {
                y
            } else {
                0
            };
        }
    }

    /// Rises by `speed`, never above `ceiling`; an actor already at or above
    /// it stays where it is.
    pub fn travel_up_to(&mut self, ceiling: i64)
        requires
            old(self).wf(),
            in_limit(ceiling as int),
        ensures
            final(self).wf(),
            *final(self) == old(self).raised(ceiling as int),
    {
        if self.screen_region.y < ceiling {
            let y = self.screen_region.y + self.speed;
            self.screen_region.y = if y < ceiling {
                y
            } else {
                ceiling
            };
        }
    }

    /// Rises by `speed`, never above the hook's ceiling.
    pub fn travel_up(&mut self)
        requires
            old(self).wf(),
        ensures
            final(self).wf(),
            *final(self) == old(self).raised(HOOK_CEILING as int),
    {
        self.travel_up_to(HOOK_CEILING);
    }

    /// Takes the actor out of play: no size, at the origin.
    pub fn conceal(&mut self)
        requires
            old(self).wf(),
        ensures
            final(self).wf(),
            *final(self) == old(self).placed(Rect { x: 0, y: 0, w: 0, h: 0 }),
    {
        self.screen_region = Rect::empty();
    }

    /// Stretches the height so that the actor spans from its anchor down to
    /// `desired_height`: the new height is `desired_height - WORLD_HEIGHT + offset`.
    pub fn scale_elongate(&mut self, desired_height: i64, offset: i64)
        requires
            old(self).wf(),
            in_limit(desired_height as int),
            in_limit(offset as int),
            in_limit(desired_height - WORLD_HEIGHT + offset),
        ensures
            final(self).wf(),
            *final(self) == old(self).placed(
                Rect { h: (desired_height - WORLD_HEIGHT + offset) as i64, ..old(self).screen_region },
            ),
    {
        self.screen_region.h = -(WORLD_HEIGHT - desired_height) + offset;
    }

    /// Selects which animation plays, without rewinding it.
    pub fn set_animation_index(&mut self, index: usize)
        requires
            old(self).wf(),
            index < old(self).animations@.len(),
        ensures
            final(self).wf(),
            *final(self) == (Char_action { current_animation_index: index, ..*old(self) }),
    {
        self.current_animation_index = index;
    }

    /// Rewinds the active animation to its first frame.
    pub fn reset_current_animation(&mut self)
        requires
            old(self).wf(),
        ensures
            final(self).wf(),
            final(self).active_became(old(self), old(self).active().rewound()),
            final(self).screen_region == old(self).screen_region,
            final(self).sheet_region == old(self).sheet_region,
            final(self).current_animation_index == old(self).current_animation_index,
            final(self).speed == old(self).speed,
            final(self).facing_left == old(self).facing_left,
            final(self).sprites_index == old(self).sprites_index,
    {
        let i = self.current_animation_index;
        self.animations[i].rewind();
    }

    /// One tick of the active animation.
    pub fn advance_animation(&mut self)
        requires
            old(self).wf(),
        ensures
            final(self).wf(),
            final(self).active_became(old(self), old(self).active().advanced()),
            final(self).screen_region == old(self).screen_region,
            final(self).sheet_region == old(self).sheet_region,
            final(self).current_animation_index == old(self).current_animation_index,
            final(self).speed == old(self).speed,
            final(self).facing_left == old(self).facing_left,
            final(self).sprites_index == old(self).sprites_index,
    {
        let i = self.current_animation_index;
        self.animations[i].advance();
    }

    /// Resolves the sprite-sheet region to draw: the active animation's
    /// current frame, mirrored when the actor faces left. The region is also
    /// kept as `sheet_region`.
    pub fn get_current_animation_state(&mut self) -> (r: Rect)
        requires
            old(self).wf(),
        ensures
            final(self).wf(),
            final(self).active_became(old(self), AnimationView { facing_left: old(self).facing_left, ..old(self).active() }),
            r == final(self).active().source_rect(),
            final(self).sheet_region == r,
            final(self).screen_region == old(self).screen_region,
            final(self).current_animation_index == old(self).current_animation_index,
            final(self).speed == old(self).speed,
            final(self).facing_left == old(self).facing_left,
            final(self).sprites_index == old(self).sprites_index,
    {
        let i = self.current_animation_index;
        let left = self.facing_left;
        self.animations[i].set_facing(left);
        let r = self.animations[i].current_source_rect();
        self.sheet_region = r;
        r
    }

    fn set_facing(&mut self, left: bool)
        requires
            old(self).wf(),
        ensures
            final(self).wf(),
            final(self).facing_left == left,
            final(self).active_became(old(self), AnimationView { facing_left: left, ..old(self).active() }),
            final(self).screen_region == old(self).screen_region,
            final(self).sheet_region == old(self).sheet_region,
            final(self).current_animation_index == old(self).current_animation_index,
            final(self).speed == old(self).speed,
            final(self).sprites_index == old(self).sprites_index,
    {
        self.facing_left = left;
        let i = self.current_animation_index;
        self.animations[i].set_facing(left);
    }
}

} // verus!
