use vstd::prelude::*;
use crate::actor::Char_action;
use crate::geometry::{Rect, WORLD_HEIGHT, WORLD_WIDTH};

verus! {

/// How far above the hook's anchor the catch band reaches, in pixels.
pub const CATCH_BAND_ABOVE: i64 = 70;

/// How far below the hook's anchor the catch band reaches, in pixels.
pub const CATCH_BAND_BELOW: i64 = 38;

/// A hooked fish struggles once every this many ticks.
pub const VIBRATE_TICKS: u64 = 30;

/// Whether the hook at `hook` reaches a fish drawn at `fish`: their
/// horizontal extents overlap, and the fish lies within the hook's catch band,
/// which is more forgiving than the hook's own rectangle.
pub open spec fn hook_reaches(hook: Rect, fish: Rect) -> bool {
    &&& hook.x + hook.w > fish.x
    &&& hook.x < fish.x + fish.w
    &&& hook.y - hook.h + CATCH_BAND_ABOVE < fish.y
    &&& hook.y + CATCH_BAND_BELOW > fish.y - fish.h
}

/// An actor that can be caught on the hook.
pub struct Fish {
    pub body: Char_action,
    pub caught: bool,
    /// Which way the next struggle nudges a hooked fish: left when set.
    pub vibrate_phase: bool,
    /// Ticks since the last struggle.
    pub vibrate_counter: u64,
}

impl Fish {
    /// A well-formed body, and a struggle counter below its period.
    pub open spec fn wf(&self) -> bool {
        self.body.wf() && self.vibrate_counter < VIBRATE_TICKS
    }

    /// The fish after the hook at `hook`, moving at `hook_speed`, has been
    /// checked against it. A fish within reach is caught and takes on the
    /// hook's speed; one that was not caught before is pulled onto the
    /// hook's position. A fish out of reach is left as it was.
    pub open spec fn after_catch_check(self, hook: Rect, hook_speed: i64) -> Fish {
        if hook_reaches(hook, self.body.screen_region) {
            let body = if self.caught {
                self.body
            } else {
                self.body.placed(Rect { x: hook.x, y: hook.y, ..self.body.screen_region })
            };
            Fish { body: Char_action { speed: hook_speed, ..body }, caught: true, ..self }
        } else {
            self
        }
    }

    /// Whether checking against the hook at `hook` starts a new catch.
    pub open spec fn newly_caught_by(self, hook: Rect) -> bool {
        !self.caught && hook_reaches(hook, self.body.screen_region)
    }

    /// A free fish, not struggling.
    pub fn new(body: Char_action) -> (r: Fish)
        requires
            body.wf(),
        ensures
            r.wf(),
            r.body == body,
            !r.caught,
            !r.vibrate_phase,
            r.vibrate_counter == 0,
    {
        Fish { body, caught: false, vibrate_phase: false, vibrate_counter: 0 }
    }

    /// Tests the fish against the hook and catches it when in reach. Returns
    /// whether this started a new catch.
    pub fn check_hook(&mut self, hook: &Char_action) -> (newly: bool)
        requires
            old(self).wf(),
            hook.wf(),
        ensures
            final(self).wf(),
            *final(self) == old(self).after_catch_check(hook.screen_region, hook.speed),
            newly == old(self).newly_caught_by(hook.screen_region),
    {
        let h = hook.screen_region;
        let f = self.body.screen_region;
        let reaches = h.x + h.w > f.x && h.x < f.x + f.w && h.y - h.h + CATCH_BAND_ABOVE < f.y && h.y
            + CATCH_BAND_BELOW > f.y - f.h;
        if reaches {
            let newly = !self.caught;
            if newly {
                self.body.screen_region.x = h.x;
                self.body.screen_region.y = h.y;
            }
            self.caught = true;
            self.body.speed = hook.speed;
            newly
        } else {
            false
        }
    }

    /// One tick of motion. A free fish swims the way it faces. A hooked fish
    /// struggles instead: every `VIBRATE_TICKS` ticks it is nudged one step,
    /// alternately left and right.
    pub fn cruise(&mut self)
        requires
            old(self).wf(),
        ensures
            final(self).wf(),
            final(self).caught == old(self).caught,
            !old(self).caught ==> {
                &&& final(self).vibrate_phase == old(self).vibrate_phase
                &&& final(self).vibrate_counter == old(self).vibrate_counter
                &&& if old(self).body.facing_left {
                    final(self).body.swam_left_from(old(self).body)
                } else {
                    final(self).body.swam_right_from(old(self).body)
                }
            },
            old(self).caught && old(self).vibrate_counter + 1 < VIBRATE_TICKS ==> {
                &&& final(self).body == old(self).body
                &&& final(self).vibrate_phase == old(self).vibrate_phase
                &&& final(self).vibrate_counter == old(self).vibrate_counter + 1
            },
            old(self).caught && old(self).vibrate_counter + 1 >= VIBRATE_TICKS ==> {
                &&& final(self).vibrate_phase == !old(self).vibrate_phase
                &&& final(self).vibrate_counter == 0
                &&& if old(self).vibrate_phase {
                    final(self).body.swam_left_from(old(self).body)
                } else {
                    final(self).body.swam_right_from(old(self).body)
                }
            },
    {
        if self.caught {
            let c = self.vibrate_counter + 1;
            if c < VIBRATE_TICKS {
                self.vibrate_counter = c;
            } else {
                if self.vibrate_phase {
                    self.body.move_left();
                    self.vibrate_phase = false;
                } else {
                    self.body.move_right();
                    self.vibrate_phase = true;
                }
                self.vibrate_counter = 0;
            }
        } else if self.body.facing_left {
            self.body.move_left();
        } else {
            self.body.move_right();
        }
    }

    /// Lets a fish off the hook and respawns it at the right edge of the
    /// world at a random height.
    pub fn release(&mut self)
        requires
            old(self).wf(),
        ensures
            final(self).wf(),
            final(self).released_from(*old(self)),
    {
        self.caught = false;
        self.body.reset_x();
    }

    /// `self` is `before` let off the hook: free, and respawned at the right
    /// edge of the world at some height within it.
    pub open spec fn released_from(self, before: Fish) -> bool {
        &&& !self.caught
        &&& self.vibrate_phase == before.vibrate_phase
        &&& self.vibrate_counter == before.vibrate_counter
        &&& 0 <= self.body.screen_region.y <= WORLD_HEIGHT
        &&& self.body == before.body.placed(
            Rect { x: WORLD_WIDTH, y: self.body.screen_region.y, ..before.body.screen_region },
        )
    }

    /// The fish when the hook is lowered: a caught fish goes down with it.
    pub open spec fn dragged_down(self) -> Fish {
        if self.caught {
            Fish { body: self.body.lowered(), ..self }
        } else {
            self
        }
    }

    /// The fish when the hook is raised: a caught fish goes up with it, never
    /// above the top of the world.
    pub open spec fn dragged_up(self) -> Fish {
        if self.caught {
            Fish { body: self.body.raised(WORLD_HEIGHT as int), ..self }
        } else {
            self
        }
    }

    /// Moves a caught fish down along with the hook.
    pub fn drag_down(&mut self)
        requires
            old(self).wf(),
        ensures
            final(self).wf(),
            *final(self) == old(self).dragged_down(),
    {
        if self.caught {
            self.body.travel_down();
        }
    }

    /// Moves a caught fish up along with the hook.
    pub fn drag_up(&mut self)
        requires
            old(self).wf(),
        ensures
            final(self).wf(),
            *final(self) == old(self).dragged_up(),
    {
        if self.caught {
            self.body.travel_up_to(WORLD_HEIGHT);
        }
    }
}

/// Checks two fish against one hook, first `first` and then `second`, and
/// gives both fish and the score lock afterwards. Each new catch lifts the
/// lock.
pub open spec fn catch_in_order(
    hook: Rect,
    hook_speed: i64,
    first: Fish,
    second: Fish,
    locked: bool,
) -> (Fish, Fish, bool) {
    let locked1 = if first.newly_caught_by(hook) {
        false
    } else {
        locked
    };
    let locked2 = if second.newly_caught_by(hook) {
        false
    } else {
        locked1
    };
    (first.after_catch_check(hook, hook_speed), second.after_catch_check(hook, hook_speed), locked2)
}

/// Catching does not depend on the order in which fish are checked: checking
/// `a` then `b` against a hook leaves both fish, and so which of them are
/// caught, and the score lock exactly as checking `b` then `a` does.
pub proof fn lemma_catch_order_irrelevant(hook: Rect, hook_speed: i64, a: Fish, b: Fish, locked: bool)
    ensures
        ({
            let (a1, b1, l1) = catch_in_order(hook, hook_speed, a, b, locked);
            let (b2, a2, l2) = catch_in_order(hook, hook_speed, b, a, locked);
            a1 == a2 && b1 == b2 && l1 == l2
        }),
{
}

} // verus!
