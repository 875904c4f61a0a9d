use vstd::prelude::*;
use crate::actor::{Char_action, HOOK_CEILING};
use crate::animation::Animation;
use crate::catch::{catch_in_order, Fish};
use crate::game_state::{GameState, Screen, ROUND_SECONDS};
use crate::text::{status_line, status_text};
use crate::geometry::{Rect, WORLD_HEIGHT};

verus! {

/// Logical keys held down during a tick.
#[derive(Clone, Copy, Debug, PartialEq, Eq, Structural)]
pub struct Input {
    /// Leaves the title screen.
    pub confirm: bool,
    /// Starts a round from the instructions.
    pub play: bool,
    /// Ends the round early.
    pub end: bool,
    /// Returns from the end screen to the title.
    pub restart: bool,
    pub left: bool,
    pub right: bool,
    pub down: bool,
    pub up: bool,
    pub cast: bool,
}

impl Input {
    /// No key held.
    pub fn idle() -> (r: Input)
        ensures
            !r.confirm && !r.play && !r.end && !r.restart && !r.left && !r.right && !r.down
                && !r.up && !r.cast,
    {
        Input {
            confirm: false,
            play: false,
            end: false,
            restart: false,
            left: false,
            right: false,
            down: false,
            up: false,
            cast: false,
        }
    }
}

/// What one tick's input asks for. At most one thing happens per tick.
#[derive(Clone, Copy, Debug, PartialEq, Eq, Structural)]
pub enum Action {
    ShowInstructions,
    StartRound,
    EndRound,
    BackToTitle,
    WalkLeft,
    WalkRight,
    Lower,
    Raise,
    Cast,
    Rest,
}

/// The action that `input` asks for on screen `screen`. A screen change is
/// only taken from the screen it leaves, and wins over play; among the play
/// keys left wins over right, right over down, down over up, up over cast.
pub open spec fn action_for(screen: Screen, input: Input) -> Action {
    if input.confirm && screen == Screen::Title {
        Action::ShowInstructions
    } else if input.play && screen == Screen::Instructions {
        Action::StartRound
    } else if input.end && screen == Screen::Playing {
        Action::EndRound
    } else if input.restart && screen == Screen::GameOver {
        Action::BackToTitle
    } else if input.left {
        Action::WalkLeft
    } else if input.right {
        Action::WalkRight
    } else if input.down {
        Action::Lower
    } else if input.up {
        Action::Raise
    } else if input.cast {
        Action::Cast
    } else {
        Action::Rest
    }
}

/// Picks the action that `input` asks for on screen `screen`.
pub fn choose_action(screen: Screen, input: &Input) -> (r: Action)
    ensures
        r == action_for(screen, *input),
{
    if input.confirm && screen == Screen::Title {
        Action::ShowInstructions
    } else if input.play && screen == Screen::Instructions {
        Action::StartRound
    } else if input.end && screen == Screen::Playing {
        Action::EndRound
    } else if input.restart && screen == Screen::GameOver {
        Action::BackToTitle
    } else if input.left {
        Action::WalkLeft
    } else if input.right {
        Action::WalkRight
    } else if input.down {
        Action::Lower
    } else if input.up {
        Action::Raise
    } else if input.cast {
        Action::Cast
    } else {
        Action::Rest
    }
}

/// Points for a completed reel-in: 1 for the small fish alone, 2 for the
/// large fish alone, 4 for both at once, none for an empty hook.
pub open spec fn catch_award(small: bool, large: bool) -> u64 {
    if small && large {
        4
    } else if large {
        2
    } else if small {
        1
    } else {
        0
    }
}

/// Gives the points that a reel-in with the small fish caught (`small`) and
/// the large fish caught (`large`) is worth.
pub fn award_for(small: bool, large: bool) -> (r: u64)
    ensures
        r == catch_award(small, large),
{
    if small && large {
        4
    } else if large {
        2
    } else if small {
        1
    } else {
        0
    }
}

/// Horizontal placement of the hook and the line relative to the fisherman
/// when casting. These are fitted to the sprite sheet.
#[derive(Clone, Copy, Debug, PartialEq, Eq, Structural)]
pub struct CastOffsets {
    pub hook_dx: i64,
    pub line_dx: i64,
}

/// The cast offsets for a fisherman facing left (`facing_left`) or right.
pub fn cast_offsets(facing_left: bool) -> (r: CastOffsets)
    ensures
        facing_left ==> r.hook_dx == -38 && r.line_dx == 12,
        !facing_left ==> r.hook_dx == 38 && r.line_dx == 90,
{
    if facing_left {
        CastOffsets { hook_dx: -38, line_dx: 12 }
    } else {
        CastOffsets { hook_dx: 38, line_dx: 90 }
    }
}

/// One sprite to draw: where on screen, and which region of the sprite sheet.
#[derive(Clone, Copy, Debug, PartialEq, Eq, Structural)]
pub struct Sprite {
    pub screen_region: Rect,
    pub sheet_region: Rect,
}

/// What the renderer needs for one frame: the screen to show, one sprite per
/// slot in slot order, and the status line.
pub struct RenderPayload {
    pub screen: Screen,
    pub sprites: Vec<Sprite>,
    pub status: String,
}

/// The screen shown after `action` was taken on `screen`.
pub open spec fn screen_after(screen: Screen, action: Action) -> Screen {
    match action {
        Action::ShowInstructions => Screen::Instructions,
        Action::StartRound => Screen::Playing,
        Action::EndRound => Screen::GameOver,
        Action::BackToTitle => Screen::Title,
        _ => screen,
    }
}

/// Where the fisherman stands in the cast-and-reel cycle.
#[derive(Clone, Copy, Debug, PartialEq, Eq, Structural)]
pub enum Phase {
    Idle,
    Walking,
    Casting,
    Deployed,
    Reeling,
}

/// Index of the fisherman's idle animation.
pub const IDLE_ANIMATION: usize = 0;

/// Index of the fisherman's walking animation.
pub const WALK_ANIMATION: usize = 1;

/// Index of the fisherman's casting animation.
pub const CAST_ANIMATION: usize = 2;

/// Index of the fisherman's reeling animation.
pub const REEL_ANIMATION: usize = 3;

/// Sprite slot of the fisherman.
pub const FISHERMAN_SLOT: usize = 0;

/// Sprite slot of the hook.
pub const HOOK_SLOT: usize = 1;

/// Sprite slot of the fishing line.
pub const LINE_SLOT: usize = 2;

/// Sprite slot of the small fish.
pub const FISH_SLOT: usize = 3;

/// Sprite slot of the large fish.
pub const LARGE_FISH_SLOT: usize = 4;

/// Number of sprite slots.
pub const SPRITE_COUNT: usize = 5;

/// How far the fisherman and the hook may stray from the origin.
pub const STAGE_LIMIT: i64 = 500_000_000;

/// How far below the fisherman's anchor the hook appears when cast.
pub const HOOK_DROP: i64 = 100;

/// Width and height of the hook while it is out.
pub const HOOK_SIZE: i64 = 100;

/// Width of the fishing line while it is out.
pub const LINE_WIDTH: i64 = 10;

/// Height at which the fishing line is anchored while it is out.
pub const LINE_ANCHOR_Y: i64 = 600;

/// Added to the line's height when it is stretched down to the hook.
pub const LINE_SLACK: i64 = 250;

/// Whether `v` is within the stage the fisherman and the hook move on.
pub open spec fn on_stage(v: int) -> bool {
    -STAGE_LIMIT <= v <= STAGE_LIMIT
}

/// Width of one column of the fisherman's frames on the sprite sheet.
pub const FISHERMAN_COLUMN: i64 = 48;

/// Width of the sprite sheet, in pixels.
pub const SHEET_WIDTH: i64 = 542;

/// Height of the sprite sheet, in pixels.
pub const SHEET_HEIGHT: i64 = 356;

/// Frames of the fisherman's sheet: one per column in `columns`, in that
/// order, each `w` by `h` at height `y`.
fn fisherman_frames(columns: &[i64], y: i64, w: i64, h: i64) -> (r: Vec<Rect>)
    requires
        forall|i: int| 0 <= i < columns@.len() ==> 0 <= #[trigger] columns@[i] <= 10,
        0 <= y <= SHEET_HEIGHT,
        0 <= w <= SHEET_WIDTH,
        0 <= h <= SHEET_HEIGHT,
    ensures
        r@.len() == columns@.len(),
        forall|i: int|
            0 <= i < r@.len() ==> #[trigger] r@[i] == (Rect {
                x: (columns@[i] * FISHERMAN_COLUMN) as i64,
                y,
                w,
                h,
            }),
        forall|i: int| 0 <= i < r@.len() ==> (#[trigger] r@[i]).bounded(),
{
    let mut frames: Vec<Rect> = Vec::new();
    let mut i: usize = 0;
    while i < columns.len()
        invariant
            0 <= i <= columns@.len(),
            frames@.len() == i,
            forall|j: int| 0 <= j < columns@.len() ==> 0 <= #[trigger] columns@[j] <= 10,
            forall|j: int|
                0 <= j < i ==> #[trigger] frames@[j] == (Rect {
                    x: (columns@[j] * FISHERMAN_COLUMN) as i64,
                    y,
                    w,
                    h,
                }),
            0 <= y <= SHEET_HEIGHT,
            0 <= w <= SHEET_WIDTH,
            0 <= h <= SHEET_HEIGHT,
        decreases columns@.len() - i,
    {
        frames.push(Rect { x: columns[i] * FISHERMAN_COLUMN, y, w, h });
        i = i + 1;
    }
    frames
}

/// A still or two-frame animation from explicitly given sheet regions.
fn animation_of(frames: Vec<Rect>, ticks_per_frame: u64, reference_width: i64) -> (r: Animation)
    requires
        frames@.len() > 0,
        ticks_per_frame > 0,
        forall|i: int|
            0 <= i < frames@.len() ==> 0 <= (#[trigger] frames@[i]).x <= SHEET_WIDTH && 0
                <= frames@[i].y <= SHEET_HEIGHT && 0 <= frames@[i].w <= SHEET_WIDTH && 0
                <= frames@[i].h <= SHEET_HEIGHT,
        0 <= reference_width <= SHEET_WIDTH,
    ensures
        r.wf(),
        r@.frames == frames@,
        r@.looping,
        r@.current_frame == 0,
{
    proof {
        assert forall|i: int| 0 <= i < frames@.len() implies (#[trigger] frames@[i]).bounded() by {}
    }
    Animation::new(frames, ticks_per_frame, true, reference_width)
}

/// The whole simulation of one playthrough: the state of the round and every
/// actor in it.
pub struct Session {
    pub state: GameState,
    pub fisherman: Char_action,
    pub hook: Char_action,
    pub line: Char_action,
    pub fish: Fish,
    pub large_fish: Fish,
}

impl Session {
    /// Every actor well-formed, the fisherman with four animations,
    /// sprite slots 0 to 4 in actor order, and fisherman and hook on stage.
    pub open spec fn wf(&self) -> bool {
        &&& self.fisherman.wf()
        &&& self.hook.wf()
        &&& self.line.wf()
        &&& self.fish.wf()
        &&& self.large_fish.wf()
        &&& self.fisherman.animations@.len() == 4
        &&& self.fisherman.sprites_index == FISHERMAN_SLOT
        &&& self.hook.sprites_index == HOOK_SLOT
        &&& self.line.sprites_index == LINE_SLOT
        &&& self.fish.body.sprites_index == FISH_SLOT
        &&& self.large_fish.body.sprites_index == LARGE_FISH_SLOT
        &&& on_stage(self.fisherman.screen_region.x as int)
        &&& on_stage(self.fisherman.screen_region.y as int)
        &&& on_stage(self.hook.screen_region.y + HOOK_DROP)
    }

    /// Whether the fisherman can take a step without leaving the stage.
    fn fisherman_can_step(&self) -> (r: bool)
        requires
            self.wf(),
        ensures
            r == on_stage(self.fisherman.walk_target()),
    {
        let x = self.fisherman.screen_region.x;
        let speed = self.fisherman.speed;
        if self.fisherman.facing_left {
            x - speed >= -STAGE_LIMIT
        } else {
            x + speed <= STAGE_LIMIT
        }
    }

    /// The fisherman turns to `left` (or right) and, unless the line is out,
    /// takes one walking step that way.
    pub fn walk_fisherman(&mut self, left: bool)
        requires
            old(self).wf(),
        ensures
            final(self).wf(),
            final(self).state == old(self).state,
            final(self).hook == old(self).hook,
            final(self).line == old(self).line,
            final(self).fish == old(self).fish,
            final(self).large_fish == old(self).large_fish,
            old(self).state.is_currently_casted ==> final(self).fisherman == old(self).fisherman,
            !old(self).state.is_currently_casted ==> {
                &&& final(self).fisherman.facing_left == left
                &&& final(self).fisherman.current_animation_index == WALK_ANIMATION
                &&& final(self).fisherman.screen_region.x == if on_stage(
                    if left {
                        old(self).fisherman.screen_region.x - old(self).fisherman.speed
                    } else {
                        old(self).fisherman.screen_region.x + old(self).fisherman.speed
                    },
                ) {
                    if left {
                        old(self).fisherman.screen_region.x - old(self).fisherman.speed
                    } else {
                        old(self).fisherman.screen_region.x + old(self).fisherman.speed
                    }
                } else {
                    old(self).fisherman.screen_region.x as int
                }
                &&& final(self).fisherman.screen_region.y == old(self).fisherman.screen_region.y
            },
    {
        if !self.state.is_currently_casted {
            self.fisherman.set_animation_index(WALK_ANIMATION);
            if left {
                self.fisherman.face_left();
            } else {
                self.fisherman.face_right();
            }
            if self.fisherman_can_step() {
                self.fisherman.walk();
            }
        }
    }

    /// Casts the line: the casting animation starts over, and the hook and
    /// the line appear next to the fisherman, placed by the cast offsets for
    /// the way the fisherman faces. Nothing happens while the line is out.
    pub fn cast(&mut self)
        requires
            old(self).wf(),
        ensures
            final(self).wf(),
            final(self).fish == old(self).fish,
            final(self).large_fish == old(self).large_fish,
            old(self).state.is_currently_casted ==> *final(self) == *old(self),
            !old(self).state.is_currently_casted ==> {
                let f = old(self).fisherman.screen_region;
                let (hook_dx, line_dx) = if old(self).fisherman.facing_left {
                    (-38int, 12int)
                } else {
                    (38int, 90int)
                };
                &&& final(self).state == (GameState { is_currently_casted: true, ..old(self).state })
                &&& final(self).fisherman.current_animation_index == CAST_ANIMATION
                &&& final(self).fisherman.active().current_frame == 0
                &&& !final(self).fisherman.active().finished
                &&& final(self).fisherman.screen_region == f
                &&& final(self).hook.screen_region.x == f.x + hook_dx
                &&& final(self).hook.screen_region.y == f.y - HOOK_DROP
                &&& final(self).hook.screen_region.w == HOOK_SIZE
                &&& final(self).hook.screen_region.h == HOOK_SIZE
                &&& final(self).line.screen_region.x == f.x + line_dx
                &&& final(self).line.screen_region.y == LINE_ANCHOR_Y
                &&& final(self).line.screen_region.w == LINE_WIDTH
                &&& final(self).line.screen_region.h == 0
                &&& final(self).hook.speed == old(self).hook.speed
            },
    {
        if !self.state.is_currently_casted {
            self.fisherman.set_animation_index(CAST_ANIMATION);
            self.fisherman.reset_current_animation();
            self.state.is_currently_casted = true;
            let offsets = cast_offsets(self.fisherman.facing_left);
            let f = self.fisherman.screen_region;
            self.hook.screen_region = Rect {
                x: f.x + offsets.hook_dx,
                y: f.y - HOOK_DROP,
                w: HOOK_SIZE,
                h: HOOK_SIZE,
            };
            self.line.screen_region = Rect {
                x: f.x + offsets.line_dx,
                y: LINE_ANCHOR_Y,
                w: LINE_WIDTH,
                h: 0,
            };
        }
    }

    /// The line stretched from its anchor down to a hook at height `hook_y`.
    pub open spec fn line_to(line: Char_action, hook_y: int) -> Char_action {
        line.placed(Rect { h: (hook_y - WORLD_HEIGHT + LINE_SLACK) as i64, ..line.screen_region })
    }

    /// Lowers the hook one step while the line is out; the line stretches to
    /// follow it and a caught fish goes down with it.
    pub fn lower(&mut self)
        requires
            old(self).wf(),
        ensures
            final(self).wf(),
            old(self).state.is_currently_casted ==> {
                let hook = old(self).hook.lowered();
                &&& final(self).hook == hook
                &&& final(self).line == Self::line_to(old(self).line, hook.screen_region.y as int)
                &&& final(self).fish == old(self).fish.dragged_down()
                &&& final(self).large_fish == old(self).large_fish.dragged_down()
                &&& final(self).state == old(self).state
                &&& final(self).fisherman == old(self).fisherman
            },
            !old(self).state.is_currently_casted ==> *final(self) == *old(self),
    {
        if self.state.is_currently_casted {
            self.hook.travel_down();
            self.line.scale_elongate(self.hook.screen_region.y, LINE_SLACK);
            self.fish.drag_down();
            self.large_fish.drag_down();
        }
    }

    /// Raises the hook one step while the line is out; the line follows it
    /// and a caught fish goes up with it. A hook already at its ceiling is
    /// reeled in instead.
    pub fn raise(&mut self)
        requires
            old(self).wf(),
        ensures
            final(self).wf(),
            old(self).state.is_currently_casted && old(self).hook.screen_region.y
                != HOOK_CEILING ==> {
                let hook = old(self).hook.raised(HOOK_CEILING as int);
                &&& final(self).hook == hook
                &&& final(self).line == Self::line_to(old(self).line, hook.screen_region.y as int)
                &&& final(self).fish == old(self).fish.dragged_up()
                &&& final(self).large_fish == old(self).large_fish.dragged_up()
                &&& final(self).state == old(self).state
                &&& final(self).fisherman == old(self).fisherman
            },
            old(self).state.is_currently_casted && old(self).hook.screen_region.y == HOOK_CEILING
                ==> final(self).reeled_in_from(*old(self)),
            !old(self).state.is_currently_casted ==> *final(self) == *old(self),
    {
        if self.state.is_currently_casted {
            if self.hook.screen_region.y == HOOK_CEILING {
                self.reel_in();
            } else {
                self.hook.travel_up();
                self.line.scale_elongate(self.hook.screen_region.y, LINE_SLACK);
                self.fish.drag_up();
                self.large_fish.drag_up();
            }
        }
    }

    /// The score after a reel-in that is worth `award` points: the points are
    /// added unless the score is locked, capped at the largest `u64`.
    pub open spec fn score_after_reel(state: GameState, award: u64) -> u64 {
        if award > 0 && !state.score_changing {
            if state.score + award <= u64::MAX {
                (state.score + award) as u64
            } else {
                u64::MAX
            }
        } else {
            state.score
        }
    }

    /// `self` is `before` after its reel-in completed: hook and line are
    /// taken out of play, the line is no longer out, the reeling animation
    /// starts over, the catch is scored once, and each caught fish is let
    /// off the hook and respawned.
    pub open spec fn reeled_in_from(self, before: Session) -> bool {
        let award = catch_award(before.fish.caught, before.large_fish.caught);
        &&& self.hook == before.hook.placed(Rect { x: 0, y: 0, w: 0, h: 0 })
        &&& self.line == before.line.placed(Rect { x: 0, y: 0, w: 0, h: 0 })
        &&& self.state == (GameState {
            is_currently_casted: false,
            score: Self::score_after_reel(before.state, award),
            score_changing: before.state.score_changing || award > 0,
            ..before.state
        })
        &&& self.fisherman.current_animation_index == REEL_ANIMATION
        &&& self.fisherman.active().current_frame == 0
        &&& !self.fisherman.active().finished
        &&& self.fisherman.screen_region == before.fisherman.screen_region
        &&& self.fisherman.facing_left == before.fisherman.facing_left
        &&& if before.fish.caught {
            self.fish.released_from(before.fish)
        } else {
            self.fish == before.fish
        }
        &&& if before.large_fish.caught {
            self.large_fish.released_from(before.large_fish)
        } else {
            self.large_fish == before.large_fish
        }
    }

    /// Completes a reel-in.
    pub fn reel_in(&mut self)
        requires
            old(self).wf(),
        ensures
            final(self).wf(),
            final(self).reeled_in_from(*old(self)),
    {
        self.hook.conceal();
        self.line.conceal();
        self.state.is_currently_casted = false;
        self.fisherman.set_animation_index(REEL_ANIMATION);
        self.fisherman.reset_current_animation();
        let small = self.fish.caught;
        let large = self.large_fish.caught;
        let award = award_for(small, large);
        if award > 0 {
            if !self.state.score_changing {
                self.state.score = if self.state.score <= u64::MAX - award {
                    self.state.score + award
                } else {
                    u64::MAX
                };
            }
            self.state.score_changing = true;
        }
        if small {
            self.fish.release();
        }
        if large {
            self.large_fish.release();
        }
    }

    /// With no key held the fisherman goes back to standing idle, once the
    /// line is in and the animation that plays has nothing left to show.
    pub fn rest(&mut self)
        requires
            old(self).wf(),
        ensures
            final(self).wf(),
            *final(self) == if !old(self).state.is_currently_casted && (
            old(self).fisherman.active().looping || old(self).fisherman.active().finished) {
                Session {
                    fisherman: Char_action {
                        current_animation_index: IDLE_ANIMATION,
                        ..old(self).fisherman
                    },
                    ..*old(self)
                }
            } else {
                *old(self)
            },
    {
        if !self.state.is_currently_casted {
            let i = self.fisherman.current_animation_index;
            if self.fisherman.animations[i].is_settled() {
                self.fisherman.set_animation_index(IDLE_ANIMATION);
            }
        }
    }

    /// Leaves the title for the instructions; the clocks start at `now`.
    pub fn show_instructions(&mut self, now: u64)
        requires
            old(self).wf(),
        ensures
            final(self).wf(),
            *final(self) == (Session {
                state: GameState {
                    game_screen: Screen::Instructions,
                    round_start_ms: now,
                    last_second_ms: now,
                    ..old(self).state
                },
                ..*old(self)
            }),
    {
        self.state.game_screen = Screen::Instructions;
        self.state.round_start_ms = now;
        self.state.last_second_ms = now;
    }

    /// Starts the round: the countdown runs from `now`.
    pub fn start_round(&mut self, now: u64)
        requires
            old(self).wf(),
        ensures
            final(self).wf(),
            *final(self) == (Session {
                state: GameState {
                    game_screen: Screen::Playing,
                    round_start_ms: now,
                    last_second_ms: now,
                    ..old(self).state
                },
                ..*old(self)
            }),
    {
        self.state.game_screen = Screen::Playing;
        self.state.round_start_ms = now;
        self.state.last_second_ms = now;
    }

    /// Ends the round before its time is up.
    pub fn end_round(&mut self)
        requires
            old(self).wf(),
        ensures
            final(self).wf(),
            *final(self) == (Session {
                state: GameState { game_screen: Screen::GameOver, ..old(self).state },
                ..*old(self)
            }),
    {
        self.state.game_screen = Screen::GameOver;
    }

    /// Back to the title for a new playthrough: the round's state starts
    /// over, the fisherman, hook and line return to where they began, and
    /// both fish are let go and respawned.
    pub fn back_to_title(&mut self)
        requires
            old(self).wf(),
        ensures
            final(self).wf(),
            final(self).state == GameState::initial(),
            final(self).fisherman == old(self).fisherman.placed(Rect { x: 100, y: 600, w: 100, h: 100 }),
            final(self).hook == old(self).hook.placed(Rect { x: 20, y: 200, w: 0, h: 0 }),
            final(self).line == old(self).line.placed(Rect { x: 100, y: 540, w: 0, h: 0 }),
            final(self).fish.released_from(old(self).fish),
            final(self).large_fish.released_from(old(self).large_fish),
    {
        self.state = GameState::init_game_state();
        self.fisherman.screen_region = Rect { x: 100, y: 600, w: 100, h: 100 };
        self.hook.screen_region = Rect { x: 20, y: 200, w: 0, h: 0 };
        self.line.screen_region = Rect { x: 100, y: 540, w: 0, h: 0 };
        self.fish.release();
        self.large_fish.release();
    }

    /// While the line is out, checks both fish against the hook. A new catch
    /// lifts the score lock.
    pub fn resolve_catches(&mut self)
        requires
            old(self).wf(),
        ensures
            final(self).wf(),
            old(self).state.is_currently_casted ==> {
                let (f, l, locked) = catch_in_order(
                    old(self).hook.screen_region,
                    old(self).hook.speed,
                    old(self).fish,
                    old(self).large_fish,
                    old(self).state.score_changing,
                );
                &&& final(self).fish == f
                &&& final(self).large_fish == l
                &&& final(self).state == (GameState { score_changing: locked, ..old(self).state })
                &&& final(self).fisherman == old(self).fisherman
                &&& final(self).hook == old(self).hook
                &&& final(self).line == old(self).line
            },
            !old(self).state.is_currently_casted ==> *final(self) == *old(self),
    {
        if self.state.is_currently_casted {
            let small = self.fish.check_hook(&self.hook);
            let large = self.large_fish.check_hook(&self.hook);
            if small || large {
                self.state.score_changing = false;
            }
        }
    }

    /// The phase of the cast-and-reel cycle, read off the line and the
    /// fisherman's animation.
    pub open spec fn phase_of(&self) -> Phase {
        let anim = self.fisherman.current_animation_index;
        let a = self.fisherman.active();
        if self.state.is_currently_casted {
            if anim == CAST_ANIMATION && !a.finished {
                Phase::Casting
            } else {
                Phase::Deployed
            }
        } else if anim == WALK_ANIMATION {
            Phase::Walking
        } else if anim == REEL_ANIMATION && !a.finished {
            Phase::Reeling
        } else {
            Phase::Idle
        }
    }

    /// The phase of the cast-and-reel cycle.
    pub fn phase(&self) -> (r: Phase)
        requires
            self.wf(),
        ensures
            r == self.phase_of(),
    {
        let anim = self.fisherman.current_animation_index;
        let finished = self.fisherman.animations[anim].finished;
        if self.state.is_currently_casted {
            if anim == CAST_ANIMATION && !finished {
                Phase::Casting
            } else {
                Phase::Deployed
            }
        } else if anim == WALK_ANIMATION {
            Phase::Walking
        } else if anim == REEL_ANIMATION && !finished {
            Phase::Reeling
        } else {
            Phase::Idle
        }
    }

    /// One tick of every actor's animation.
    pub fn advance_animations(&mut self)
        requires
            old(self).wf(),
        ensures
            final(self).wf(),
            final(self).state == old(self).state,
            final(self).fisherman.active_became(&old(self).fisherman, old(self).fisherman.active().advanced()),
            final(self).fisherman.screen_region == old(self).fisherman.screen_region,
            final(self).fisherman.current_animation_index == old(self).fisherman.current_animation_index,
            final(self).fisherman.facing_left == old(self).fisherman.facing_left,
            final(self).hook.screen_region == old(self).hook.screen_region,
            final(self).line.screen_region == old(self).line.screen_region,
            final(self).fish.body.screen_region == old(self).fish.body.screen_region,
            final(self).fish.caught == old(self).fish.caught,
            final(self).large_fish.body.screen_region == old(self).large_fish.body.screen_region,
            final(self).large_fish.caught == old(self).large_fish.caught,
    {
        self.fisherman.advance_animation();
        self.hook.advance_animation();
        self.line.advance_animation();
        self.fish.body.advance_animation();
        self.large_fish.body.advance_animation();
    }

    /// Resolves each actor's sprite-sheet region and gathers what the
    /// renderer draws.
    pub fn render(&mut self) -> (r: RenderPayload)
        requires
            old(self).wf(),
        ensures
            final(self).wf(),
            final(self).state == old(self).state,
            final(self).fisherman.screen_region == old(self).fisherman.screen_region,
            final(self).fisherman.current_animation_index == old(self).fisherman.current_animation_index,
            final(self).fisherman.facing_left == old(self).fisherman.facing_left,
            final(self).hook.screen_region == old(self).hook.screen_region,
            final(self).line.screen_region == old(self).line.screen_region,
            final(self).fish.body.screen_region == old(self).fish.body.screen_region,
            final(self).fish.caught == old(self).fish.caught,
            final(self).large_fish.body.screen_region == old(self).large_fish.body.screen_region,
            final(self).large_fish.caught == old(self).large_fish.caught,
            final(self).fisherman.active().current_frame == old(self).fisherman.active().current_frame,
            final(self).fisherman.active().finished == old(self).fisherman.active().finished,
            final(self).renders_as(&r),
    {
        let fisherman_sheet = self.fisherman.get_current_animation_state();
        let hook_sheet = self.hook.get_current_animation_state();
        let line_sheet = self.line.get_current_animation_state();
        let fish_sheet = self.fish.body.get_current_animation_state();
        let large_fish_sheet = self.large_fish.body.get_current_animation_state();
        let sprites = vec![
            Sprite { screen_region: self.fisherman.screen_region, sheet_region: fisherman_sheet },
            Sprite { screen_region: self.hook.screen_region, sheet_region: hook_sheet },
            Sprite { screen_region: self.line.screen_region, sheet_region: line_sheet },
            Sprite { screen_region: self.fish.body.screen_region, sheet_region: fish_sheet },
            Sprite {
                screen_region: self.large_fish.body.screen_region,
                sheet_region: large_fish_sheet,
            },
        ];
        RenderPayload {
            screen: self.state.game_screen,
            sprites,
            status: status_text(self.state.score, self.state.secs_left),
        }
    }

    /// `r` shows this session: its screen, each actor in its slot with its
    /// screen region and the sheet region of its current frame, and the
    /// status line for its score and countdown.
    pub open spec fn renders_as(&self, r: &RenderPayload) -> bool {
        &&& r.screen == self.state.game_screen
        &&& r.sprites@.len() == SPRITE_COUNT
        &&& r.sprites@[FISHERMAN_SLOT as int] == (Sprite {
            screen_region: self.fisherman.screen_region,
            sheet_region: self.fisherman.active().source_rect(),
        })
        &&& r.sprites@[HOOK_SLOT as int] == (Sprite {
            screen_region: self.hook.screen_region,
            sheet_region: self.hook.active().source_rect(),
        })
        &&& r.sprites@[LINE_SLOT as int] == (Sprite {
            screen_region: self.line.screen_region,
            sheet_region: self.line.active().source_rect(),
        })
        &&& r.sprites@[FISH_SLOT as int] == (Sprite {
            screen_region: self.fish.body.screen_region,
            sheet_region: self.fish.body.active().source_rect(),
        })
        &&& r.sprites@[LARGE_FISH_SLOT as int] == (Sprite {
            screen_region: self.large_fish.body.screen_region,
            sheet_region: self.large_fish.body.active().source_rect(),
        })
        &&& r.status@ == status_line(self.state.score as nat, self.state.secs_left as nat)
    }

    /// Whether a tick that takes `action` on `before`, whose clock has
    /// already been brought to `state`, completes a reel-in.
    pub open spec fn completes_reel(before: Session, state: GameState, action: Action) -> bool {
        action == Action::Raise && state.is_currently_casted && before.hook.screen_region.y
            == HOOK_CEILING
    }

    /// The score after a tick that takes `action` on `before`, whose clock
    /// has already been brought to `state`.
    pub open spec fn score_after_tick(before: Session, state: GameState, action: Action) -> u64 {
        if action == Action::BackToTitle {
            0
        } else if Self::completes_reel(before, state, action) {
            Self::score_after_reel(
                state,
                catch_award(before.fish.caught, before.large_fish.caught),
            )
        } else {
            state.score
        }
    }

    /// Whether the line is out after a tick that takes `action` on `before`,
    /// whose clock has already been brought to `state`.
    pub open spec fn casting_after_tick(before: Session, state: GameState, action: Action) -> bool {
        if action == Action::Cast {
            true
        } else if action == Action::BackToTitle || Self::completes_reel(before, state, action) {
            false
        } else {
            state.is_currently_casted
        }
    }

    /// Where the hook is after a tick that takes `action` on `before`, whose
    /// clock has already been brought to `state`.
    pub open spec fn hook_after_tick(before: Session, state: GameState, action: Action) -> Rect {
        let f = before.fisherman.screen_region;
        let hook = before.hook;
        if action == Action::Cast && !state.is_currently_casted {
            Rect {
                x: (f.x + if before.fisherman.facing_left {
                    -38int
                } else {
                    38int
                }) as i64,
                y: (f.y - HOOK_DROP) as i64,
                w: HOOK_SIZE,
                h: HOOK_SIZE,
            }
        } else if action == Action::Lower && state.is_currently_casted {
            hook.lowered().screen_region
        } else if Self::completes_reel(before, state, action) {
            Rect { x: 0, y: 0, w: 0, h: 0 }
        } else if action == Action::Raise && state.is_currently_casted {
            hook.raised(HOOK_CEILING as int).screen_region
        } else if action == Action::BackToTitle {
            Rect { x: 20, y: 200, w: 0, h: 0 }
        } else {
            hook.screen_region
        }
    }

    /// Where the fisherman stands after a tick that takes `action` on
    /// `before`, whose clock has already been brought to `state`: a walking
    /// step is taken while the line is in, unless it would leave the stage.
    pub open spec fn fisherman_x_after_tick(before: Session, state: GameState, action: Action) -> int {
        let x = before.fisherman.screen_region.x;
        let speed = before.fisherman.speed;
        let target = if action == Action::WalkLeft {
            x - speed
        } else {
            x + speed
        };
        if (action == Action::WalkLeft || action == Action::WalkRight) && !state.is_currently_casted
            && on_stage(target) {
            target
        } else if action == Action::BackToTitle {
            100
        } else {
            x as int
        }
    }

    /// One tick of the game at wall-clock time `now` (milliseconds) with the
    /// keys in `input` held. The countdown is brought up to `now`, the fish
    /// swim or struggle, the input's action is taken, every animation moves
    /// on a tick, a hook that is out is checked against both fish, and what
    /// is to be drawn is returned.
    pub fn update(&mut self, input: &Input, now: u64) -> (r: RenderPayload)
        requires
            old(self).wf(),
        ensures
            final(self).wf(),
            final(self).renders_as(&r),
            ({
                let state = old(self).state.clock_step(now);
                let action = action_for(state.game_screen, *input);
                &&& final(self).state.game_screen == screen_after(state.game_screen, action)
                &&& final(self).state.score == Self::score_after_tick(*old(self), state, action)
                &&& final(self).state.is_currently_casted == Self::casting_after_tick(
                    *old(self),
                    state,
                    action,
                )
                &&& final(self).state.secs_left == if action == Action::BackToTitle {
                    ROUND_SECONDS
                } else {
                    state.secs_left
                }
                &&& final(self).hook.screen_region == Self::hook_after_tick(*old(self), state, action)
                &&& final(self).fisherman.screen_region.x == Self::fisherman_x_after_tick(
                    *old(self),
                    state,
                    action,
                )
            }),
    {
        self.state.advance_clock(now);
        self.fish.cruise();
        self.large_fish.cruise();
        let action = choose_action(self.state.game_screen, input);
        match action {
            Action::ShowInstructions => self.show_instructions(now),
            Action::StartRound => self.start_round(now),
            Action::EndRound => self.end_round(),
            Action::BackToTitle => self.back_to_title(),
            Action::WalkLeft => self.walk_fisherman(true),
            Action::WalkRight => self.walk_fisherman(false),
            Action::Lower => self.lower(),
            Action::Raise => self.raise(),
            Action::Cast => self.cast(),
            Action::Rest => self.rest(),
        }
        self.advance_animations();
        self.resolve_catches();
        self.render()
    }

    /// A new playthrough on the title screen, with every actor where a round
    /// begins: the fisherman standing idle facing right, hook and line out of
    /// sight, and both fish free.
    pub fn new() -> (r: Session)
        ensures
            r.wf(),
            r.state == GameState::initial(),
            r.fisherman.screen_region == (Rect { x: 100, y: 600, w: 100, h: 100 }),
            r.fisherman.current_animation_index == IDLE_ANIMATION,
            !r.fisherman.facing_left,
            r.fisherman.speed == 2,
            r.hook.screen_region == (Rect { x: 20, y: 200, w: 0, h: 0 }),
            r.hook.speed == 3,
            r.line.screen_region == (Rect { x: 100, y: 540, w: 0, h: 0 }),
            r.fish.body.screen_region == (Rect { x: 20, y: 20, w: 50, h: 30 }),
            r.fish.body.speed == 2,
            r.large_fish.body.screen_region == (Rect { x: 20, y: 80, w: 50, h: 30 }),
            r.large_fish.body.speed == 3,
            !r.fish.caught,
            !r.large_fish.caught,
    {
        let idle = Animation::new(fisherman_frames(&[0, 1, 2, 3], 214, 33, 48), 12, true, 33);
        let walking = Animation::new(
            fisherman_frames(&[0, 1, 2, 3, 4, 5], 264, 33, 48),
            12,
            true,
            33,
        );
        let casting = Animation::new(fisherman_frames(&[5, 4, 3, 2], 114, 48, 48), 12, false, 48);
        let reeling = Animation::new(fisherman_frames(&[2, 3, 4, 5], 114, 48, 48), 12, false, 48);
        let hook_anim = animation_of(vec![Rect { x: 291, y: 255, w: 100, h: 100 }], 50, 100);
        let line_anim = animation_of(vec![Rect { x: 381, y: 240, w: 10, h: 8 }], 50, 10);
        let fish_anim = animation_of(
            vec![Rect { x: 0, y: 1, w: 12, h: 6 }, Rect { x: 12, y: 1, w: 12, h: 6 }],
            12,
            12,
        );
        let large_fish_anim = animation_of(
            vec![Rect { x: 26, y: 2, w: 17, h: 12 }, Rect { x: 43, y: 2, w: 17, h: 12 }],
            12,
            17,
        );
        let fisherman_sheet = idle.current_source_rect();
        let hook_sheet = hook_anim.current_source_rect();
        let line_sheet = line_anim.current_source_rect();
        let fish_sheet = fish_anim.current_source_rect();
        let large_fish_sheet = large_fish_anim.current_source_rect();
        let fisherman = Char_action::new(
            Rect { x: 100, y: 600, w: 100, h: 100 },
            fisherman_sheet,
            vec![idle, walking, casting, reeling],
            IDLE_ANIMATION,
            2,
            false,
            FISHERMAN_SLOT,
        );
        let hook = Char_action::new(
            Rect { x: 20, y: 200, w: 0, h: 0 },
            hook_sheet,
            vec![hook_anim],
            0,
            3,
            false,
            HOOK_SLOT,
        );
        let line = Char_action::new(
            Rect { x: 100, y: 540, w: 0, h: 0 },
            line_sheet,
            vec![line_anim],
            0,
            3,
            false,
            LINE_SLOT,
        );
        let fish = Char_action::new(
            Rect { x: 20, y: 20, w: 50, h: 30 },
            fish_sheet,
            vec![fish_anim],
            0,
            2,
            false,
            FISH_SLOT,
        );
        let large_fish = Char_action::new(
            Rect { x: 20, y: 80, w: 50, h: 30 },
            large_fish_sheet,
            vec![large_fish_anim],
            0,
            3,
            false,
            LARGE_FISH_SLOT,
        );
        Session {
            state: GameState::init_game_state(),
            fisherman,
            hook,
            line,
            fish: Fish::new(fish),
            large_fish: Fish::new(large_fish),
        }
    }
}

} // verus!
