use vstd::prelude::*;
use vstd::arithmetic::div_mod::{
    lemma_fundamental_div_mod, lemma_fundamental_div_mod_converse, lemma_mod_multiples_vanish,
    lemma_small_mod,
};
use crate::geometry::{in_limit, Rect};

verus! {

/// The abstract state of an [`Animation`].
pub struct AnimationView {
    pub frames: Seq<Rect>,
    pub current_frame: nat,
    pub tick_counter: nat,
    pub ticks_per_frame: nat,
    pub facing_left: bool,
    pub looping: bool,
    pub finished: bool,
    pub reference_width: int,
}

impl AnimationView {
    /// At least one frame, a positive frame length, frame and counter in
    /// range, and a finished animation is a one-shot on its last frame.
    pub open spec fn wf(self) -> bool {
        &&& self.frames.len() > 0
        &&& self.ticks_per_frame > 0
        &&& self.current_frame < self.frames.len()
        &&& self.tick_counter < self.ticks_per_frame
        &&& self.finished ==> !self.looping && self.current_frame == self.frames.len() - 1
    }

    /// The state after one tick: the counter moves on, and each time it has
    /// counted `ticks_per_frame` ticks the frame steps forward. Past the last
    /// frame a looping animation starts over; any other one stays on its last
    /// frame and is finished.
    pub open spec fn advanced(self) -> AnimationView {
        if self.tick_counter + 1 < self.ticks_per_frame {
            AnimationView { tick_counter: self.tick_counter + 1, ..self }
        } else if self.current_frame + 1 < self.frames.len() {
            AnimationView { tick_counter: 0, current_frame: self.current_frame + 1, ..self }
        } else if self.looping {
            AnimationView { tick_counter: 0, current_frame: 0, ..self }
        } else {
            AnimationView { tick_counter: 0, finished: true, ..self }
        }
    }

    /// The state after `n` ticks.
    pub open spec fn advanced_by(self, n: nat) -> AnimationView
        decreases n,
    {
        if n == 0 {
            self
        } else {
            self.advanced_by((n - 1) as nat).advanced()
        }
    }

    /// Ticks the animation has run since its first frame was shown.
    pub open spec fn phase(self) -> nat {
        self.current_frame * self.ticks_per_frame + self.tick_counter
    }

    /// Ticks one full pass through all frames takes.
    pub open spec fn period(self) -> nat {
        self.frames.len() * self.ticks_per_frame
    }

    /// Ticks left before a non-looping animation is finished.
    pub open spec fn ticks_to_finish(self) -> nat {
        if self.finished {
            0
        } else {
            ((self.frames.len() - 1 - self.current_frame) * self.ticks_per_frame + (
            self.ticks_per_frame - self.tick_counter)) as nat
        }
    }

    /// The same animation shown from its first frame again.
    pub open spec fn rewound(self) -> AnimationView {
        AnimationView { current_frame: 0, tick_counter: 0, finished: false, ..self }
    }

    /// The region of the sprite sheet to draw: the current frame, mirrored
    /// about `reference_width` when facing left.
    pub open spec fn source_rect(self) -> Rect {
        let f = self.frames[self.current_frame as int];
        if self.facing_left {
            Rect { x: (f.x + self.reference_width) as i64, y: f.y, w: (-f.w) as i64, h: f.h }
        } else {
            f
        }
    }
}

proof fn lemma_phase_below_period(a: AnimationView)
    requires
        a.wf(),
    ensures
        a.phase() < a.period(),
{
    let f = a.current_frame as int;
    let t = a.tick_counter as int;
    let n = a.frames.len() as int;
    let k = a.ticks_per_frame as int;
    assert((f + 1) * k <= n * k) by (nonlinear_arith)
        requires
            0 <= f < n,
            0 < k,
    ;
    assert((f + 1) * k == f * k + k) by (nonlinear_arith);
}

/// One tick moves a looping animation one step around its cycle.
proof fn lemma_looping_step(a: AnimationView)
    requires
        a.wf(),
        a.looping,
    ensures
        a.advanced().wf(),
        a.advanced().frames == a.frames,
        a.advanced().ticks_per_frame == a.ticks_per_frame,
        a.advanced().looping,
        a.advanced().phase() == (a.phase() + 1) as int % (a.period() as int),
{
    let f = a.current_frame as int;
    let t = a.tick_counter as int;
    let n = a.frames.len() as int;
    let k = a.ticks_per_frame as int;
    let b = a.advanced();
    lemma_phase_below_period(a);
    assert((f + 1) * k == f * k + k) by (nonlinear_arith);
    if t + 1 < k {
        assert((f + 1) * k <= n * k) by (nonlinear_arith)
            requires
                0 <= f < n,
                0 < k,
        ;
        lemma_small_mod((a.phase() + 1) as nat, a.period());
    } else if f + 1 < n {
        assert((f + 1) * k < n * k) by (nonlinear_arith)
            requires
                f + 1 < n,
                0 < k,
        ;
        lemma_small_mod((a.phase() + 1) as nat, a.period());
    } else {
        assert(a.phase() + 1 == a.period()) by (nonlinear_arith)
            requires
                f + 1 == n,
                t + 1 == k,
                a.phase() == f * k + t,
                a.period() == n * k,
        ;
        lemma_mod_multiples_vanish(1, 0, a.period() as int);
        assert(b.phase() == 0) by (nonlinear_arith)
            requires
                b.current_frame == 0,
                b.tick_counter == 0,
                b.phase() == b.current_frame * b.ticks_per_frame + b.tick_counter,
        ;
    }
}

/// After `n` ticks a looping animation is `n` steps further around its cycle.
proof fn lemma_looping_phase(a: AnimationView, n: nat)
    requires
        a.wf(),
        a.looping,
    ensures
        a.advanced_by(n).wf(),
        a.advanced_by(n).frames == a.frames,
        a.advanced_by(n).ticks_per_frame == a.ticks_per_frame,
        a.advanced_by(n).looping,
        a.advanced_by(n).phase() == (a.phase() + n) as int % (a.period() as int),
    decreases n,
{
    lemma_phase_below_period(a);
    if n == 0 {
        lemma_small_mod(a.phase(), a.period());
    } else {
        let m = (n - 1) as nat;
        let p = a.period() as int;
        lemma_looping_phase(a, m);
        let prev = a.advanced_by(m);
        lemma_looping_step(prev);
        let x = (a.phase() + m) as int;
        lemma_fundamental_div_mod(x, p);
        lemma_mod_multiples_vanish(x / p, x % p + 1, p);
        assert(p * (x / p) + (x % p + 1) == x + 1);
    }
}

/// Looping animations are periodic: after a whole number of passes through
/// their frames (`k * ticks_per_frame * frames.len()` ticks) they show the
/// frame they started on, at the same point within it.
pub proof fn lemma_looping_animation_is_periodic(a: AnimationView, k: nat)
    requires
        a.wf(),
        a.looping,
    ensures
        a.advanced_by(k * a.ticks_per_frame * a.frames.len()).current_frame == a.current_frame,
        a.advanced_by(k * a.ticks_per_frame * a.frames.len()).tick_counter == a.tick_counter,
{
    let p = a.period() as int;
    let n = k * a.ticks_per_frame * a.frames.len();
    assert(n == p * k) by (nonlinear_arith)
        requires
            n == k * a.ticks_per_frame * a.frames.len(),
            p == a.frames.len() * a.ticks_per_frame,
    ;
    lemma_looping_phase(a, n);
    lemma_phase_below_period(a);
    lemma_mod_multiples_vanish(k as int, a.phase() as int, p);
    lemma_small_mod(a.phase(), a.period());
    let b = a.advanced_by(n);
    let tpf = a.ticks_per_frame as int;
    lemma_fundamental_div_mod_converse(
        a.phase() as int,
        tpf,
        b.current_frame as int,
        b.tick_counter as int,
    );
    lemma_fundamental_div_mod_converse(
        a.phase() as int,
        tpf,
        a.current_frame as int,
        a.tick_counter as int,
    );
}

/// A non-looping animation that has not finished gets one tick closer to it.
proof fn lemma_one_shot_step(a: AnimationView)
    requires
        a.wf(),
        !a.looping,
    ensures
        a.advanced().wf(),
        !a.advanced().looping,
        a.advanced().frames == a.frames,
        a.advanced().ticks_per_frame == a.ticks_per_frame,
        a.advanced().ticks_to_finish() == if a.finished {
            0
        } else {
            (a.ticks_to_finish() - 1) as nat
        },
{
    let f = a.current_frame as int;
    let n = a.frames.len() as int;
    let k = a.ticks_per_frame as int;
    assert((n - 1 - f) * k == (n - 2 - f) * k + k) by (nonlinear_arith);
    assert(0 * k == 0) by (nonlinear_arith);
}

proof fn lemma_one_shot_progress(a: AnimationView, m: nat)
    requires
        a.wf(),
        !a.looping,
    ensures
        a.advanced_by(m).wf(),
        !a.advanced_by(m).looping,
        a.advanced_by(m).frames == a.frames,
        a.advanced_by(m).ticks_to_finish() == if m >= a.ticks_to_finish() {
            0
        } else {
            (a.ticks_to_finish() - m) as nat
        },
    decreases m,
{
    if m > 0 {
        lemma_one_shot_progress(a, (m - 1) as nat);
        lemma_one_shot_step(a.advanced_by((m - 1) as nat));
    }
}

/// A non-looping animation ends: once it has run `ticks_per_frame *
/// frames.len()` ticks, and at every tick after that, it is finished and shows
/// its last frame.
pub proof fn lemma_one_shot_animation_settles(a: AnimationView, n: nat)
    requires
        a.wf(),
        !a.looping,
        n >= a.ticks_per_frame * a.frames.len(),
    ensures
        a.advanced_by(n).finished,
        a.advanced_by(n).current_frame == a.frames.len() - 1,
{
    let f = a.current_frame as int;
    let len = a.frames.len() as int;
    let k = a.ticks_per_frame as int;
    assert((len - 1 - f) * k + k <= k * len) by (nonlinear_arith)
        requires
            0 <= f < len,
            0 < k,
    ;
    lemma_one_shot_progress(a, n);
    let b = a.advanced_by(n);
    if !b.finished {
        assert(b.ticks_per_frame - b.tick_counter > 0);
        assert((len - 1 - b.current_frame) * k >= 0) by (nonlinear_arith)
            requires
                b.current_frame < len,
                0 < k,
        ;
    }
}

/// A sequence of sprite-sheet frames shown one after another, each for a
/// fixed number of ticks.
pub struct Animation {
    pub frames: Vec<Rect>,
    pub current_frame: usize,
    /// Ticks counted since the frame last changed.
    pub tick_counter: u64,
    pub ticks_per_frame: u64,
    pub facing_left: bool,
    pub looping: bool,
    pub finished: bool,
    /// Offset added to a frame's x when it is mirrored to face left.
    pub reference_width: i64,
}

impl View for Animation {
    type V = AnimationView;

    open spec fn view(&self) -> AnimationView {
        AnimationView {
            frames: self.frames@,
            current_frame: self.current_frame as nat,
            tick_counter: self.tick_counter as nat,
            ticks_per_frame: self.ticks_per_frame as nat,
            facing_left: self.facing_left,
            looping: self.looping,
            finished: self.finished,
            reference_width: self.reference_width as int,
        }
    }
}

impl Animation {
    /// Frames and mirror offset stay within the world's coordinate limit.
    pub open spec fn wf(&self) -> bool {
        &&& self@.wf()
        &&& forall|i: int| 0 <= i < self.frames@.len() ==> (#[trigger] self.frames@[i]).bounded()
        &&& in_limit(self.reference_width as int)
    }

    /// A new animation on its first frame, facing right.
    pub fn new(frames: Vec<Rect>, ticks_per_frame: u64, looping: bool, reference_width: i64) -> (r:
        Animation)
        requires
            frames@.len() > 0,
            ticks_per_frame > 0,
            forall|i: int| 0 <= i < frames@.len() ==> (#[trigger] frames@[i]).bounded(),
            in_limit(reference_width as int),
        ensures
            r.wf(),
            r@.frames == frames@,
            r@.ticks_per_frame == ticks_per_frame,
            r@.looping == looping,
            r@.reference_width == reference_width,
            r@.current_frame == 0,
            r@.tick_counter == 0,
            !r@.facing_left,
            !r@.finished,
    {
        Animation {
            frames,
            current_frame: 0,
            tick_counter: 0,
            ticks_per_frame,
            facing_left: false,
            looping,
            finished: false,
            reference_width,
        }
    }

    /// One tick of the animation.
    pub fn advance(&mut self)
        requires
            old(self).wf(),
        ensures
            final(self).wf(),
            final(self)@ == old(self)@.advanced(),
    {
        let next = self.tick_counter + 1;
        if next < self.ticks_per_frame {
            self.tick_counter = next;
        } else {
            self.tick_counter = 0;
            if self.current_frame < self.frames.len() - 1 {
                self.current_frame = self.current_frame + 1;
            } else if self.looping {
                self.current_frame = 0;
            } else {
                self.finished = true;
            }
        }
    }

    /// Back to the first frame, not finished.
    pub fn rewind(&mut self)
        requires
            old(self).wf(),
        ensures
            final(self).wf(),
            final(self)@ == old(self)@.rewound(),
    {
        self.current_frame = 0;
        self.tick_counter = 0;
        self.finished = false;
    }

    /// Sets the direction the frames are drawn in.
    pub fn set_facing(&mut self, left: bool)
        requires
            old(self).wf(),
        ensures
            final(self).wf(),
            final(self)@ == (AnimationView { facing_left: left, ..old(self)@ }),
    {
        self.facing_left = left;
    }

    /// Whether the animation has nothing left to play: it loops, or it has
    /// reached its end.
    pub fn is_settled(&self) -> (r: bool)
        ensures
            r == (self.looping || self.finished),
    {
        self.looping || self.finished
    }

    /// The sprite-sheet region of the current frame, mirrored when facing left.
    pub fn current_source_rect(&self) -> (r: Rect)
        requires
            self.wf(),
        ensures
            r == self@.source_rect(),
    {
        let f = self.frames[self.current_frame];
        if self.facing_left {
            Rect { x: f.x + self.reference_width, y: f.y, w: -f.w, h: f.h }
        } else {
            f
        }
    }
}

} // verus!
