use vstd::prelude::*;

verus! {

/// Seconds a round lasts.
pub const ROUND_SECONDS: u64 = 30;

/// Milliseconds a round lasts.
pub const ROUND_MS: u64 = ROUND_SECONDS * 1000;

/// Milliseconds between two steps of the countdown.
pub const SECOND_MS: u64 = 1000;

/// The top-level screens, visited in a cycle.
#[derive(Clone, Copy, Debug, PartialEq, Eq, Structural)]
pub enum Screen {
    Title,
    Instructions,
    Playing,
    GameOver,
}

/// Time from `since` to `now`, or 0 when `now` is earlier.
pub open spec fn elapsed(since: u64, now: u64) -> int {
    if now >= since {
        now - since
    } else {
        0
    }
}

/// The state of one playthrough: screen, score, countdown and whether the
/// line is out. Times are wall-clock milliseconds on the host's clock.
pub struct GameState {
    pub score: u64,
    /// Set once a catch has been scored, so that it cannot be scored again;
    /// lifted when a new catch begins.
    pub score_changing: bool,
    pub is_currently_casted: bool,
    pub game_screen: Screen,
    pub secs_left: u64,
    /// When the round began.
    pub round_start_ms: u64,
    /// When the countdown last stepped.
    pub last_second_ms: u64,
}

impl GameState {
    /// The state at the start of a playthrough.
    pub open spec fn initial() -> GameState {
        GameState {
            score: 0,
            score_changing: false,
            is_currently_casted: false,
            game_screen: Screen::Title,
            secs_left: ROUND_SECONDS,
            round_start_ms: 0,
            last_second_ms: 0,
        }
    }

    /// The state after the clock reads `now`. While playing, the round ends
    /// once it has lasted `ROUND_MS`; until then the countdown steps down by
    /// one, to no lower than 0, whenever a second has passed since it last
    /// stepped. On other screens the clock changes nothing.
    pub open spec fn clock_step(self, now: u64) -> GameState {
        if self.game_screen != Screen::Playing {
            self
        } else if elapsed(self.round_start_ms, now) >= ROUND_MS {
            GameState { game_screen: Screen::GameOver, last_second_ms: now, ..self }
        } else if elapsed(self.last_second_ms, now) >= SECOND_MS {
            GameState {
                secs_left: if self.secs_left > 0 {
                    (self.secs_left - 1) as u64
                } else {
                    0
                },
                last_second_ms: now,
                ..self
            }
        } else {
            self
        }
    }

    pub fn init_game_state() -> (r: GameState)
        ensures
            r == GameState::initial(),
    {
        GameState {
            score: 0,
            score_changing: false,
            is_currently_casted: false,
            game_screen: Screen::Title,
            secs_left: ROUND_SECONDS,
            round_start_ms: 0,
            last_second_ms: 0,
        }
    }

    /// Brings the countdown up to the time `now`.
    pub fn advance_clock(&mut self, now: u64)
        ensures
            *final(self) == old(self).clock_step(now),
    {
        if self.game_screen == Screen::Playing {
            let since_start = if now >= self.round_start_ms {
                now - self.round_start_ms
            } else {
                0
            };
            let since_step = if now >= self.last_second_ms {
                now - self.last_second_ms
            } else {
                0
            };
            if since_start >= ROUND_MS {
                self.game_screen = Screen::GameOver;
                self.last_second_ms = now;
            } else if since_step >= SECOND_MS {
                if self.secs_left > 0 {
                    self.secs_left = self.secs_left - 1;
                }
                self.last_second_ms = now;
            }
        }
    }
}

/// The countdown ends a round once: a round that has lasted `ROUND_MS` by the
/// time `now` is over, and reading the clock again at any later time `later`
/// leaves it over and changes nothing more.
pub proof fn lemma_round_ends_once(s: GameState, now: u64, later: u64)
    requires
        s.game_screen == Screen::Playing,
        elapsed(s.round_start_ms, now) >= ROUND_MS,
    ensures
        s.clock_step(now).game_screen == Screen::GameOver,
        s.clock_step(now).clock_step(later) == s.clock_step(now),
{
}

} // verus!
