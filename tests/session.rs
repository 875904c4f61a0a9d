use fishful::actor::HOOK_CEILING;
use fishful::game_state::{GameState, Screen, ROUND_SECONDS};
use fishful::geometry::Rect;
use fishful::session::{
    award_for, cast_offsets, choose_action, Action, Input, Phase, Session, CAST_ANIMATION,
    IDLE_ANIMATION, REEL_ANIMATION, SPRITE_COUNT, WALK_ANIMATION,
};
use fishful::text::status_text;

fn keys(f: impl FnOnce(&mut Input)) -> Input {
    let mut i = Input::idle();
    f(&mut i);
    i
}

/// A session in play with both fish parked far from the hook's path.
fn playing_session() -> Session {
    let mut s = Session::new();
    s.state.game_screen = Screen::Playing;
    s.fish.body.screen_region = Rect::new(600, 740, 50, 30);
    s.large_fish.body.screen_region = Rect::new(300, 740, 50, 30);
    s
}

#[test]
fn init_game_state_starts_on_title() {
    let g = GameState::init_game_state();
    assert_eq!(g.score, 0);
    assert!(!g.score_changing);
    assert!(!g.is_currently_casted);
    assert_eq!(g.game_screen, Screen::Title);
    assert_eq!(g.secs_left, 30);
}

#[test]
fn new_session_layout() {
    let s = Session::new();
    assert_eq!(s.fisherman.screen_region, Rect::new(100, 600, 100, 100));
    assert_eq!(s.hook.screen_region, Rect::new(20, 200, 0, 0));
    assert_eq!(s.line.screen_region, Rect::new(100, 540, 0, 0));
    assert_eq!(s.fish.body.screen_region, Rect::new(20, 20, 50, 30));
    assert_eq!(s.large_fish.body.screen_region, Rect::new(20, 80, 50, 30));
    let slots = [
        s.fisherman.sprites_index,
        s.hook.sprites_index,
        s.line.sprites_index,
        s.fish.body.sprites_index,
        s.large_fish.body.sprites_index,
    ];
    assert_eq!(slots, [0, 1, 2, 3, 4]);
    assert_eq!(s.fisherman.animations[0].current_source_rect(), Rect::new(0, 214, 33, 48));
    assert_eq!(s.fisherman.animations[2].current_source_rect(), Rect::new(240, 114, 48, 48));
}

#[test]
fn action_priority() {
    assert_eq!(choose_action(Screen::Title, &keys(|i| i.confirm = true)), Action::ShowInstructions);
    assert_eq!(choose_action(Screen::Playing, &keys(|i| i.confirm = true)), Action::Rest);
    assert_eq!(choose_action(Screen::Instructions, &keys(|i| i.play = true)), Action::StartRound);
    assert_eq!(choose_action(Screen::Playing, &keys(|i| i.end = true)), Action::EndRound);
    assert_eq!(choose_action(Screen::GameOver, &keys(|i| i.restart = true)), Action::BackToTitle);
    assert_eq!(choose_action(Screen::Title, &keys(|i| i.restart = true)), Action::Rest);
    let many = keys(|i| {
        i.left = true;
        i.right = true;
        i.up = true;
    });
    assert_eq!(choose_action(Screen::Playing, &many), Action::WalkLeft);
    assert_eq!(choose_action(Screen::Playing, &keys(|i| {
        i.down = true;
        i.up = true;
    })), Action::Lower);
    assert_eq!(choose_action(Screen::Playing, &keys(|i| i.up = true)), Action::Raise);
    assert_eq!(choose_action(Screen::Playing, &keys(|i| i.cast = true)), Action::Cast);
}

#[test]
fn awards() {
    assert_eq!(award_for(false, false), 0);
    assert_eq!(award_for(true, false), 1);
    assert_eq!(award_for(false, true), 2);
    assert_eq!(award_for(true, true), 4);
}

#[test]
fn cast_offsets_by_facing() {
    let l = cast_offsets(true);
    assert_eq!((l.hook_dx, l.line_dx), (-38, 12));
    let r = cast_offsets(false);
    assert_eq!((r.hook_dx, r.line_dx), (38, 90));
}

#[test]
fn status_line_text() {
    assert_eq!(status_text(12, 30), "Score: 12     Timer: 30");
    assert_eq!(status_text(0, 0), "Score: 0     Timer: 0");
    assert_eq!(
        status_text(u64::MAX, 7),
        format!("Score: {}     Timer: 7", u64::MAX)
    );
}

#[test]
fn screens_cycle() {
    let mut s = Session::new();
    s.update(&keys(|i| i.confirm = true), 1_000);
    assert_eq!(s.state.game_screen, Screen::Instructions);
    s.update(&keys(|i| i.play = true), 2_000);
    assert_eq!(s.state.game_screen, Screen::Playing);
    assert_eq!(s.state.round_start_ms, 2_000);
    s.update(&keys(|i| i.end = true), 3_000);
    assert_eq!(s.state.game_screen, Screen::GameOver);
    s.state.score = 9;
    let p = s.update(&keys(|i| i.restart = true), 4_000);
    assert_eq!(s.state.game_screen, Screen::Title);
    assert_eq!(p.screen, Screen::Title);
    assert_eq!(s.state.score, 0);
    assert_eq!(s.state.secs_left, ROUND_SECONDS);
}

#[test]
fn key_only_changes_screen_from_its_source() {
    let mut s = Session::new();
    s.update(&keys(|i| i.play = true), 1_000);
    assert_eq!(s.state.game_screen, Screen::Title);
    s.update(&keys(|i| i.end = true), 1_000);
    assert_eq!(s.state.game_screen, Screen::Title);
}

#[test]
fn countdown_ends_round_once() {
    let mut s = Session::new();
    s.update(&keys(|i| i.confirm = true), 0);
    s.update(&keys(|i| i.play = true), 10_000);
    assert_eq!(s.state.secs_left, 30);
    let mut transitions = 0;
    let mut last = s.state.game_screen;
    let mut t = 10_000;
    while t <= 10_000 + 45_000 {
        s.update(&Input::idle(), t);
        if s.state.game_screen != last {
            transitions += 1;
            assert_eq!(s.state.game_screen, Screen::GameOver);
            assert!(t >= 40_000);
            last = s.state.game_screen;
        }
        t += 250;
    }
    assert_eq!(transitions, 1);
    assert_eq!(s.state.game_screen, Screen::GameOver);
}

#[test]
fn countdown_steps_once_per_second() {
    let mut s = Session::new();
    s.update(&keys(|i| i.confirm = true), 0);
    s.update(&keys(|i| i.play = true), 0);
    s.update(&Input::idle(), 999);
    assert_eq!(s.state.secs_left, 30);
    let p = s.update(&Input::idle(), 1_000);
    assert_eq!(s.state.secs_left, 29);
    assert_eq!(p.status, "Score: 0     Timer: 29");
    s.update(&Input::idle(), 1_500);
    assert_eq!(s.state.secs_left, 29);
    s.update(&Input::idle(), 2_000);
    assert_eq!(s.state.secs_left, 28);
}

#[test]
fn walking_moves_and_faces_the_fisherman() {
    let mut s = playing_session();
    s.update(&keys(|i| i.left = true), 0);
    assert_eq!(s.fisherman.screen_region.x, 98);
    assert!(s.fisherman.facing_left);
    assert_eq!(s.fisherman.current_animation_index, WALK_ANIMATION);
    assert_eq!(s.phase(), Phase::Walking);
    s.update(&keys(|i| i.right = true), 0);
    assert_eq!(s.fisherman.screen_region.x, 100);
    assert!(!s.fisherman.facing_left);
    s.update(&Input::idle(), 0);
    assert_eq!(s.fisherman.current_animation_index, IDLE_ANIMATION);
    assert_eq!(s.phase(), Phase::Idle);
}

#[test]
fn cast_places_hook_and_line() {
    let mut s = playing_session();
    s.update(&keys(|i| i.cast = true), 0);
    assert!(s.state.is_currently_casted);
    assert_eq!(s.hook.screen_region, Rect::new(138, 500, 100, 100));
    assert_eq!(s.line.screen_region, Rect::new(190, 600, 10, 0));
    assert_eq!(s.fisherman.current_animation_index, CAST_ANIMATION);
    assert_eq!(s.phase(), Phase::Casting);

    let mut t = playing_session();
    t.update(&keys(|i| i.left = true), 0);
    t.update(&keys(|i| i.cast = true), 0);
    assert_eq!(t.hook.screen_region, Rect::new(60, 500, 100, 100));
    assert_eq!(t.line.screen_region, Rect::new(110, 600, 10, 0));
}

#[test]
fn walking_is_ignored_while_cast() {
    let mut s = playing_session();
    s.update(&keys(|i| i.cast = true), 0);
    s.update(&keys(|i| i.left = true), 0);
    assert_eq!(s.fisherman.screen_region.x, 100);
    assert!(!s.fisherman.facing_left);
}

#[test]
fn lowering_stretches_the_line() {
    let mut s = playing_session();
    s.update(&keys(|i| i.cast = true), 0);
    s.update(&keys(|i| i.down = true), 0);
    assert_eq!(s.hook.screen_region.y, 497);
    assert_eq!(s.line.screen_region.h, 497 - 768 + 250);
}

#[test]
fn hook_reels_in_exactly_at_ceiling() {
    let mut s = playing_session();
    s.update(&keys(|i| i.cast = true), 0);
    s.hook.screen_region.y = 100;
    let up = keys(|i| i.up = true);
    let mut raises = 0;
    while s.hook.screen_region.y < HOOK_CEILING {
        let before = s.hook.screen_region.y;
        s.update(&up, 0);
        raises += 1;
        assert!(s.state.is_currently_casted);
        assert!(s.hook.screen_region.y <= HOOK_CEILING);
        assert_eq!(s.line.screen_region.h, s.hook.screen_region.y - 768 + 250);
        assert!(s.hook.screen_region.y > before);
    }
    assert_eq!(s.hook.screen_region.y, 500);
    assert_eq!(raises, 134);
    s.update(&up, 0);
    assert!(!s.state.is_currently_casted);
    assert_eq!(s.hook.screen_region, Rect::new(0, 0, 0, 0));
    assert_eq!(s.line.screen_region, Rect::new(0, 0, 0, 0));
    assert_eq!(s.fisherman.current_animation_index, REEL_ANIMATION);
    assert_eq!(s.phase(), Phase::Reeling);
}

/// Hook lowered onto a fish at (hook.x, hook.y + 20).
fn hooked(s: &mut Session, small: bool, large: bool) {
    s.update(&keys(|i| i.cast = true), 0);
    let h = s.hook.screen_region;
    if small {
        s.fish.body.screen_region = Rect::new(h.x + 10, h.y - 20, 50, 30);
    }
    if large {
        s.large_fish.body.screen_region = Rect::new(h.x + 20, h.y - 10, 50, 30);
    }
    s.update(&Input::idle(), 0);
}

fn reel_all_the_way(s: &mut Session) {
    let up = keys(|i| i.up = true);
    let mut guard = 0;
    while s.state.is_currently_casted {
        s.update(&up, 0);
        guard += 1;
        assert!(guard < 1000);
    }
}

#[test]
fn small_fish_alone_scores_one() {
    let mut s = playing_session();
    hooked(&mut s, true, false);
    assert!(s.fish.caught);
    assert!(!s.large_fish.caught);
    assert!(!s.state.score_changing);
    reel_all_the_way(&mut s);
    assert_eq!(s.state.score, 1);
    assert!(s.state.score_changing);
    assert!(!s.fish.caught);
    assert_eq!(s.fish.body.screen_region.x, 1024);
    // the lock holds until a new catch begins
    for _ in 0..5 {
        s.update(&Input::idle(), 0);
        assert!(s.state.score_changing);
    }
    hooked(&mut s, true, false);
    assert!(s.fish.caught);
    assert!(!s.state.score_changing);
    reel_all_the_way(&mut s);
    assert_eq!(s.state.score, 2);
}

#[test]
fn large_fish_alone_scores_two() {
    let mut s = playing_session();
    hooked(&mut s, false, true);
    assert!(s.large_fish.caught && !s.fish.caught);
    reel_all_the_way(&mut s);
    assert_eq!(s.state.score, 2);
}

#[test]
fn both_fish_together_score_four() {
    let mut s = playing_session();
    hooked(&mut s, true, true);
    assert!(s.fish.caught && s.large_fish.caught);
    reel_all_the_way(&mut s);
    assert_eq!(s.state.score, 4);
    assert!(!s.fish.caught && !s.large_fish.caught);
}

#[test]
fn locked_score_is_not_awarded_twice() {
    let mut s = playing_session();
    hooked(&mut s, true, false);
    s.state.score_changing = true;
    reel_all_the_way(&mut s);
    assert_eq!(s.state.score, 0);
    assert!(!s.fish.caught);
}

#[test]
fn empty_hook_scores_nothing() {
    let mut s = playing_session();
    s.update(&keys(|i| i.cast = true), 0);
    s.update(&keys(|i| i.up = true), 0);
    assert!(!s.state.is_currently_casted);
    assert_eq!(s.state.score, 0);
    assert!(!s.state.score_changing);
}

#[test]
fn caught_fish_follows_the_hook() {
    let mut s = playing_session();
    hooked(&mut s, true, false);
    assert_eq!(s.fish.body.screen_region.y, s.hook.screen_region.y);
    for _ in 0..10 {
        s.update(&keys(|i| i.down = true), 0);
        assert_eq!(s.fish.body.screen_region.y, s.hook.screen_region.y);
    }
    s.update(&keys(|i| i.up = true), 0);
    assert_eq!(s.fish.body.screen_region.y, s.hook.screen_region.y);
}

#[test]
fn render_payload_follows_slots() {
    let mut s = playing_session();
    s.state.score = 3;
    let p = s.update(&keys(|i| i.cast = true), 0);
    assert_eq!(p.sprites.len(), SPRITE_COUNT);
    assert_eq!(p.sprites[0].screen_region, s.fisherman.screen_region);
    assert_eq!(p.sprites[1].screen_region, Rect::new(138, 500, 100, 100));
    assert_eq!(p.sprites[1].sheet_region, Rect::new(291, 255, 100, 100));
    assert_eq!(p.sprites[2].sheet_region, Rect::new(381, 240, 10, 8));
    assert_eq!(p.sprites[3].screen_region, s.fish.body.screen_region);
    assert_eq!(p.sprites[4].screen_region, s.large_fish.body.screen_region);
    assert_eq!(p.screen, Screen::Playing);
    assert_eq!(p.status, "Score: 3     Timer: 30");
}

#[test]
fn facing_left_mirrors_fisherman_sprite() {
    let mut s = playing_session();
    let p = s.update(&keys(|i| i.left = true), 0);
    let sheet = p.sprites[0].sheet_region;
    assert_eq!(sheet.w, -33);
    assert_eq!(sheet.x % 48, 33);
}

#[test]
fn reset_releases_fish() {
    let mut s = playing_session();
    hooked(&mut s, true, true);
    s.update(&keys(|i| i.end = true), 0);
    s.update(&keys(|i| i.restart = true), 0);
    assert_eq!(s.state.game_screen, Screen::Title);
    assert!(!s.state.is_currently_casted);
    assert!(!s.fish.caught && !s.large_fish.caught);
    assert_eq!(s.hook.screen_region, Rect::new(20, 200, 0, 0));
    assert_eq!(s.fisherman.screen_region, Rect::new(100, 600, 100, 100));
    assert_eq!(s.line.screen_region, Rect::new(100, 540, 0, 0));
}

#[test]
fn cast_animation_ends_in_deployed_phase() {
    let mut s = playing_session();
    s.update(&keys(|i| i.cast = true), 0);
    assert_eq!(s.phase(), Phase::Casting);
    for _ in 0..(12 * 4) {
        s.update(&Input::idle(), 0);
    }
    assert_eq!(s.phase(), Phase::Deployed);
    assert!(s.state.is_currently_casted);
}
