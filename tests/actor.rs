use fishful::actor::{Char_action, HOOK_CEILING};
use fishful::animation::Animation;
use fishful::catch::Fish;
use fishful::geometry::{Rect, WORLD_HEIGHT, WORLD_WIDTH};

fn anim() -> Animation {
    Animation::new(vec![Rect::new(0, 0, 12, 6), Rect::new(12, 0, 12, 6)], 1, true, 12)
}

fn actor_at(x: i64, y: i64, speed: i64) -> Char_action {
    Char_action::new(
        Rect::new(x, y, 50, 30),
        Rect::new(0, 0, 12, 6),
        vec![anim(), anim()],
        0,
        speed,
        false,
        3,
    )
}

#[test]
fn new_keeps_its_arguments() {
    let a = actor_at(7, 9, 4);
    assert_eq!(a.screen_region, Rect::new(7, 9, 50, 30));
    assert_eq!(a.speed, 4);
    assert_eq!(a.sprites_index, 3);
    assert_eq!(a.current_animation_index, 0);
    assert!(!a.facing_left);
}

#[test]
fn walk_follows_facing() {
    let mut a = actor_at(100, 50, 2);
    a.walk();
    assert_eq!(a.screen_region.x, 102);
    a.face_left();
    a.walk();
    a.walk();
    assert_eq!(a.screen_region.x, 98);
    assert_eq!(a.screen_region.y, 50);
}

#[test]
fn facing_mirrors_only_the_animation() {
    let mut a = actor_at(100, 50, 2);
    a.face_left();
    assert!(a.facing_left);
    assert!(a.animations[0].facing_left);
    assert!(!a.animations[1].facing_left);
    assert_eq!(a.screen_region, Rect::new(100, 50, 50, 30));
    a.face_right();
    assert!(!a.facing_left);
    assert!(!a.animations[0].facing_left);
}

#[test]
fn travel_down_stops_at_the_floor() {
    let mut a = actor_at(0, 5, 3);
    a.travel_down();
    assert_eq!(a.screen_region.y, 2);
    a.travel_down();
    assert_eq!(a.screen_region.y, 0);
    a.travel_down();
    assert_eq!(a.screen_region.y, 0);
}

#[test]
fn travel_up_lands_exactly_on_the_ceiling() {
    let mut a = actor_at(0, 495, 3);
    a.travel_up();
    assert_eq!(a.screen_region.y, 498);
    a.travel_up();
    assert_eq!(a.screen_region.y, HOOK_CEILING);
    a.travel_up();
    assert_eq!(a.screen_region.y, HOOK_CEILING);
}

#[test]
fn travel_up_to_a_given_ceiling() {
    let mut a = actor_at(0, 760, 5);
    a.travel_up_to(WORLD_HEIGHT);
    assert_eq!(a.screen_region.y, 765);
    a.travel_up_to(WORLD_HEIGHT);
    assert_eq!(a.screen_region.y, WORLD_HEIGHT);
}

#[test]
fn conceal_takes_the_actor_out_of_sight() {
    let mut a = actor_at(40, 60, 3);
    a.conceal();
    assert_eq!(a.screen_region, Rect::new(0, 0, 0, 0));
}

#[test]
fn reset_x_puts_actor_on_right_edge() {
    for _ in 0..200 {
        let mut a = actor_at(40, 60, 3);
        a.reset_x();
        assert_eq!(a.screen_region.x, WORLD_WIDTH);
        assert!(0 <= a.screen_region.y && a.screen_region.y <= WORLD_HEIGHT);
        assert_eq!((a.screen_region.w, a.screen_region.h), (50, 30));
    }
}

#[test]
fn reset_y_puts_actor_on_bottom_edge() {
    for _ in 0..200 {
        let mut a = actor_at(40, 60, 3);
        a.reset_y();
        assert_eq!(a.screen_region.y, WORLD_HEIGHT);
        assert!(0 <= a.screen_region.x && a.screen_region.x <= WORLD_WIDTH);
    }
}

#[test]
fn reset_to_given_coordinates() {
    let mut a = actor_at(40, 60, 3);
    a.reset_x_to(123);
    assert_eq!((a.screen_region.x, a.screen_region.y), (1024, 123));
    a.reset_y_to(456);
    assert_eq!((a.screen_region.x, a.screen_region.y), (456, 768));
}

#[test]
fn move_right_wraps_at_the_right_edge() {
    let mut a = actor_at(1000, 600, 3);
    a.move_right();
    assert_eq!((a.screen_region.x, a.screen_region.y), (1003, 600));
    let mut b = actor_at(1022, 600, 3);
    b.move_right_or_wrap_to(42);
    assert_eq!((b.screen_region.x, b.screen_region.y), (0, 42));
    let mut c = actor_at(1022, 600, 3);
    c.move_right();
    assert_eq!(c.screen_region.x, 0);
    assert!(0 <= c.screen_region.y && c.screen_region.y < HOOK_CEILING);
}

#[test]
fn move_left_respawns_at_the_right_edge() {
    let mut a = actor_at(10, 600, 3);
    a.move_left();
    assert_eq!((a.screen_region.x, a.screen_region.y), (7, 600));
    let mut b = actor_at(3, 600, 3);
    b.move_left();
    assert_eq!(b.screen_region.x, WORLD_WIDTH);
    assert!(0 <= b.screen_region.y && b.screen_region.y <= WORLD_HEIGHT);
}

#[test]
fn move_down_respawns_at_the_bottom() {
    let mut a = actor_at(10, 10, 3);
    a.move_down();
    assert_eq!(a.screen_region.y, 7);
    let mut b = actor_at(10, 3, 3);
    b.move_down();
    assert_eq!(b.screen_region.y, WORLD_HEIGHT);
    assert!(0 <= b.screen_region.x && b.screen_region.x <= WORLD_WIDTH);
}

#[test]
fn scale_elongate_sets_height() {
    let mut a = actor_at(100, 600, 3);
    a.scale_elongate(500, 250);
    assert_eq!(a.screen_region.h, -18);
    a.scale_elongate(0, 250);
    assert_eq!(a.screen_region.h, -518);
}

#[test]
fn animation_index_and_reset() {
    let mut a = actor_at(100, 600, 3);
    a.set_animation_index(1);
    assert_eq!(a.current_animation_index, 1);
    a.advance_animation();
    assert_eq!(a.animations[1].current_frame, 1);
    assert_eq!(a.animations[0].current_frame, 0);
    a.reset_current_animation();
    assert_eq!(a.animations[1].current_frame, 0);
}

#[test]
fn current_animation_state_follows_facing() {
    let mut a = actor_at(100, 600, 3);
    assert_eq!(a.get_current_animation_state(), Rect::new(0, 0, 12, 6));
    a.facing_left = true;
    let r = a.get_current_animation_state();
    assert_eq!(r, Rect::new(12, 0, -12, 6));
    assert_eq!(a.sheet_region, r);
}

fn fish_at(x: i64, y: i64) -> Fish {
    Fish::new(actor_at(x, y, 2))
}

fn hook_at(x: i64, y: i64) -> Char_action {
    let mut h = actor_at(x, y, 3);
    h.screen_region = Rect::new(x, y, 100, 100);
    h.sprites_index = 1;
    h
}

#[test]
fn hook_catches_fish_in_its_band() {
    let hook = hook_at(138, 300);
    let mut f = fish_at(150, 320);
    assert!(f.check_hook(&hook));
    assert!(f.caught);
    assert_eq!((f.body.screen_region.x, f.body.screen_region.y), (138, 300));
    assert_eq!(f.body.speed, 3);
    assert!(!f.check_hook(&hook));
    assert!(f.caught);
}

#[test]
fn catch_band_edges() {
    let hook = hook_at(138, 300);
    // above the band: fish.y must exceed hook.y - hook.h + 70 = 270
    let mut low = fish_at(150, 270);
    assert!(!low.check_hook(&hook));
    let mut just_in = fish_at(150, 271);
    assert!(just_in.check_hook(&hook));
    // below: hook.y + 38 must exceed fish.y - fish.h, so fish.y < 368
    let mut high = fish_at(150, 368);
    assert!(!high.check_hook(&hook));
    let mut right = fish_at(238, 300);
    assert!(!right.check_hook(&hook));
    let mut left = fish_at(88, 300);
    assert!(!left.check_hook(&hook));
}

#[test]
fn catching_order_does_not_matter() {
    let hook = hook_at(138, 300);
    let mut a1 = fish_at(150, 320);
    let mut b1 = fish_at(200, 290);
    let mut c1 = fish_at(600, 290);
    a1.check_hook(&hook);
    b1.check_hook(&hook);
    c1.check_hook(&hook);
    let mut a2 = fish_at(150, 320);
    let mut b2 = fish_at(200, 290);
    let mut c2 = fish_at(600, 290);
    c2.check_hook(&hook);
    b2.check_hook(&hook);
    a2.check_hook(&hook);
    assert_eq!((a1.caught, b1.caught, c1.caught), (a2.caught, b2.caught, c2.caught));
    assert_eq!((a1.caught, b1.caught, c1.caught), (true, true, false));
}

#[test]
fn free_fish_cruises_the_way_it_faces() {
    let mut f = fish_at(100, 300);
    f.cruise();
    assert_eq!(f.body.screen_region.x, 102);
    f.body.facing_left = true;
    f.cruise();
    f.cruise();
    assert_eq!(f.body.screen_region.x, 98);
}

#[test]
fn hooked_fish_struggles_every_thirty_ticks() {
    let mut f = fish_at(100, 300);
    f.caught = true;
    for _ in 0..29 {
        f.cruise();
        assert_eq!(f.body.screen_region.x, 100);
    }
    f.cruise();
    assert_eq!(f.body.screen_region.x, 102);
    assert!(f.vibrate_phase);
    assert_eq!(f.vibrate_counter, 0);
    for _ in 0..30 {
        f.cruise();
    }
    assert_eq!(f.body.screen_region.x, 100);
    assert!(!f.vibrate_phase);
}

#[test]
fn release_frees_and_respawns() {
    let mut f = fish_at(100, 300);
    f.caught = true;
    f.release();
    assert!(!f.caught);
    assert_eq!(f.body.screen_region.x, WORLD_WIDTH);
    assert!(0 <= f.body.screen_region.y && f.body.screen_region.y <= WORLD_HEIGHT);
}

#[test]
fn dragging_moves_only_caught_fish() {
    let mut f = fish_at(100, 300);
    f.drag_up();
    f.drag_down();
    assert_eq!(f.body.screen_region.y, 300);
    f.caught = true;
    f.drag_up();
    assert_eq!(f.body.screen_region.y, 302);
    f.drag_down();
    f.drag_down();
    assert_eq!(f.body.screen_region.y, 298);
}

#[test]
fn walking_stays_within_the_coordinate_limit() {
    let mut a = actor_at(100, 50, 2);
    assert!(a.can_walk());
    a.screen_region.x = fishful::geometry::COORD_LIMIT - 1;
    assert!(!a.can_walk());
    a.face_left();
    assert!(a.can_walk());
}
