use eldritch_horror::game::{texture_slots, Game};
use eldritch_horror::player::{Axis, FrameKeys, Sense, Thrust};
use eldritch_horror::Rcode;

fn keys(escape: bool) -> FrameKeys {
    FrameKeys {
        d_held: false,
        a_held: false,
        w_held: true,
        s_held: false,
        k_pressed: false,
        j_pressed: false,
        h_pressed: false,
        escape_pressed: escape,
    }
}

#[test]
fn escape_ends_the_game() {
    let game = Game::default();
    let update = game.on_engine_update(&keys(true));
    assert_eq!(update.result, Err("Ended"));
    assert_eq!(update.plan.thrusts, vec![Thrust { axis: Axis::Forward, sense: Sense::Plus }]);
}

#[test]
fn game_runs_without_escape() {
    let game = Game::default();
    let update = game.on_engine_update(&keys(false));
    assert_eq!(update.result, Ok(()));
    assert_eq!(update.plan.thrusts.len(), 1);
}

#[test]
fn destroy_always_succeeds() {
    assert_eq!(Game::default().on_engine_destroy(), Ok(()));
}

#[test]
fn loaded_textures_follow_existing_ones() {
    assert_eq!(texture_slots(3, 4), vec![3, 4, 5, 6]);
    assert_eq!(texture_slots(0, 2), vec![0, 1]);
    assert!(texture_slots(7, 0).is_empty());
}

#[test]
fn rcode_variants_are_distinct() {
    assert_ne!(Rcode::Fail, Rcode::Success);
    assert_ne!(Rcode::Success, Rcode::NoFile);
    assert_eq!(format!("{:?}", Rcode::NoFile), "NoFile");
}
