//! The game object: its start-up numbering of loaded textures, the verdict of
//! each frame, and its shutdown.
use vstd::prelude::*;
use crate::player::{update_player_camera, spec_normal_updates, spec_thrusts, FrameKeys, PlayerFramePlan};

verus! {

/// The game; all its state lives in the engine and the game data.
#[derive(Debug)]
pub struct Game {}

impl Default for Game {
    fn default() -> (g: Self)
        ensures
            g == (Game {}),
    {
        Game {}
    }
}

/// What one frame does: the player's plan, and whether the engine goes on.
#[derive(Debug)]
pub struct FrameUpdate {
    pub plan: PlayerFramePlan,
    /// `Ok(())` to keep running, `Err("Ended")` to end the game.
    pub result: Result<(), &'static str>,
}

/// The slots that textures made from `image_count` newly loaded images take in
/// a texture table that holds `texture_count` textures: each goes at the table's
/// length at the time, so they take `texture_count`, `texture_count + 1`, ...
pub fn texture_slots(texture_count: usize, image_count: usize) -> (slots: Vec<usize>)
    requires
        texture_count + image_count <= usize::MAX,
    ensures
        slots@.len() == image_count,
        forall|k: int| 0 <= k < image_count ==> #[trigger] slots@[k] == texture_count + k,
        forall|k: int| 0 <= k < image_count ==> #[trigger] slots@[k] >= texture_count,
        forall|j: int, k: int| 0 <= j < k < image_count ==> #[trigger] slots@[j] < #[trigger] slots@[k],
{
    let mut slots: Vec<usize> = Vec::new();
    let mut len: usize = texture_count;
    let mut i: usize = 0;
    while i < image_count
        invariant
            i <= image_count,
            texture_count + image_count <= usize::MAX,
            len == texture_count + i,
            slots@.len() == i,
            forall|k: int| 0 <= k < i ==> #[trigger] slots@[k] == texture_count + k,
        decreases image_count - i,
    {
        slots.push(len);
        len = len + 1;
        i = i + 1;
    }
    slots
}

impl Game {
    /// One frame: the player's plan for the frame's keys, and `Err("Ended")`
    /// exactly when Escape was pressed on this frame.
    pub fn on_engine_update(&self, keys: &FrameKeys) -> (update: FrameUpdate)
        ensures
            update.plan.thrusts@ == spec_thrusts(*keys),
            update.plan.normal_updates@ == spec_normal_updates(*keys),
            update.plan.toggle_render_layer == keys.h_pressed,
            update.result is Err <==> keys.escape_pressed,
            update.result matches Err(msg) ==> msg@ == "Ended"@,
    {
        let plan = update_player_camera(keys);
        let result = if keys.escape_pressed { Err("Ended") } else { Ok(()) };
        FrameUpdate { plan, result }
    }

    /// Shutting down always succeeds.
    pub fn on_engine_destroy(&self) -> (r: Result<(), &'static str>)
        ensures
            r is Ok,
    {
        Ok(())
    }
}

} // verus!
