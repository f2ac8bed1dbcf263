//! Per-frame player decisions: which movement impulses, mesh re-shading and
//! layer toggles a frame's key states ask for, and the shape of the mouse
//! cursor.  The floating-point work (velocities, rotations, matrices) is done
//! by the caller on the basis of these plans.
use vstd::prelude::*;

verus! {

/// The key states that one frame of the game reads.
///
/// `*_held` is true while the key is down; `*_pressed` only on the frame in
/// which it went down.
#[derive(Debug, Clone, Copy, PartialEq, Eq, Structural)]
pub struct FrameKeys {
    pub d_held: bool,
    pub a_held: bool,
    pub w_held: bool,
    pub s_held: bool,
    pub k_pressed: bool,
    pub j_pressed: bool,
    pub h_pressed: bool,
    pub escape_pressed: bool,
}

/// A local axis of the camera: `Right` is `(1, 0, 0)`, `Forward` is `(0, 0, 1)`,
/// both rotated by the camera's rotation.
#[derive(Debug, Clone, Copy, PartialEq, Eq, Structural)]
pub enum Axis {
    Right,
    Forward,
}

/// Whether an impulse is added to the velocity or subtracted from it.
#[derive(Debug, Clone, Copy, PartialEq, Eq, Structural)]
pub enum Sense {
    Plus,
    Minus,
}

/// One velocity impulse: `velocity += sense * (rot * axis) * elapsed * speed`.
#[derive(Debug, Clone, Copy, PartialEq, Eq, Structural)]
pub struct Thrust {
    pub axis: Axis,
    pub sense: Sense,
}

/// How the normals of the first mesh of the first game object are recomputed.
#[derive(Debug, Clone, Copy, PartialEq, Eq, Structural)]
pub enum NormalMode {
    Shaded,
    Flat,
}

/// What a frame of player input asks the engine to do, in the order in which
/// it is to be done.
#[derive(Debug)]
pub struct PlayerFramePlan {
    /// Velocity impulses, applied one after the other.
    pub thrusts: Vec<Thrust>,
    /// Normal recomputations of the first mesh, applied one after the other.
    pub normal_updates: Vec<NormalMode>,
    /// Whether the render layer's visibility is flipped this frame.
    pub toggle_render_layer: bool,
}

/// The impulses that a frame asks for: `D` pushes along `-Right`, `A` along
/// `+Right`, `W` along `+Forward`, `S` along `-Forward`, in that order.
pub open spec fn spec_thrusts(keys: FrameKeys) -> Seq<Thrust> {
    (if keys.d_held { seq![Thrust { axis: Axis::Right, sense: Sense::Minus }] } else { seq![] })
    + (if keys.a_held { seq![Thrust { axis: Axis::Right, sense: Sense::Plus }] } else { seq![] })
    + (if keys.w_held { seq![Thrust { axis: Axis::Forward, sense: Sense::Plus }] } else { seq![] })
    + (if keys.s_held { seq![Thrust { axis: Axis::Forward, sense: Sense::Minus }] } else { seq![] })
}

/// The normal recomputations a frame asks for: `K` shades smoothly, then `J`
/// shades flat.
pub open spec fn spec_normal_updates(keys: FrameKeys) -> Seq<NormalMode> {
    (if keys.k_pressed { seq![NormalMode::Shaded] } else { seq![] })
    + (if keys.j_pressed { seq![NormalMode::Flat] } else { seq![] })
}

/// The signed contribution of one impulse along `axis`.
pub open spec fn thrust_along(t: Thrust, axis: Axis) -> int {
    if t.axis != axis {
        0
    } else if t.sense == Sense::Plus {
        1
    } else {
        -1
    }
}

/// The net number of unit impulses along `axis` in a sequence of impulses.
pub open spec fn net_thrust(ts: Seq<Thrust>, axis: Axis) -> int
    decreases ts.len(),
{
    if ts.len() == 0 {
        0
    } else {
        net_thrust(ts.drop_last(), axis) + thrust_along(ts.last(), axis)
    }
}

/// 1 when the flag is set, else 0.
pub open spec fn unit(b: bool) -> int {
    if b { 1 } else { 0 }
}

impl PlayerFramePlan {
    /// The visibility of the render layer after this plan, given the one before.
    pub open spec fn spec_next_visibility(&self, shown: bool) -> bool {
        if self.toggle_render_layer { !shown } else { shown }
    }

    /// The visibility of the render layer after this plan, given the one before.
    pub fn next_visibility(&self, shown: bool) -> (r: bool)
        ensures
            r == self.spec_next_visibility(shown),
            !self.toggle_render_layer ==> r == shown,
            self.toggle_render_layer ==> r == !shown,
    {
        if self.toggle_render_layer {
            !shown
        } else {
            shown
        }
    }
}

/// Decides what one frame of player input does: the movement impulses of the
/// held `D`, `A`, `W`, `S` keys, the normal recomputations of the pressed `K`
/// and `J` keys, and whether a press of `H` flips the render layer.
pub fn update_player_camera(keys: &FrameKeys) -> (plan: PlayerFramePlan)
    ensures
        plan.thrusts@ == spec_thrusts(*keys),
        plan.normal_updates@ == spec_normal_updates(*keys),
        plan.toggle_render_layer == keys.h_pressed,
{
    let mut thrusts: Vec<Thrust> = Vec::new();
    if keys.d_held {
        thrusts.push(Thrust { axis: Axis::Right, sense: Sense::Minus });
    }
    if keys.a_held {
        thrusts.push(Thrust { axis: Axis::Right, sense: Sense::Plus });
    }
    if keys.w_held {
        thrusts.push(Thrust { axis: Axis::Forward, sense: Sense::Plus });
    }
    if keys.s_held {
        thrusts.push(Thrust { axis: Axis::Forward, sense: Sense::Minus });
    }
    let mut normal_updates: Vec<NormalMode> = Vec::new();
    if keys.k_pressed {
        normal_updates.push(NormalMode::Shaded);
    }
    if keys.j_pressed {
        normal_updates.push(NormalMode::Flat);
    }
    let plan = PlayerFramePlan { thrusts, normal_updates, toggle_render_layer: keys.h_pressed };
    assert(plan.thrusts@ =~= spec_thrusts(*keys));
    assert(plan.normal_updates@ =~= spec_normal_updates(*keys));
    plan
}

/// A pixel offset from the mouse position.
#[derive(Debug, Clone, Copy, PartialEq, Eq, Structural)]
pub struct Offset {
    pub x: i32,
    pub y: i32,
}

/// The figure drawn at the mouse position on the UI layer.
#[derive(Debug, Clone, Copy, PartialEq, Eq, Structural)]
pub enum CursorShape {
    /// A filled triangle whose corners lie at these offsets from the mouse;
    /// `apex` is the corner that points sideways.
    Triangle { apex: Offset, upper: Offset, lower: Offset },
    /// A filled circle of this radius around the mouse.
    Circle { radius: i32 },
}

/// The cursor for a frame: while the camera turns, a triangle whose apex points
/// to the side of the screen the mouse is on; otherwise a dot of radius 5.
pub open spec fn spec_cursor(turning: bool, points_right: bool) -> CursorShape {
    if !turning {
        CursorShape::Circle { radius: 5 }
    } else if points_right {
        CursorShape::Triangle {
            apex: Offset { x: 25, y: 0 },
            upper: Offset { x: -15i32, y: 15 },
            lower: Offset { x: -15i32, y: -15i32 },
        }
    } else {
        CursorShape::Triangle {
            apex: Offset { x: -20i32, y: 0 },
            upper: Offset { x: 15, y: 15 },
            lower: Offset { x: 15, y: -15i32 },
        }
    }
}

/// Decides the mouse cursor: while the camera turns (`turning`), a triangle
/// whose apex points to the side of the screen the mouse is on (right when
/// `points_right`, which holds when the mouse lies right of the screen's
/// centre), else a dot of radius 5.
pub fn draw_mouse(turning: bool, points_right: bool) -> (shape: CursorShape)
    ensures
        shape == spec_cursor(turning, points_right),
{
    if turning {
        if points_right {
            CursorShape::Triangle {
                apex: Offset { x: 25, y: 0 },
                upper: Offset { x: -15, y: 15 },
                lower: Offset { x: -15, y: -15 },
            }
        } else {
            CursorShape::Triangle {
                apex: Offset { x: -20, y: 0 },
                upper: Offset { x: 15, y: 15 },
                lower: Offset { x: 15, y: -15 },
            }
        }
    } else {
        CursorShape::Circle { radius: 5 }
    }
}

/// The net impulse of two sequences played one after the other is the sum of
/// their net impulses.
pub proof fn lemma_net_thrust_concat(s1: Seq<Thrust>, s2: Seq<Thrust>, axis: Axis)
    ensures
        net_thrust(s1 + s2, axis) == net_thrust(s1, axis) + net_thrust(s2, axis),
    decreases s2.len(),
{
    if s2.len() == 0 {
        assert(s1 + s2 =~= s1);
    } else {
        lemma_net_thrust_concat(s1, s2.drop_last(), axis);
        assert((s1 + s2).drop_last() =~= s1 + s2.drop_last());
    }
}

/// Movement balance: along the right axis a frame pushes once for `A` and once
/// against for `D`, along the forward axis once for `W` and once against for
/// `S`; so two opposite keys held together cancel out.
pub proof fn thrust_balance(keys: FrameKeys)
    ensures
        net_thrust(spec_thrusts(keys), Axis::Right) == unit(keys.a_held) - unit(keys.d_held),
        net_thrust(spec_thrusts(keys), Axis::Forward) == unit(keys.w_held) - unit(keys.s_held),
        keys.a_held == keys.d_held ==> net_thrust(spec_thrusts(keys), Axis::Right) == 0,
        keys.w_held == keys.s_held ==> net_thrust(spec_thrusts(keys), Axis::Forward) == 0,
{
    let d = if keys.d_held { seq![Thrust { axis: Axis::Right, sense: Sense::Minus }] } else { seq![] };
    let a = if keys.a_held { seq![Thrust { axis: Axis::Right, sense: Sense::Plus }] } else { seq![] };
    let w = if keys.w_held { seq![Thrust { axis: Axis::Forward, sense: Sense::Plus }] } else { seq![] };
    let s = if keys.s_held { seq![Thrust { axis: Axis::Forward, sense: Sense::Minus }] } else { seq![] };
    assert forall|axis: Axis| #[trigger] net_thrust(spec_thrusts(keys), axis)
        == net_thrust(d, axis) + net_thrust(a, axis) + net_thrust(w, axis) + net_thrust(s, axis) by {
        lemma_net_thrust_concat(d, a, axis);
        lemma_net_thrust_concat(d + a, w, axis);
        lemma_net_thrust_concat(d + a + w, s, axis);
    }
    reveal_with_fuel(net_thrust, 2);
    assert(net_thrust(spec_thrusts(keys), Axis::Right) == net_thrust(d, Axis::Right)
        + net_thrust(a, Axis::Right) + net_thrust(w, Axis::Right) + net_thrust(s, Axis::Right));
    assert(net_thrust(spec_thrusts(keys), Axis::Forward) == net_thrust(d, Axis::Forward)
        + net_thrust(a, Axis::Forward) + net_thrust(w, Axis::Forward) + net_thrust(s, Axis::Forward));
}

/// The last normal recomputation of a frame wins: with `J` pressed the mesh
/// ends flat-shaded, whether or not `K` was pressed too; with `K` alone it ends
/// smoothly shaded; with neither it is left as it was.
pub proof fn last_normal_update_wins(keys: FrameKeys)
    ensures
        keys.j_pressed ==> spec_normal_updates(keys).last() == NormalMode::Flat,
        keys.k_pressed && !keys.j_pressed ==> spec_normal_updates(keys) == seq![NormalMode::Shaded],
        !keys.k_pressed && !keys.j_pressed ==> spec_normal_updates(keys).len() == 0,
{
    assert(keys.k_pressed && !keys.j_pressed ==> spec_normal_updates(keys) =~= seq![NormalMode::Shaded]);
}

/// The turning cursor points the way the mouse lies from the centre: its apex
/// is on that side of the mouse and its other two corners on the other side,
/// mirrored about the horizontal through the mouse.
pub proof fn cursor_points_outward(turning: bool, points_right: bool)
    requires
        turning,
    ensures
        spec_cursor(turning, points_right) matches CursorShape::Triangle { apex, upper, lower } && {
            &&& apex.y == 0
            &&& (apex.x > 0) == points_right
            &&& (upper.x > 0) != points_right
            &&& upper.x == lower.x
            &&& upper.y == -lower.y
            &&& upper.y > 0
        },
{
}

/// The render layer flips exactly on a frame on which `H` was pressed: the
/// visibility after a frame depends only on that and on the visibility before,
/// never on the frame's impulses or normal recomputations; two plans that
/// agree on `H` leave the layer alike.
pub proof fn visibility_follows_h_only(p: PlayerFramePlan, q: PlayerFramePlan, shown: bool)
    ensures
        !p.toggle_render_layer ==> p.spec_next_visibility(shown) == shown,
        p.toggle_render_layer ==> p.spec_next_visibility(shown) == !shown,
        p.toggle_render_layer == q.toggle_render_layer ==> p.spec_next_visibility(shown)
            == q.spec_next_visibility(shown),
{
}

/// Pressing `H` on two frames leaves the render layer as visible as it was.
pub proof fn toggle_twice_restores(first: PlayerFramePlan, second: PlayerFramePlan, shown: bool)
    requires
        first.toggle_render_layer,
        second.toggle_render_layer,
    ensures
        second.spec_next_visibility(first.spec_next_visibility(shown)) == shown,
        first.spec_next_visibility(shown) != shown,
{
}

} // verus!
