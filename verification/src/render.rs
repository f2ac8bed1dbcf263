//! Decisions of the custom render-layer passes: whether a layer is drawn at
//! all, and which bind-group slots, attachments and draw ranges its pass uses.
use vstd::prelude::*;

verus! {

/// What a pass function reads of a layer description.
#[derive(Debug, Clone, Copy, PartialEq, Eq, Structural)]
pub struct LayerView {
    /// The layer is a render layer (rather than an image layer).
    pub is_render: bool,
    /// The render layer carries a pipeline bundle.
    pub has_pipeline: bool,
    /// How many bind groups the pipeline bundle holds.
    pub bind_group_count: usize,
}

/// One full-screen pass over the frame texture: the colour attachment is
/// loaded and stored, the pipeline of the layer is set, its bind groups are
/// bound at `bind_group_slots`, the decal buffer is the vertex buffer, and
/// `vertex_count` vertices of `instance_count` instances are drawn.
#[derive(Debug)]
pub struct LayerPass {
    /// Before the pass, the objects of mask `LAYER4` are drawn into the frame
    /// back buffer, cleared to transparent.
    pub predraw_layer4: bool,
    /// The pass has the depth texture as depth attachment, cleared to the far
    /// plane and not stored.
    pub depth_cleared: bool,
    /// The slot of each bind group, in the order the pipeline holds them.
    pub bind_group_slots: Vec<u32>,
    pub vertex_count: u32,
    pub instance_count: u32,
}

/// The slots of `count` bind groups: the `k`-th one is bound at slot `k`
/// (taken as a `u32`).
pub fn bind_group_slots(count: usize) -> (slots: Vec<u32>)
    ensures
        slots@.len() == count,
        forall|k: int| 0 <= k < count ==> #[trigger] slots@[k] == k as u32,
{
    let mut slots: Vec<u32> = Vec::new();
    let mut i: usize = 0;
    while i < count
        invariant
            i <= count,
            slots@.len() == i,
            forall|k: int| 0 <= k < i ==> #[trigger] slots@[k] == k as u32,
        decreases count - i,
    {
        slots.push(i as u32);
        i = i + 1;
    }
    slots
}

/// The pass of the outline layer: only a render layer with a pipeline bundle
/// is drawn; then the `LAYER4` objects go to the back buffer first, and the
/// pass tests against a freshly cleared depth texture.
pub fn draw_outline(layer: &LayerView) -> (pass: Option<LayerPass>)
    ensures
        pass is Some <==> layer.is_render && layer.has_pipeline,
        pass matches Some(p) ==> {
            &&& p.predraw_layer4
            &&& p.depth_cleared
            &&& p.bind_group_slots@.len() == layer.bind_group_count
            &&& forall|k: int| 0 <= k < layer.bind_group_count ==> #[trigger] p.bind_group_slots@[k] == k as u32
            &&& p.vertex_count == 6
            &&& p.instance_count == 1
        },
{
    if layer.is_render && layer.has_pipeline {
        Some(LayerPass {
            predraw_layer4: true,
            depth_cleared: true,
            bind_group_slots: bind_group_slots(layer.bind_group_count),
            vertex_count: 6,
            instance_count: 1,
        })
    } else {
        None
    }
}

/// The pass of the distortion layer: only a render layer with a pipeline
/// bundle is drawn, straight over the frame texture without depth.
pub fn draw_weird(layer: &LayerView) -> (pass: Option<LayerPass>)
    ensures
        pass is Some <==> layer.is_render && layer.has_pipeline,
        pass matches Some(p) ==> {
            &&& !p.predraw_layer4
            &&& !p.depth_cleared
            &&& p.bind_group_slots@.len() == layer.bind_group_count
            &&& forall|k: int| 0 <= k < layer.bind_group_count ==> #[trigger] p.bind_group_slots@[k] == k as u32
            &&& p.vertex_count == 6
            &&& p.instance_count == 1
        },
{
    if layer.is_render && layer.has_pipeline {
        Some(LayerPass {
            predraw_layer4: false,
            depth_cleared: false,
            bind_group_slots: bind_group_slots(layer.bind_group_count),
            vertex_count: 6,
            instance_count: 1,
        })
    } else {
        None
    }
}

} // verus!
