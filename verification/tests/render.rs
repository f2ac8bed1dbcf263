use eldritch_horror::render::{bind_group_slots, draw_outline, draw_weird, LayerView};

#[test]
fn bind_groups_take_their_index() {
    assert_eq!(bind_group_slots(0), Vec::<u32>::new());
    assert_eq!(bind_group_slots(3), vec![0, 1, 2]);
}

#[test]
fn outline_pass_of_render_layer() {
    let layer = LayerView { is_render: true, has_pipeline: true, bind_group_count: 2 };
    let pass = draw_outline(&layer).unwrap();
    assert!(pass.predraw_layer4);
    assert!(pass.depth_cleared);
    assert_eq!(pass.bind_group_slots, vec![0, 1]);
    assert_eq!(pass.vertex_count, 6);
    assert_eq!(pass.instance_count, 1);
}

#[test]
fn weird_pass_has_no_depth() {
    let layer = LayerView { is_render: true, has_pipeline: true, bind_group_count: 1 };
    let pass = draw_weird(&layer).unwrap();
    assert!(!pass.predraw_layer4);
    assert!(!pass.depth_cleared);
    assert_eq!(pass.bind_group_slots, vec![0]);
    assert_eq!(pass.vertex_count, 6);
    assert_eq!(pass.instance_count, 1);
}

#[test]
fn layers_without_pipeline_are_skipped() {
    let no_pipeline = LayerView { is_render: true, has_pipeline: false, bind_group_count: 4 };
    let image = LayerView { is_render: false, has_pipeline: false, bind_group_count: 0 };
    assert!(draw_outline(&no_pipeline).is_none());
    assert!(draw_weird(&no_pipeline).is_none());
    assert!(draw_outline(&image).is_none());
    assert!(draw_weird(&image).is_none());
}
