use mvlc::{Layer, LayerId, LayerStack, Time};

fn names(stack: &LayerStack<()>) -> Vec<String> {
    stack.layers().iter().map(|l| l.name.clone()).collect()
}

#[test]
fn layer_ids() {
    assert_eq!(LayerId::new(4), LayerId(4));
    assert_eq!(LayerId(4).next(), LayerId(5));
}

#[test]
fn new_layer_defaults() {
    let l: Layer<()> = Layer::new(LayerId(3), "clip".to_string());
    assert_eq!(l.id, LayerId(3));
    assert_eq!(l.name, "clip");
    assert!(l.visible);
    assert_eq!(l.z_index, 0);
    assert_eq!(l.media_path, None);
    assert_eq!(l.start_time, Time::zero());
    assert_eq!(l.duration, None);
    assert!(!l.loop_enabled);
    assert!(!l.playing);
    assert!(!l.muted);
}

#[test]
fn layer_playback_flags() {
    let mut l: Layer<()> = Layer::new(LayerId(1), "a".to_string()).with_media("/v.mp4".to_string());
    assert_eq!(l.media_path.as_deref(), Some("/v.mp4"));
    l.play();
    assert!(l.playing);
    l.pause();
    assert!(!l.playing);
    l.toggle_mute();
    assert!(l.muted);
    l.toggle_mute();
    assert!(!l.muted);
    l.set_z_index(-3);
    assert_eq!(l.z_index, -3);
}

#[test]
fn stack_allocates_increasing_ids() {
    let mut stack: LayerStack<()> = LayerStack::new();
    assert_eq!(stack.next_id(), LayerId(1));
    let a = stack.add_layer("a".to_string());
    let b = stack.add_layer("b".to_string());
    assert_eq!(a, LayerId(1));
    assert_eq!(b, LayerId(2));
    assert_eq!(stack.next_id(), LayerId(3));
    assert_eq!(names(&stack), vec!["a", "b"]);
}

#[test]
fn add_then_get_finds_the_new_layer() {
    let mut stack: LayerStack<()> = LayerStack::default();
    let a = stack.add_layer("first".to_string());
    let b = stack.add_layer("second".to_string());
    assert_eq!(stack.get_layer(a).map(|l| l.name.as_str()), Some("first"));
    assert_eq!(stack.get_layer(b).map(|l| l.name.as_str()), Some("second"));
    assert!(stack.get_layer(LayerId(99)).is_none());
}

#[test]
fn reorder_sorts_by_z_stably() {
    let mut stack: LayerStack<()> = LayerStack::new();
    let a = stack.add_layer("a".to_string());
    let b = stack.add_layer("b".to_string());
    let c = stack.add_layer("c".to_string());
    stack.reorder_layer(a, 5);
    assert_eq!(names(&stack), vec!["b", "c", "a"]);
    stack.reorder_layer(c, -1);
    assert_eq!(names(&stack), vec!["c", "b", "a"]);
    // b already stands before a, and the sort keeps equal z-indices in order.
    stack.reorder_layer(b, 5);
    assert_eq!(names(&stack), vec!["c", "b", "a"]);
    assert_eq!(stack.get_layer(b).unwrap().z_index, 5);
    stack.reorder_layer(a, 5);
    assert_eq!(names(&stack), vec!["c", "b", "a"]);
    stack.reorder_layer(LayerId(42), 9);
    assert_eq!(names(&stack), vec!["c", "b", "a"]);
}

#[test]
fn new_layers_go_before_higher_z() {
    let mut stack: LayerStack<()> = LayerStack::new();
    let a = stack.add_layer("top".to_string());
    stack.reorder_layer(a, 10);
    stack.add_layer("new".to_string());
    assert_eq!(names(&stack), vec!["new", "top"]);
}

#[test]
fn remove_then_get_is_absent() {
    let mut stack: LayerStack<()> = LayerStack::new();
    let a = stack.add_layer("a".to_string());
    let b = stack.add_layer("b".to_string());
    assert!(stack.remove_layer(a));
    assert!(stack.get_layer(a).is_none());
    assert!(!stack.remove_layer(a));
    assert_eq!(names(&stack), vec!["b"]);
    assert!(stack.get_layer(b).is_some());
    assert_eq!(stack.next_id(), LayerId(3));
}

#[test]
fn render_orders() {
    let mut stack: LayerStack<()> = LayerStack::new();
    let a = stack.add_layer("a".to_string());
    stack.add_layer("b".to_string());
    stack.add_layer("c".to_string());
    stack.reorder_layer(a, 1);
    let forward: Vec<&str> = stack.render_order().map(|l| l.name.as_str()).collect();
    assert_eq!(forward, vec!["b", "c", "a"]);
    let backward: Vec<&str> = stack.reverse_render_order().map(|l| l.name.as_str()).collect();
    assert_eq!(backward, vec!["a", "c", "b"]);
}

#[test]
fn mutable_access() {
    let mut stack: LayerStack<u32> = LayerStack::new();
    let a = stack.add_layer("a".to_string());
    stack.get_layer_mut(a).unwrap().appearance = 7;
    assert_eq!(stack.get_layer(a).unwrap().appearance, 7);
    for layer in stack.layers_mut() {
        layer.visible = false;
    }
    assert!(!stack.get_layer(a).unwrap().visible);
    assert!(stack.get_layer_mut(LayerId(5)).is_none());
}

#[test]
fn stack_from_parts() {
    let layers: Vec<Layer<()>> = vec![Layer::new(LayerId(4), "x".to_string())];
    let mut stack = LayerStack::from_parts(layers, LayerId(5));
    assert_eq!(stack.add_layer("y".to_string()), LayerId(5));
    assert_eq!(names(&stack), vec!["x", "y"]);
}

#[test]
fn removed_ids_are_not_handed_out_again() {
    let mut stack: LayerStack<()> = LayerStack::new();
    let a = stack.add_layer("a".to_string());
    let b = stack.add_layer("b".to_string());
    assert!(stack.remove_layer(b));
    stack.reorder_layer(a, 5);
    let c = stack.add_layer("c".to_string());
    assert_eq!(c, LayerId(3));
    assert_ne!(c, b);
    assert!(stack.get_layer(b).is_none());
}
