use waycord::error::PipelineError;
use waycord::graph::{GraphModel, NodeKind, PropKey, PropValue};
use waycord::overlays::{OverlayManager, OverlayOutcome};

fn outcome_ok() -> OverlayOutcome {
    OverlayOutcome { created: true, linked: true }
}

fn endpoints(g: &mut GraphModel) -> (u64, u64) {
    (g.add_node(NodeKind::External), g.add_node(NodeKind::External))
}

#[test]
fn text_overlay_is_placed_and_configured() {
    let mut g = GraphModel::new();
    let (up, down) = endpoints(&mut g);
    let mut m = OverlayManager::new();
    let writes = m
        .add_text_overlay(
            &mut g,
            String::from("banner"),
            "Welcome to the stream",
            40,
            12,
            "Sans Bold 24",
            "white",
            up,
            down,
            &outcome_ok(),
        )
        .unwrap();
    assert_eq!(m.text_overlays.len(), 1);
    assert_eq!(m.text_overlays[0].name, String::from("banner"));
    let node = m.text_overlays[0].node;
    assert_eq!(g.nodes.last().unwrap().kind, NodeKind::TextOverlay);
    assert_eq!(g.nodes.last().unwrap().id, node);
    assert_eq!(writes.len(), 7);
    assert_eq!(writes[0].key, PropKey::Text);
    assert_eq!(writes[0].value, PropValue::Text(String::from("Welcome to the stream")));
    assert_eq!(writes[1].value, PropValue::Text(String::from("Sans Bold 24")));
    assert_eq!(writes[2].value, PropValue::Text(String::from("white")));
    assert_eq!(writes[3].value, PropValue::Text(String::from("top")));
    assert_eq!(writes[4].value, PropValue::Text(String::from("left")));
    assert_eq!(writes[5].value, PropValue::Int(40));
    assert_eq!(writes[6].value, PropValue::Int(12));
    assert!(writes.iter().all(|w| w.node == node));
}

#[test]
fn unavailable_text_overlay_changes_nothing() {
    let mut g = GraphModel::new();
    let (up, down) = endpoints(&mut g);
    let mut m = OverlayManager::new();
    let outcome = OverlayOutcome { created: false, linked: false };
    let err = m
        .add_text_overlay(
            &mut g,
            String::from("banner"),
            "hi",
            0,
            0,
            "Sans 12",
            "red",
            up,
            down,
            &outcome,
        )
        .unwrap_err();
    assert_eq!(err, PipelineError::ElementUnavailable);
    assert_eq!(g.nodes.len(), 2);
    assert!(m.text_overlays.is_empty());
}

#[test]
fn text_overlay_link_failure_is_not_recorded() {
    let mut g = GraphModel::new();
    let (up, down) = endpoints(&mut g);
    let mut m = OverlayManager::new();
    let outcome = OverlayOutcome { created: true, linked: false };
    let err = m
        .add_text_overlay(
            &mut g,
            String::from("banner"),
            "hi",
            0,
            0,
            "Sans 12",
            "red",
            up,
            down,
            &outcome,
        )
        .unwrap_err();
    assert_eq!(err, PipelineError::LinkFailure);
    assert_eq!(g.nodes.last().unwrap().kind, NodeKind::TextOverlay);
    assert!(g.links.is_empty());
    assert!(m.text_overlays.is_empty());
}

#[test]
fn image_overlay_is_placed_and_configured() {
    let mut g = GraphModel::new();
    let (up, down) = endpoints(&mut g);
    let mut m = OverlayManager::new();
    let writes = m
        .add_image_overlay(
            &mut g,
            String::from("watermark"),
            "/usr/share/pixmaps/logo.png",
            1800,
            24,
            up,
            down,
            &outcome_ok(),
        )
        .unwrap();
    assert_eq!(m.image_overlays.len(), 1);
    assert_eq!(g.nodes.last().unwrap().kind, NodeKind::ImageOverlay);
    assert_eq!(writes.len(), 3);
    assert_eq!(writes[0].key, PropKey::Location);
    assert_eq!(
        writes[0].value,
        PropValue::Text(String::from("/usr/share/pixmaps/logo.png"))
    );
    assert_eq!(writes[1].key, PropKey::OffsetX);
    assert_eq!(writes[1].value, PropValue::Int(1800));
    assert_eq!(writes[2].key, PropKey::OffsetY);
    assert_eq!(writes[2].value, PropValue::Int(24));
}

fn manager_with_banner() -> (OverlayManager, GraphModel, u64) {
    let mut g = GraphModel::new();
    let (up, down) = endpoints(&mut g);
    let mut m = OverlayManager::new();
    m.add_text_overlay(
        &mut g,
        String::from("banner"),
        "hello",
        0,
        0,
        "Sans 12",
        "white",
        up,
        down,
        &outcome_ok(),
    )
    .unwrap();
    let node = m.text_overlays[0].node;
    (m, g, node)
}

#[test]
fn rotation_requires_messages() {
    let (mut m, _g, _node) = manager_with_banner();
    let err = m.start_rotating_messages("banner", Vec::new(), 3000).unwrap_err();
    assert_eq!(err, PipelineError::IndexOutOfRange);
}

#[test]
fn rotation_requires_known_overlay() {
    let (mut m, _g, _node) = manager_with_banner();
    let err = m
        .start_rotating_messages("ticker", vec![String::from("a")], 3000)
        .unwrap_err();
    assert_eq!(err, PipelineError::NotFound);
}

#[test]
fn rotation_cycles_messages_in_order() {
    let (mut m, _g, node) = manager_with_banner();
    let msgs = vec![String::from("one"), String::from("two"), String::from("three")];
    let target = m.start_rotating_messages("banner", msgs, 3000).unwrap();
    assert_eq!(target, node);
    assert_eq!(m.rotation_interval_ms, 3000);
    assert_eq!(m.rotation_tick(), Some(String::from("one")));
    assert_eq!(m.rotation_tick(), Some(String::from("two")));
    assert_eq!(m.rotation_tick(), Some(String::from("three")));
    assert_eq!(m.rotation_tick(), Some(String::from("one")));
}

#[test]
fn rotation_tick_without_messages_shows_nothing() {
    let mut m = OverlayManager::new();
    assert_eq!(m.rotation_tick(), None);
    assert_eq!(m.current_msg_index, 0);
}

#[test]
fn restarting_rotation_replaces_messages_and_keeps_valid_position() {
    let (mut m, _g, _node) = manager_with_banner();
    let first = vec![String::from("a"), String::from("b"), String::from("c")];
    m.start_rotating_messages("banner", first, 1000).unwrap();
    m.rotation_tick();
    m.rotation_tick();
    let second = vec![String::from("x")];
    m.start_rotating_messages("banner", second, 1000).unwrap();
    assert_eq!(m.current_msg_index, 0);
    assert_eq!(m.rotation_tick(), Some(String::from("x")));
}
