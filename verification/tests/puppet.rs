use puppet_editor::geometry::Rect;
use puppet_editor::puppet::{Component, ComponentKind, Puppet, State, STATE_ID_LEN};

fn named_state(id: &str, x: i32, y: i32) -> State {
    State {
        id: id.to_string(),
        name: format!("state {id}"),
        filepath: String::new(),
        position: (x, y),
    }
}

fn bare_component() -> Component {
    Component {
        kind: ComponentKind::Hat,
        zindex: 0,
        default_state: named_state("default", 0, 0),
        active_state: None,
        states: Vec::new(),
    }
}

#[test]
fn default_puppet_has_one_component_per_kind_in_order() {
    let p = Puppet::default();
    assert_eq!(p.components.len(), 4);
    let kinds: Vec<ComponentKind> = p.components.iter().map(|c| c.kind).collect();
    assert_eq!(
        kinds,
        vec![
            ComponentKind::Head,
            ComponentKind::Hat,
            ComponentKind::Eyes,
            ComponentKind::Mouth,
        ]
    );
    for (i, c) in p.components.iter().enumerate() {
        assert_eq!(c.zindex as usize, i);
        assert!(c.active_state.is_none());
        assert!(c.states.is_empty());
        assert_eq!(c.default_state.name, "new state");
        assert_eq!(c.default_state.position, (0, 0));
    }
}

#[test]
fn generated_state_ids_have_the_advertised_length() {
    let s = State::default();
    assert_eq!(s.id.len(), STATE_ID_LEN);
    assert_eq!(s.name, "new state");
    assert_eq!(s.position, (0, 0));
}

#[test]
fn missing_active_state_falls_back_to_default() {
    let mut c = bare_component();
    c.states.push(named_state("real-id", 3, 4));
    c.active_state = Some("missing-id".to_string());
    assert_eq!(c.get_state().id, "default");
    assert_eq!(c.get_state().position, (0, 0));
}

#[test]
fn active_state_resolves_by_id() {
    let mut c = bare_component();
    c.states.push(named_state("a", 1, 1));
    c.states.push(named_state("b", 2, 2));
    c.active_state = Some("b".to_string());
    assert_eq!(c.get_state().position, (2, 2));
}

#[test]
fn first_matching_state_wins() {
    let mut c = bare_component();
    c.states.push(named_state("dup", 1, 1));
    c.states.push(named_state("dup", 2, 2));
    c.active_state = Some("dup".to_string());
    assert_eq!(c.get_state().position, (1, 1));
}

#[test]
fn get_state_mut_writes_the_resolved_state() {
    let mut c = bare_component();
    c.states.push(named_state("a", 1, 1));
    c.active_state = Some("a".to_string());
    c.get_state_mut().position = (9, 9);
    assert_eq!(c.states[0].position, (9, 9));
    assert_eq!(c.default_state.position, (0, 0));

    // with a stale id, the mutation lands on the default state
    c.active_state = Some("gone".to_string());
    c.get_state_mut().position = (7, 7);
    assert_eq!(c.default_state.position, (7, 7));
    assert_eq!(c.states[0].position, (9, 9));
}

#[test]
fn hit_box_is_centered_on_the_effective_position() {
    let mut c = bare_component();
    c.default_state.position = (0, 0);
    assert_eq!(c.rect(), Rect { x: -5, y: -5, w: 10, h: 10 });

    c.default_state.position = (30, -20);
    assert_eq!(c.rect(), Rect { x: 25, y: -25, w: 10, h: 10 });
}

#[test]
fn component_of_finds_each_kind() {
    let p = Puppet::default();
    for kind in [
        ComponentKind::Head,
        ComponentKind::Hat,
        ComponentKind::Eyes,
        ComponentKind::Mouth,
    ] {
        assert_eq!(p.component_of(kind).kind, kind);
    }
}
