use viewtree::events::MouseDown;
use viewtree::ArenaError;
use viewtree::Color;
use viewtree::Context;
use viewtree::Edge;
use viewtree::Event;
use viewtree::FlexDirection;
use viewtree::Justify;
use viewtree::LayoutNode;
use viewtree::Node;
use viewtree::NodeHandle;
use viewtree::NodeId;
use viewtree::PlatformNode;
use viewtree::PositionType;
use viewtree::StyleUnit;
use viewtree::View;
use viewtree::Wrap;

#[test]
fn dispatch_fires_in_registration_order_each_once_same_payload() {
    let mut bus: Event<MouseDown> = Event::new();
    bus.add(7);
    bus.add(3);
    bus.add(7);
    let e = MouseDown { x: 10, y: -4 };
    let plan = bus.dispatch(e);
    assert_eq!(plan.len(), 3);
    assert_eq!(plan[0], (7, e));
    assert_eq!(plan[1], (3, e));
    assert_eq!(plan[2], (7, e));
}

#[test]
fn dispatch_on_empty_bus_fires_nothing() {
    let bus: Event<MouseDown> = Event::new();
    let plan = bus.dispatch(MouseDown { x: 0, y: 0 });
    assert!(plan.is_empty());
}

#[test]
fn next_id_yields_distinct_strictly_increasing_ids() {
    let mut c = Context::new(1);
    let mut last: Option<u64> = None;
    for _ in 0..100 {
        let id = c.next_id();
        if let Some(prev) = last {
            assert!(id.raw > prev);
        }
        last = Some(id.raw);
    }
}

#[test]
fn upgrade_resolves_while_context_lives() {
    let c = Context::new(9);
    let w = c.downgrade();
    assert!(w.upgrade(&c).is_some());
}

#[test]
fn upgrade_after_destroy_reports_absence() {
    let mut c = Context::new(9);
    let w = c.downgrade();
    c.destroy();
    assert!(w.upgrade(&c).is_none());
}

#[test]
fn upgrade_against_foreign_context_reports_absence() {
    let c1 = Context::new(1);
    let c2 = Context::new(2);
    let w = c1.downgrade();
    assert!(w.upgrade(&c2).is_none());
}

#[test]
fn geometry_setters_raise_needs_layout() {
    let mut c = Context::new(0);
    let checks: Vec<fn(&mut View)> = vec![
        |v| v.set_position_type(PositionType::Absolute),
        |v| v.set_position(Edge::Left, 4),
        |v| v.set_align_content(viewtree::Align::Center),
        |v| v.set_align_items(viewtree::Align::FlexEnd),
        |v| v.set_align_self(viewtree::Align::Stretch),
        |v| v.set_flex_direction(FlexDirection::Row),
        |v| v.set_flex_wrap(Wrap::Wrap),
        |v| v.set_flex_grow(2),
        |v| v.set_flex_shrink(1),
        |v| v.set_flex_basis(120),
        |v| v.set_justify_content(Justify::SpaceBetween),
        |v| v.set_margin(Edge::All, 8),
        |v| v.set_padding(Edge::Top, 2),
        |v| v.set_min_width(10),
        |v| v.set_max_width(300),
        |v| v.set_min_height(10),
        |v| v.set_max_height(300),
        |v| v.set_width(100),
        |v| v.set_width_percent(50),
        |v| v.set_height(40),
        |v| v.set_height_percent(25),
    ];
    for setter in checks {
        let mut v = View::new(&mut c);
        assert!(!v.layout.needs_layout);
        setter(&mut v);
        assert!(v.layout.needs_layout);
    }
}

#[test]
fn non_geometry_setters_leave_needs_layout_alone() {
    let mut c = Context::new(0);
    let mut v = View::new(&mut c);
    assert!(!v.layout.needs_layout);
    v.set_background_color(Color { r: 1, g: 2, b: 3, a: 4 });
    assert!(!v.layout.needs_layout);
    v.set_corner_radius(6);
    assert!(!v.layout.needs_layout);
    assert_eq!(v.background_color, Color { r: 1, g: 2, b: 3, a: 4 });
    assert_eq!(v.corner_radius, 6);
}

#[test]
fn clear_needs_layout_completes_the_dirty_clean_cycle() {
    let mut c = Context::new(0);
    let mut v = View::new(&mut c);
    v.set_width(10);
    assert!(v.layout.needs_layout);
    v.clear_needs_layout();
    assert!(!v.layout.needs_layout);
}

#[test]
fn point_and_percent_widths_override_each_other() {
    let mut c = Context::new(0);
    let mut v = View::new(&mut c);
    v.set_width_percent(50);
    assert_eq!(v.layout.width, StyleUnit::Percent(50));
    v.set_width(100);
    assert_eq!(v.layout.width, StyleUnit::Point(100));
    v.set_width_percent(75);
    assert_eq!(v.layout.width, StyleUnit::Percent(75));
    v.set_height(30);
    assert_eq!(v.layout.height, StyleUnit::Point(30));
    v.set_height_percent(10);
    assert_eq!(v.layout.height, StyleUnit::Percent(10));
}

#[test]
fn repeating_a_setter_reproduces_the_same_state() {
    let mut c = Context::new(0);
    let mut v = View::new(&mut c);
    v.set_width(100);
    let once = v.layout;
    v.set_width(100);
    assert_eq!(v.layout, once);
    v.set_margin(Edge::All, 8);
    let with_margin = v.layout;
    v.set_margin(Edge::All, 8);
    assert_eq!(v.layout, with_margin);
}

#[test]
fn add_emplaces_parent_and_child_and_attaches_native_handle() {
    let mut c = Context::new(0);
    let mut a = View::new(&mut c);
    let b = View::new(&mut c);
    let a_id = a.id();
    let b_id = b.id();
    let b_handle = b.handle();
    a.add(b, &mut c);
    assert!(c.contains_entry(a_id));
    assert!(c.contains_entry(b_id));
    assert_eq!(c.node_count(), 2);
    assert_eq!(a.children, vec![b_handle]);
}

#[test]
fn children_attach_in_call_order() {
    let mut c = Context::new(0);
    let mut a = View::new(&mut c);
    let b = View::new(&mut c);
    let d = View::new(&mut c);
    let b_handle = b.handle();
    let d_handle = d.handle();
    a.add(b, &mut c);
    a.add(d, &mut c);
    assert_eq!(a.children, vec![b_handle, d_handle]);
    assert_eq!(c.node_count(), 3);
}

#[test]
fn mouse_down_subscriber_fires_exactly_once_with_payload() {
    let mut c = Context::new(0);
    let mut v = View::new(&mut c);
    v.mouse_down().add(42);
    let payload = MouseDown { x: 5, y: 9 };
    let plan = v.on_mouse_down.dispatch(payload);
    let fired: Vec<&(u64, MouseDown)> = plan.iter().filter(|p| p.0 == 42).collect();
    assert_eq!(fired.len(), 1);
    assert_eq!(*fired[0], (42, payload));
}

#[test]
fn add_after_destroy_is_a_silent_no_op() {
    let mut c = Context::new(0);
    let mut a = View::new(&mut c);
    c.destroy();
    let b = View::new(&mut c);
    a.add(b, &mut c);
    assert_eq!(c.node_count(), 0);
    assert!(a.children.is_empty());
}

#[test]
fn new_view_carries_flexbox_initial_values() {
    let mut c = Context::new(0);
    let v = View::new(&mut c);
    assert_eq!(v.layout, LayoutNode::default());
    assert_eq!(v.layout.position_type, PositionType::Relative);
    assert_eq!(v.layout.flex_direction, FlexDirection::Column);
    assert_eq!(v.layout.justify_content, Justify::FlexStart);
    assert_eq!(v.layout.flex_wrap, Wrap::NoWrap);
    assert_eq!(v.layout.flex_grow, 0);
    assert_eq!(v.layout.flex_shrink, 0);
    assert_eq!(v.layout.width, StyleUnit::Auto);
    assert_eq!(v.layout.height, StyleUnit::Auto);
    assert_eq!(v.layout.min_width, StyleUnit::Undefined);
    assert_eq!(v.layout.margin.left, StyleUnit::Undefined);
    assert_eq!(v.background_color, Color { r: 0, g: 0, b: 0, a: 0 });
    assert_eq!(v.corner_radius, 0);
    assert!(!v.layout.needs_layout);
    assert!(v.children.is_empty());
}

#[test]
fn per_edge_slots_are_stored_separately() {
    let mut c = Context::new(0);
    let mut v = View::new(&mut c);
    v.set_margin(Edge::Left, 1);
    v.set_margin(Edge::Top, 2);
    v.set_margin(Edge::All, 9);
    assert_eq!(v.layout.margin.left, StyleUnit::Point(1));
    assert_eq!(v.layout.margin.top, StyleUnit::Point(2));
    assert_eq!(v.layout.margin.all, StyleUnit::Point(9));
    assert_eq!(v.layout.margin.right, StyleUnit::Undefined);
    v.set_padding(Edge::Horizontal, 3);
    assert_eq!(v.layout.padding.horizontal, StyleUnit::Point(3));
    v.set_position(Edge::Bottom, -7);
    assert_eq!(v.layout.position.bottom, StyleUnit::Point(-7));
}

#[test]
fn emplace_rejects_foreign_and_duplicate_ids() {
    let mut c = Context::new(0);
    let v = View::new(&mut c);
    let id = v.id();
    let handle = v.handle();
    assert_eq!(c.emplace_entry(id, handle), Ok(()));
    assert_eq!(c.emplace_entry(id, handle), Err(ArenaError::DuplicateId));
    let foreign = NodeId { raw: 1000 };
    assert_eq!(
        c.emplace_entry(foreign, NodeHandle { raw: 1000 }),
        Err(ArenaError::ForeignId)
    );
    assert_eq!(c.node_count(), 1);
}

#[test]
fn emplace_node_stores_the_capability_surface() {
    let mut c = Context::new(0);
    let v = View::new(&mut c);
    let id = v.id();
    assert_eq!(c.emplace_node(v), Ok(()));
    assert!(c.contains_entry(id));
}

#[test]
fn view_converts_into_its_node_id() {
    let mut c = Context::new(0);
    let v = View::new(&mut c);
    let expected = v.id();
    let got: NodeId = v.into();
    assert_eq!(got, expected);
}

#[test]
fn views_from_one_context_get_distinct_ids_and_matching_handles() {
    let mut c = Context::new(0);
    let a = View::new(&mut c);
    let b = View::new(&mut c);
    assert_ne!(a.id(), b.id());
    assert_eq!(a.handle().raw, a.id().raw);
    assert_eq!(b.handle().raw, b.id().raw);
}

#[test]
fn event_buses_on_a_view_are_independent() {
    let mut c = Context::new(0);
    let mut v = View::new(&mut c);
    v.mouse_down().add(1);
    v.mouse_up().add(2);
    v.mouse_enter().add(3);
    v.mouse_leave().add(4);
    assert_eq!(v.on_mouse_down.dispatch(MouseDown { x: 0, y: 0 }).len(), 1);
    assert_eq!(
        v.on_mouse_up.dispatch(viewtree::events::MouseUp { x: 0, y: 0 })[0].0,
        2
    );
    assert_eq!(
        v.on_mouse_enter.dispatch(viewtree::events::MouseEnter { x: 0, y: 0 })[0].0,
        3
    );
    assert_eq!(
        v.on_mouse_leave.dispatch(viewtree::events::MouseLeave { x: 0, y: 0 })[0].0,
        4
    );
}

#[test]
fn destroy_empties_the_arena() {
    let mut c = Context::new(0);
    let mut a = View::new(&mut c);
    let b = View::new(&mut c);
    a.add(b, &mut c);
    assert_eq!(c.node_count(), 2);
    c.destroy();
    assert_eq!(c.node_count(), 0);
}
