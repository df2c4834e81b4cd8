//! The user-facing node type: identity, native handle, flexbox style
//! state, and the mouse event buses, with a fluent style-mutation API.
//!
//! Every geometry-affecting setter raises the needs-layout flag on the
//! view's layout node; the platform layer runs the actual layout pass and
//! acknowledges it. Purely native rendering properties (background color,
//! corner radius) bypass layout and leave the flag alone.

use vstd::prelude::*;
use vstd::view::View as _;
use crate::context::emplace_push;
use crate::context::Context;
use crate::context::WeakContext;
use crate::event::Event;
use crate::events::MouseDown;
use crate::events::MouseEnter;
use crate::events::MouseLeave;
use crate::events::MouseUp;
use crate::node::Node;
use crate::node::NodeHandle;
use crate::node::NodeId;
use crate::node::PlatformNode;
use crate::style::Align;
use crate::style::Color;
use crate::style::Edge;
use crate::style::FlexDirection;
use crate::style::Justify;
use crate::style::LayoutNode;
use crate::style::PositionType;
use crate::style::StyleUnit;
use crate::style::Wrap;

verus! {

/// The fundamental component: a container that participates in flexbox
/// layout and maps onto the platform's native view resource. Views nest
/// inside other views; the native handle hierarchy carries the tree
/// shape, while the owning `Context`'s arena stays flat.
pub struct View {
    /// The identity the owning context minted for this view.
    pub id: NodeId,
    /// The native platform resource backing this view.
    pub handle: NodeHandle,
    /// The native handles attached under this view, in attachment order.
    pub children: Vec<NodeHandle>,
    /// Native rendering property; bypasses layout.
    pub background_color: Color,
    /// Native rendering property, integer-scaled; bypasses layout.
    pub corner_radius: i64,
    /// The flexbox style state the layout engine consumes.
    pub layout: LayoutNode,
    /// Non-owning back-reference to the owning context.
    pub context: WeakContext,
    /// Fires when a mouse button goes down inside the view.
    pub on_mouse_down: Event<MouseDown>,
    /// Fires when a mouse button is released inside the view.
    pub on_mouse_up: Event<MouseUp>,
    /// Fires when the cursor enters the view's bounds.
    pub on_mouse_enter: Event<MouseEnter>,
    /// Fires when the cursor leaves the view's bounds.
    pub on_mouse_leave: Event<MouseLeave>,
}

impl View {
    /// Builds a fully initialized, unattached view: a fresh identity from
    /// `context`, a native handle (the model platform provider names it
    /// after the minting identity), a layout node carrying the flexbox
    /// initial values, a transparent background, and empty event buses.
    pub fn new(context: &mut Context) -> (v: View)
        requires
            old(context).wf(),
            old(context).counter() < u64::MAX,
        ensures
            final(context).wf(),
            final(context).counter() == old(context).counter() + 1,
            final(context).nodes() == old(context).nodes(),
            final(context).live() == old(context).live(),
            final(context).serial_spec() == old(context).serial_spec(),
            final(context).issued_ids() == old(context).issued_ids().push(v.id.raw),
            v.id.raw == old(context).counter(),
            v.handle.raw == v.id.raw,
            v.children@ == Seq::<NodeHandle>::empty(),
            v.background_color == Color::transparent_spec(),
            v.corner_radius == 0,
            v.layout == LayoutNode::initial(),
            v.context.serial_of() == old(context).serial_spec(),
            v.on_mouse_down.subscribers() == Seq::<u64>::empty(),
            v.on_mouse_up.subscribers() == Seq::<u64>::empty(),
            v.on_mouse_enter.subscribers() == Seq::<u64>::empty(),
            v.on_mouse_leave.subscribers() == Seq::<u64>::empty(),
    {
        let id = context.next_id();
        View {
            id,
            handle: NodeHandle { raw: id.raw },
            children: Vec::new(),
            background_color: Color::transparent(),
            corner_radius: 0,
            layout: LayoutNode::default(),
            context: context.downgrade(),
            on_mouse_down: Event::new(),
            on_mouse_up: Event::new(),
            on_mouse_enter: Event::new(),
            on_mouse_leave: Event::new(),
        }
    }
}

impl Node for View {
    open spec fn id_spec(&self) -> NodeId {
        self.id
    }

    fn id(&self) -> NodeId {
        self.id
    }
}

impl PlatformNode for View {
    open spec fn handle_spec(&self) -> NodeHandle {
        self.handle
    }

    fn handle(&self) -> NodeHandle {
        self.handle
    }
}

impl From<View> for NodeId {
    /// A view converts to the identity it was created with.
    fn from(view: View) -> (r: NodeId)
        ensures
            r == view.id,
    {
        view.id()
    }
}

impl vstd::std_specs::convert::FromSpecImpl<View> for NodeId {
    open spec fn obeys_from_spec() -> bool {
        true
    }

    open spec fn from_spec(v: View) -> NodeId {
        v.id
    }
}

impl View {
    /// Attaches `node` as a native child of this view and, when the
    /// owning context is still alive, hands ownership of `node` to the
    /// context's arena — registering this view's own record there too.
    /// With the context destroyed, the whole call is a silent no-op: the
    /// stale weak reference reports absence and nothing changes.
    pub fn add<N: Node + PlatformNode>(&mut self, node: N, context: &mut Context)
        requires
            old(context).wf(),
        ensures
            final(context).wf(),
            final(context).live() == old(context).live(),
            final(context).serial_spec() == old(context).serial_spec(),
            final(context).counter() == old(context).counter(),
            final(context).issued_ids() == old(context).issued_ids(),
            !old(self).context.resolves(*old(context)) ==> *final(self) == *old(self)
                && final(context).nodes() == old(context).nodes(),
            old(self).context.resolves(*old(context)) ==> {
                &&& final(self).children@ == old(self).children@.push(node.handle_spec())
                &&& *final(self) == (View { children: final(self).children, ..*old(self) })
                &&& final(context).nodes() == emplace_push(
                    emplace_push(
                        old(context).nodes(),
                        old(context).counter(),
                        old(self).id,
                        old(self).handle,
                    ),
                    old(context).counter(),
                    node.id_spec(),
                    node.handle_spec(),
                )
            },
    {
        let live = self.context.upgrade(&*context).is_some();
        if live {
            self.children.push(node.handle());
            let _ = context.emplace_entry(self.id, self.handle);
            let _ = context.emplace_node(node);
        }
    }
}

impl View {
    /// The bus that fires on a native mouse-button press in this view.
    pub fn mouse_down(&mut self) -> (r: &mut Event<MouseDown>)
        ensures
            *r == old(self).on_mouse_down,
            *final(self) == (View { on_mouse_down: *final(r), ..*old(self) }),
    {
        &mut self.on_mouse_down
    }

    /// The bus that fires on a native mouse-button release in this view.
    pub fn mouse_up(&mut self) -> (r: &mut Event<MouseUp>)
        ensures
            *r == old(self).on_mouse_up,
            *final(self) == (View { on_mouse_up: *final(r), ..*old(self) }),
    {
        &mut self.on_mouse_up
    }

    /// The bus that fires when the cursor enters this view.
    pub fn mouse_enter(&mut self) -> (r: &mut Event<MouseEnter>)
        ensures
            *r == old(self).on_mouse_enter,
            *final(self) == (View { on_mouse_enter: *final(r), ..*old(self) }),
    {
        &mut self.on_mouse_enter
    }

    /// The bus that fires when the cursor leaves this view.
    pub fn mouse_leave(&mut self) -> (r: &mut Event<MouseLeave>)
        ensures
            *r == old(self).on_mouse_leave,
            *final(self) == (View { on_mouse_leave: *final(r), ..*old(self) }),
    {
        &mut self.on_mouse_leave
    }
}

impl View {
    /// Raises the needs-layout flag: the invalidation signal the platform
    /// layer consumes by running a layout pass over the subtree.
    pub fn set_needs_layout(&mut self)
        ensures
            *final(self) == (View {
                layout: (LayoutNode { needs_layout: true, ..old(self).layout }),
                ..*old(self)
            }),
    {
        self.layout.needs_layout = true;
    }

    /// Lowers the needs-layout flag; the platform layer calls this after
    /// a layout pass has run, completing the dirty-to-clean transition.
    pub fn clear_needs_layout(&mut self)
        ensures
            *final(self) == (View {
                layout: (LayoutNode { needs_layout: false, ..old(self).layout }),
                ..*old(self)
            }),
    {
        self.layout.needs_layout = false;
    }

    /// Sets the background color for this view. A native rendering
    /// property: the layout state, including the needs-layout flag, is
    /// untouched.
    ///
    /// Default: transparent.
    pub fn set_background_color(&mut self, color: Color)
        ensures
            *final(self) == (View { background_color: color, ..*old(self) }),
    {
        self.background_color = color;
    }

    /// Sets the corner radius for this view. A native rendering property:
    /// the layout state, including the needs-layout flag, is untouched.
    ///
    /// Default: 0.
    pub fn set_corner_radius(&mut self, radius: i64)
        ensures
            *final(self) == (View { corner_radius: radius, ..*old(self) }),
    {
        self.corner_radius = radius;
    }

    /// Sets the position type, which determines how this view is
    /// positioned within its parent, and schedules a layout re-pass.
    pub fn set_position_type(&mut self, position_type: PositionType)
        ensures
            *final(self) == (View {
                layout: (LayoutNode {
                    position_type,
                    needs_layout: true,
                    ..old(self).layout
                }),
                ..*old(self)
            }),
    {
        self.layout.position_type = position_type;
        self.set_needs_layout();
    }

    /// Sets the relative or absolute (depending on position type) offset
    /// from the specified edge, in points, and schedules a layout
    /// re-pass.
    pub fn set_position(&mut self, edge: Edge, offset: i64)
        ensures
            *final(self) == (View {
                layout: (LayoutNode {
                    position: old(self).layout.position.with_edge(edge, StyleUnit::Point(offset)),
                    needs_layout: true,
                    ..old(self).layout
                }),
                ..*old(self)
            }),
    {
        self.layout.position.set(edge, StyleUnit::Point(offset));
        self.set_needs_layout();
    }

    /// Sets the content alignment — the distribution of wrapped lines
    /// along the cross axis — and schedules a layout re-pass.
    pub fn set_align_content(&mut self, align: Align)
        ensures
            *final(self) == (View {
                layout: (LayoutNode {
                    align_content: align,
                    needs_layout: true,
                    ..old(self).layout
                }),
                ..*old(self)
            }),
    {
        self.layout.align_content = align;
        self.set_needs_layout();
    }

    /// Sets the item alignment for this view's children and schedules a
    /// layout re-pass.
    pub fn set_align_items(&mut self, align: Align)
        ensures
            *final(self) == (View {
                layout: (LayoutNode {
                    align_items: align,
                    needs_layout: true,
                    ..old(self).layout
                }),
                ..*old(self)
            }),
    {
        self.layout.align_items = align;
        self.set_needs_layout();
    }

    /// Sets this view's own alignment, overriding the item alignment of
    /// its parent, and schedules a layout re-pass.
    pub fn set_align_self(&mut self, align: Align)
        ensures
            *final(self) == (View {
                layout: (LayoutNode {
                    align_self: align,
                    needs_layout: true,
                    ..old(self).layout
                }),
                ..*old(self)
            }),
    {
        self.layout.align_self = align;
        self.set_needs_layout();
    }

    /// Sets the flex direction and schedules a layout re-pass.
    pub fn set_flex_direction(&mut self, flex_direction: FlexDirection)
        ensures
            *final(self) == (View {
                layout: (LayoutNode {
                    flex_direction,
                    needs_layout: true,
                    ..old(self).layout
                }),
                ..*old(self)
            }),
    {
        self.layout.flex_direction = flex_direction;
        self.set_needs_layout();
    }

    /// Sets the flex wrap and schedules a layout re-pass.
    pub fn set_flex_wrap(&mut self, wrap: Wrap)
        ensures
            *final(self) == (View {
                layout: (LayoutNode { flex_wrap: wrap, needs_layout: true, ..old(self).layout }),
                ..*old(self)
            }),
    {
        self.layout.flex_wrap = wrap;
        self.set_needs_layout();
    }

    /// Sets the flex grow factor — how remaining main-axis space is
    /// distributed among siblings — and schedules a layout re-pass.
    pub fn set_flex_grow(&mut self, flex_grow: i64)
        ensures
            *final(self) == (View {
                layout: (LayoutNode { flex_grow, needs_layout: true, ..old(self).layout }),
                ..*old(self)
            }),
    {
        self.layout.flex_grow = flex_grow;
        self.set_needs_layout();
    }

    /// Sets the flex shrink factor — how children give up main-axis space
    /// on overflow — and schedules a layout re-pass.
    pub fn set_flex_shrink(&mut self, flex_shrink: i64)
        ensures
            *final(self) == (View {
                layout: (LayoutNode { flex_shrink, needs_layout: true, ..old(self).layout }),
                ..*old(self)
            }),
    {
        self.layout.flex_shrink = flex_shrink;
        self.set_needs_layout();
    }

    /// Sets the flex basis — the default main-axis size — in points and
    /// schedules a layout re-pass.
    pub fn set_flex_basis(&mut self, flex_basis: i64)
        ensures
            *final(self) == (View {
                layout: (LayoutNode {
                    flex_basis: StyleUnit::Point(flex_basis),
                    needs_layout: true,
                    ..old(self).layout
                }),
                ..*old(self)
            }),
    {
        self.layout.flex_basis = StyleUnit::Point(flex_basis);
        self.set_needs_layout();
    }

    /// Sets the main-axis content justification and schedules a layout
    /// re-pass.
    pub fn set_justify_content(&mut self, justify: Justify)
        ensures
            *final(self) == (View {
                layout: (LayoutNode {
                    justify_content: justify,
                    needs_layout: true,
                    ..old(self).layout
                }),
                ..*old(self)
            }),
    {
        self.layout.justify_content = justify;
        self.set_needs_layout();
    }

    /// Sets the margin of the specified edge slot, in points, and
    /// schedules a layout re-pass.
    pub fn set_margin(&mut self, edge: Edge, margin: i64)
        ensures
            *final(self) == (View {
                layout: (LayoutNode {
                    margin: old(self).layout.margin.with_edge(edge, StyleUnit::Point(margin)),
                    needs_layout: true,
                    ..old(self).layout
                }),
                ..*old(self)
            }),
    {
        self.layout.margin.set(edge, StyleUnit::Point(margin));
        self.set_needs_layout();
    }

    /// Sets the padding of the specified edge slot, in points, and
    /// schedules a layout re-pass.
    pub fn set_padding(&mut self, edge: Edge, padding: i64)
        ensures
            *final(self) == (View {
                layout: (LayoutNode {
                    padding: old(self).layout.padding.with_edge(edge, StyleUnit::Point(padding)),
                    needs_layout: true,
                    ..old(self).layout
                }),
                ..*old(self)
            }),
    {
        self.layout.padding.set(edge, StyleUnit::Point(padding));
        self.set_needs_layout();
    }

    /// Sets the minimum width, in points, and schedules a layout re-pass.
    pub fn set_min_width(&mut self, width: i64)
        ensures
            *final(self) == (View {
                layout: (LayoutNode {
                    min_width: StyleUnit::Point(width),
                    needs_layout: true,
                    ..old(self).layout
                }),
                ..*old(self)
            }),
    {
        self.layout.min_width = StyleUnit::Point(width);
        self.set_needs_layout();
    }

    /// Sets the maximum width, in points, and schedules a layout re-pass.
    pub fn set_max_width(&mut self, width: i64)
        ensures
            *final(self) == (View {
                layout: (LayoutNode {
                    max_width: StyleUnit::Point(width),
                    needs_layout: true,
                    ..old(self).layout
                }),
                ..*old(self)
            }),
    {
        self.layout.max_width = StyleUnit::Point(width);
        self.set_needs_layout();
    }

    /// Sets the minimum height, in points, and schedules a layout
    /// re-pass.
    pub fn set_min_height(&mut self, height: i64)
        ensures
            *final(self) == (View {
                layout: (LayoutNode {
                    min_height: StyleUnit::Point(height),
                    needs_layout: true,
                    ..old(self).layout
                }),
                ..*old(self)
            }),
    {
        self.layout.min_height = StyleUnit::Point(height);
        self.set_needs_layout();
    }

    /// Sets the maximum height, in points, and schedules a layout
    /// re-pass.
    pub fn set_max_height(&mut self, height: i64)
        ensures
            *final(self) == (View {
                layout: (LayoutNode {
                    max_height: StyleUnit::Point(height),
                    needs_layout: true,
                    ..old(self).layout
                }),
                ..*old(self)
            }),
    {
        self.layout.max_height = StyleUnit::Point(height);
        self.set_needs_layout();
    }

    /// Sets the width in points and schedules a layout re-pass. The width
    /// holds exactly this unit and value afterwards: a point width and a
    /// percent width overwrite one another.
    pub fn set_width(&mut self, width: i64)
        ensures
            *final(self) == (View {
                layout: (LayoutNode {
                    width: StyleUnit::Point(width),
                    needs_layout: true,
                    ..old(self).layout
                }),
                ..*old(self)
            }),
    {
        self.layout.width = StyleUnit::Point(width);
        self.set_needs_layout();
    }

    /// Sets the width as a percentage of the parent and schedules a
    /// layout re-pass. The width holds exactly this unit and value
    /// afterwards: a percent width and a point width overwrite one
    /// another.
    pub fn set_width_percent(&mut self, width: i64)
        ensures
            *final(self) == (View {
                layout: (LayoutNode {
                    width: StyleUnit::Percent(width),
                    needs_layout: true,
                    ..old(self).layout
                }),
                ..*old(self)
            }),
    {
        self.layout.width = StyleUnit::Percent(width);
        self.set_needs_layout();
    }

    /// Sets the height in points and schedules a layout re-pass. The
    /// height holds exactly this unit and value afterwards: a point
    /// height and a percent height overwrite one another.
    pub fn set_height(&mut self, height: i64)
        ensures
            *final(self) == (View {
                layout: (LayoutNode {
                    height: StyleUnit::Point(height),
                    needs_layout: true,
                    ..old(self).layout
                }),
                ..*old(self)
            }),
    {
        self.layout.height = StyleUnit::Point(height);
        self.set_needs_layout();
    }

    /// Sets the height as a percentage of the parent and schedules a
    /// layout re-pass. The height holds exactly this unit and value
    /// afterwards: a percent height and a point height overwrite one
    /// another.
    pub fn set_height_percent(&mut self, height: i64)
        ensures
            *final(self) == (View {
                layout: (LayoutNode {
                    height: StyleUnit::Percent(height),
                    needs_layout: true,
                    ..old(self).layout
                }),
                ..*old(self)
            }),
    {
        self.layout.height = StyleUnit::Percent(height);
        self.set_needs_layout();
    }
}

} // verus!
