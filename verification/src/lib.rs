//! Core of a native-view toolkit: a flat arena of nodes owned by a
//! `Context`, views styled through a flexbox model, and ordered
//! multi-subscriber event buses for mouse input.

pub mod context;
pub mod event;
pub mod events;
pub mod node;
pub mod style;
pub mod view;

pub use context::ArenaError;
pub use context::Context;
pub use context::NodeRecord;
pub use context::WeakContext;
pub use event::Event;
pub use node::Node;
pub use node::NodeHandle;
pub use node::NodeId;
pub use node::PlatformNode;
pub use style::Align;
pub use style::Color;
pub use style::Edge;
pub use style::EdgeValues;
pub use style::FlexDirection;
pub use style::Justify;
pub use style::LayoutNode;
pub use style::PositionType;
pub use style::StyleUnit;
pub use style::Wrap;
pub use view::View;
