//! State core of a tiling window manager.
//!
//! The hierarchy is built from one kind of collection, the [`ring::Ring`]: an
//! ordered sequence with one focused position. A [`monitor::Monitor`] holds a
//! ring of [`workspace::Workspace`]s, a workspace a ring of
//! [`container::Container`]s, a container a ring of
//! [`window::WindowHandle`]s. Elements are addressed by their index.
//!
//! The hierarchy changes through the commands of [`message::SocketMessage`],
//! which travel as JSON text.
//!
//! Nothing here touches the desktop: where windows are to be shown, hidden or
//! laid out, the operations return what is to be done.

pub mod container;
pub mod direction;
pub mod error;
pub mod json;
pub mod layout;
pub mod message;
pub mod monitor;
pub mod rect;
pub mod ring;
pub mod settings;
pub mod sizing;
pub mod text;
pub mod window;
pub mod workspace;

pub use direction::Axis;
pub use direction::CycleDirection;
pub use direction::OperationDirection;
pub use layout::DefaultLayout;
pub use message::SocketMessage;
pub use monitor::Monitor;
pub use rect::Rect;
pub use settings::ApplicationIdentifier;
pub use settings::FocusFollowsMouseImplementation;
pub use settings::HidingBehaviour;
pub use settings::StateQuery;
pub use settings::WindowContainerBehaviour;
pub use sizing::Sizing;
