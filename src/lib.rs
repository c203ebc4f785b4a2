pub mod checkbox;
pub mod event;
pub mod listener;
pub mod observer;
pub mod widget;

pub use checkbox::{CheckBox, CheckBoxView};
pub use event::Event;
pub use listener::Listener;
pub use observer::{Observer, ObserverDataError, Snapshot, SnapshotField};
pub use widget::Widget;
