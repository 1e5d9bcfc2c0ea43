//! Custom window frames with native behaviour.
//!
//! The crate decides, for every pointer position over a window whose title
//! bar and borders the application draws itself, which part of the frame the
//! position belongs to: the caption, one of the eight resize borders, or the
//! client area. It also decides how a window's message stream is answered
//! and which geometry is handed to the compositor when the frame changes.
//!
//! Everything here is a computation on plain values. The calls that query or
//! change a live window are made by the embedding program, which hands their
//! results to this crate and carries out what it answers.

pub mod customization;
pub mod dark_mode;
pub mod options;
pub mod subclass;
pub mod util;

pub use customization::{AttachError, FrameUpdate, WindowCustomization, WindowFrameMut};
pub use dark_mode::Theme;
pub use hit_test::{Border, HitTestArea, Point, Size};
pub use options::{system_caption_height, HitTestIntercept, Margins, WindowFrame};
pub use util::{PlatformMargins, Rect};
