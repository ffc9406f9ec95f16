//! The editor, dashboard and share-panel logic behind the desktop interface.
pub mod ai_panel;
pub mod export;
pub mod overlay;
pub mod panels;
pub mod preview;
pub mod ranges;
pub mod recorder;
pub mod share_panel;
pub mod state;
pub mod timeline;
