//! The state and rules of a desktop YouTube client: its tabs, play queue,
//! history, bookmarks, profiles and the fullscreen/titlebar state machine.
//! Window and webview work is done by the host application, which hands the
//! library plain values and performs the actions the library decides on.
pub mod clock;
pub mod display;
pub mod history;
pub mod items;
pub mod media;
pub mod profiles;
pub mod queue;
pub mod scripts;
pub mod seqs;
pub mod state;
pub mod tabs;
pub mod text;
