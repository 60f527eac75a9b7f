//! Playback orchestration and audio-feature engine of a terminal music player.
//!
//! The crate holds the session state machine (queue, library panel, cursors,
//! now-playing clock, pending commands), the command protocol that drives it,
//! the sample relay that feeds the analysis buffer, and the decisions of the
//! spectral analyzer (window selection, band layout, normalisation and beat
//! detection). Every function carries a contract over the view of the data it
//! touches.
//!
//! Times are whole milliseconds on one monotonic timeline chosen by the caller.
//! Signal levels are fixed-point numbers in millionths, so `1_000_000` stands
//! for full scale.

pub mod analysis;
pub mod command;
pub mod config;
pub mod context;
pub mod display;
pub mod fetch;
pub mod input;
pub mod keys;
pub mod laws;
pub mod library;
pub mod now_playing;
pub mod parse;
pub mod playback;
pub mod relay;
pub mod search;
pub mod song;
pub mod state;
pub mod text;
pub mod tools;
pub mod visualizer;

pub use analysis::{AnalyzerView, AudioAnalyzer, AudioFeatures, BandEdges, RawLevels};
pub use command::{Action, ActionView, CommandView, PlayerCommand};
pub use config::Config;
pub use fetch::{CachedTrack, CachedView, SearchResult};
pub use input::{InputMode, InputState, InputView};
pub use keys::Key;
pub use library::{EntryView, Library, LibraryEntry, MetaView, SongMeta};
pub use now_playing::{NowPlaying, NowPlayingView};
pub use relay::{SampleBuffer, SampleRelay};
pub use song::{Song, SongStatus, SongView};
pub use state::{AgentStatus, AppState, AppStateView, FocusedPanel};
pub use tools::{ToolCall, ToolCallView};
pub use visualizer::MatrixRain;
