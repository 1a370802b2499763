//! Turns the output of a shell command into a stream of selectable items,
//! and the small pieces of logic around it: field selection, escape-sequence
//! stripping, pre-selection rules, branch listing and colour themes.
//!
//! Everything here decides; nothing here waits or does I/O. The worker
//! loops that read a command's output and tear it down call the reader and
//! teardown state machines of this crate and do what they ask.

pub mod ansi;
pub mod branch;
pub mod collector;
pub mod delimiter;
pub mod field;
pub mod item;
pub mod laws;
pub mod lines;
pub mod number;
pub mod reader;
pub mod selector;
pub mod split;
pub mod teardown;
pub mod text;
pub mod theme;

pub use branch::{Branch, BranchType, LocalBranch, LocalListing, RemoteBranch};
pub use collector::{CollectorInput, SkimItemReader, SkimItemReaderOption};
pub use delimiter::{Delimiter, Pattern, PatternError};
pub use field::FieldRange;
pub use item::Item;
pub use reader::{ReaderAction, ReaderEvent, ReaderPhase, ReaderWorker};
pub use selector::DefaultSkimSelector;
pub use teardown::{ExitCheck, TeardownAction, TeardownEvent, TeardownPhase, TeardownWorker};
pub use theme::{Attr, Color, ColorTheme, Effect};
