//! The core of a modal text editor for the terminal.
//!
//! The document is a tree of six kinds of node: a root of windows, windows
//! of windows and texts, texts of lines, lines of spans, spans of
//! characters. A zipper names the node in focus and moves among parents,
//! children and siblings; the cursor is seen because the characters of the
//! focus carry its look. Keys are read as commands in one of three modes,
//! a command changes the mode, moves the focus or edits a text, and a
//! frame copies what the tree shows and is drawn into the terminal's cell
//! buffer.
//!
//! - [`primatives`]: the nodes of the tree and how children are put in,
//!   taken out and replaced;
//! - [`loading`]: from a string to a text;
//! - [`edit`]: the edits of a text;
//! - [`address`]: paths into the tree;
//! - [`zipper`]: the cursor and its moves, and [`moves`]: what holds of
//!   every move;
//! - [`input`]: from keys to commands, and [`control`]: from commands to
//!   moves and edits;
//! - [`frame`]: frames of the tree, and [`render`]: how a frame is drawn;
//! - [`buffer`]: the terminal's cell buffer, as the drawing code knows it;
//! - [`geometry`], [`style`], [`tui`], [`flipflop`]: rectangles, colours,
//!   the frame clock, and a value kept twice.

pub mod address;
pub mod buffer;
pub mod control;
pub mod edit;
pub mod flipflop;
pub mod frame;
pub mod geometry;
pub mod input;
pub mod loading;
pub mod moves;
pub mod primatives;
pub mod render;
pub mod style;
pub mod tui;
pub mod zipper;
