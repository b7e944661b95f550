//! A raw-mode line editor for character-cell terminals.
//!
//! Bytes read from the keyboard are decoded into keys (`keys`), applied to
//! the line being edited (`editor`), and echoed as the caller chose (`echo`).
//! `field` ties these into one session, which can scroll through a bounded
//! history of earlier lines (`history`). Reading and writing the terminal is
//! left to the caller: each step hands back what to print.

pub mod convert;
pub mod echo;
pub mod editor;
pub mod field;
pub mod history;
pub mod keys;
pub mod style;

pub use convert::{string_to_bool, string_to_value};
pub use echo::PrintChar;
pub use editor::LineBuffer;
pub use field::InputField;
pub use history::InputList;
pub use keys::{DecoderState, KeyDecoder, KeyEvent};
pub use style::{FGBG, TextStyle, UserColour, set_colour, set_colours, set_style};
