//! Text to timed Morse pulses: classify characters into symbols, expand symbols into
//! timing elements, compact elements into on/off signals, and scale them to milliseconds.
pub mod compact;
pub mod element;
pub mod led;
pub mod message;
pub mod symbol;

pub use compact::elements_to_signals;
pub use element::{MorseElement, MorseSignal};
pub use led::Led;
pub use message::{encode_message, string_to_values, values_to_elements};
pub use symbol::{MorseError, MorseValue};
