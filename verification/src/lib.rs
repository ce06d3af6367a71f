//! Verified core of the Pico macropad firmware: the configuration model, the
//! input bookkeeping of encoders and push buttons, and the decisions that the
//! firmware's interrupt handlers take.

pub mod containers;
pub mod encoder;
pub mod example_config;
pub mod firmware;
pub mod model;
pub mod read_config;
pub mod rotary_encoder;
pub mod test_config;
pub mod update_display;

pub use model::{
    ButtonConfig, EncoderConfig, KeyboardCode, LedConfig, MacroConfig, MenuEncoderConfig, NUM_LEDS,
};
