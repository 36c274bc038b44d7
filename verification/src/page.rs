//! USB HID usage pages.
//!
//! Usage assignments follow the USB HID Usage Tables, version 1.12.

pub mod consumer;
pub mod desktop;
pub mod game;
pub mod keyboard;
pub mod leds;
pub mod simulation;
pub mod telephony;

pub use self::consumer::Consumer;
pub use self::desktop::Desktop;
pub use self::game::Game;
pub use self::keyboard::Keyboard;
pub use self::leds::Leds;
pub use self::simulation::Simulation;
pub use self::telephony::Telephony;
