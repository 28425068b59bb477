pub mod styles;
pub mod text;
pub mod buttons;
pub mod clock;
pub mod dialogue;
pub mod effect;
pub mod keyboard;
pub mod reminders;
pub mod router;
pub mod schedule;
pub mod settings;
pub mod laws;
