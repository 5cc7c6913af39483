//! The height-alarm library: which floor a climber stands on, when a climb
//! raises an alarm, which clips announce it, and the player lists the
//! alarm watches.
pub mod float_bits;
pub mod floors;
pub mod play_sound;
pub mod players;
pub mod live;
pub mod settings;
