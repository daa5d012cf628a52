//! Rendering core of a tone-and-silence stimulus generator: a seedable
//! Tausworthe random source, the segment state machine that it drives, the
//! sample counter of an oscillator's frequency glide, and the start/stop
//! bookkeeping of a player.
pub mod taus88;
pub mod draws;
pub mod sequencer;
pub mod glide;
pub mod control;
