//! Human input: the bounded queue between the keyboard interrupt and its
//! consumer, and the scancode decoder.
pub mod pckbd;
pub mod queue;
