//! Audio processing unit of an 8-bit handheld console: two pulse channels,
//! a wave-table channel, a noise channel, a frame sequencer and a stereo mixer.
pub mod apu;
pub mod bits;
pub mod dac;
pub mod envelope;
pub mod mixer;
pub mod noise;
pub mod pulse;
pub mod sequencer;
pub mod wave;
