//! Control core for two real-time audio effects: a cascaded all-pass filter
//! bank with a reconfigurable stage count, and an overlap-add STFT spectral
//! dynamics processor with an optional sidechain analysis path.
//!
//! Everything that decides *what* the audio thread does is in here with a
//! proved contract: when filter coefficients are recomputed, how window size
//! and overlap map to hop size, latency and bin counts, how analysis frames
//! are assembled from the input stream, in which order sidechain and main
//! channels are analyzed, how the dry signal is delayed for latency
//! compensation, which low bins the DC filter clears, and how spectrum
//! snapshots are queued for a visualization consumer. The floating-point
//! sample arithmetic itself (biquad evaluation, windowing, the Fourier
//! transforms, per-bin gains) lives with the host harness; samples pass
//! through this crate as opaque 32-bit patterns whose movement, not value,
//! is what these data structures guarantee.

pub mod backend;
pub mod cascade;
pub mod dc;
pub mod frames;
pub mod gate;
pub mod layout;
pub mod mixer;
pub mod schedule;
pub mod snapshots;
pub mod spectral;
pub mod stft;
