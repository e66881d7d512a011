//! Live audio-splicing core of a broadcast restreaming service.
//!
//! The crate takes a continuous sequence of decoded audio frames, each tagged
//! with a content classification, and produces a continuous output stream in
//! which advertisement segments are replaced either by an inserted ad track
//! (`AdsMixer`) or by silence (`SilenceMixer`), with crossfaded transitions
//! and gap-free output timing (`Pts`).
//!
//! Audio samples and crossfade coefficients are carried as IEEE-754 bit
//! patterns (`u32` for one sample, `u64` for one coefficient): every decision
//! the splicing machines take — which source feeds a transition, which
//! coefficient pair weights it, which timestamp the emitted frame gets — is
//! exact integer logic over those patterns. The embedding application owns
//! the floating-point evaluation itself: it produces coefficient tables and
//! resolves each emitted [`frame::MixedFrame`] into blended samples.

pub mod ads_planner;
pub mod crossfade;
pub mod frame;
pub mod mixer_ads;
pub mod mixer_silence;
pub mod play_params;
pub mod pts;
