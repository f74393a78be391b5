//! Core logic of a countdown-timer appliance.
//!
//! A small shared state (`elapsed`, `target`) is mutated by three event
//! sources — a 1 Hz tick, an edge-triggered reset, and a periodic analog
//! sampler — and read by a foreground path that renders a fixed-width
//! display frame and, on expiry, drives an indicator through a fixed
//! blink-then-hold finale before reloading the countdown.
//!
//! This crate holds the state-transition rules, the sample quantizer, the
//! time formatting and the finale schedule, all verified; the hardware
//! (timers, button, ADC, display, LED) lives outside and calls in.

pub mod finale;
pub mod frame;
pub mod state;
