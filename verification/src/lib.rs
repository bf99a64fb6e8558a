//! The logic behind a handful of small desktop programs: a countdown timer
//! with its worker, its two buttons and its display; the entry fields of the
//! timer; a flight booking form; a list of names; and a pocket calculator.
//! Everything here works on plain values. Windows, channels, clocks and sound
//! belong to the program that drives this library.

pub mod booking;
pub mod calculator;
pub mod clock;
pub mod control;
pub mod display;
pub mod entry;
pub mod message;
pub mod panel;
pub mod roster;
pub mod worker;
