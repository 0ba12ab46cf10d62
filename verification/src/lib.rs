//! Protocol core for uploading a watch-face image to a DA FIT / MO YOUNG
//! smart watch over Bluetooth LE.
//!
//! The crate holds the two parts of the program with real correctness
//! concerns: deciding whether a discovered peripheral speaks the vendor
//! protocol ([`qualify`]), and driving the request-driven chunked transfer
//! of the image ([`engine`], with the wire codec in [`frames`] and the
//! chunk arithmetic in [`chunks`]). Radio I/O, scanning and the command
//! line live outside the library and hand plain values in.

pub mod chunks;
pub mod engine;
pub mod frames;
pub mod ids;
pub mod inspect;
pub mod nonempty;
pub mod qualify;
