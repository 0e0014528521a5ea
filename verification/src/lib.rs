//! Pin map and self-test harness for the SkyRizz E32 board (ESP32-S3).
#![allow(dead_code)]

pub mod board;
pub mod text;
pub mod transcript;
