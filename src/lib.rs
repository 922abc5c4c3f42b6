//! A continuously sampled, multi-channel analog acquisition pipeline: a
//! circular transfer engine that fills a ring of raw codes, a consumer that
//! drains and averages whole double frames, and the calibration arithmetic that
//! turns the averages into millivolts and degrees Celsius.

pub mod calibration;
pub mod consumer;
pub mod sequence;
pub mod transfer;
