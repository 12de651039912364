//! Protocol core of a load-cell instrument: a two-wire bus controller with
//! single-owner sharing, the drivers built on it, and a bit-banged ADC driver.
pub mod event;
pub mod hx711;
pub mod lcd;
pub mod linkedlist;
pub mod pca9685;
pub mod shared;
pub mod twi;
pub mod usart;
