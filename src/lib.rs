//! A pool of OCR workers: each worker thread owns one recognition engine,
//! tasks are dispatched over a single-producer/multiple-consumer channel and
//! results come back tagged with the id of the task they answer.
//!
//! This crate holds the pool's logic, verified: image-buffer layout and pixel
//! normalization, the all-or-nothing startup report, the worker state
//! machine, task/result correlation and the task submitter.
pub mod dispatch;
pub mod engine;
pub mod error;
pub mod image;
pub mod ledger;
pub mod startup;
pub mod task;
pub mod worker;
