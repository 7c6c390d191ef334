//! Core logic of a background eye-rest reminder.

pub mod app_loop;
pub mod identity;
pub mod notification;
pub mod registration;
pub mod scheduler;
pub mod tray;
