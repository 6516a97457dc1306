//! Nutrition logging core: extraction of nutrition values from free-form
//! answers, the food log and user stores, subscriptions and the signed
//! payment callback.

pub mod clock;
pub mod commands;
pub mod extract;
pub mod food_log;
pub mod locale;
pub mod messages;
pub mod nutrition;
pub mod reply;
pub mod users;
pub mod webhook;
