//! The services orchestrating the domain models.

pub mod transaction_service;
