pub mod api;
pub mod character;
pub mod chat_service;
pub mod errors;
pub mod json;
pub mod memory_repository;
pub mod ports;
pub mod provider;
pub mod speak_service;
pub mod talk;
