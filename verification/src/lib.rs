pub mod bot;
pub mod callback_commands;
pub mod commands;
pub mod config;
pub mod decimal;
pub mod db_controller;
pub mod messages;
pub mod models;
pub mod pagination;
pub mod parse;
pub mod plan;
pub mod seq_util;
pub mod store;
pub mod telegram;
pub mod text;
pub mod workflow;
