pub mod app;
pub mod atomic_write;
pub mod cli;
pub mod client;
pub mod commands;
pub mod daemon;
pub mod daemon_exit;
pub mod daemon_log;
pub mod daemon_requests;
pub mod daemon_restore;
pub mod daemon_run;
pub mod daemon_service;
pub mod env_file;
pub mod escape;
pub mod failure;
pub mod file_path;
pub mod ipc;
pub mod logs;
pub mod memory;
pub mod metadata;
pub mod number;
pub mod order;
pub mod paths;
pub mod pid_lock;
pub mod process;
pub mod runtime;
pub mod saved;
pub mod startup;
pub mod text;
pub mod text_map;
pub mod timestamp;
