[package]
name = "portfolio_tui"
version = "0.1.0"
edition = "2021"
publish = false

[dependencies]
ratzilla = "=0.2.0"
ratatui = "0.29.0"
web-time = "1.1.0"
console_error_panic_hook = "0.1.7"
console_log = "1.1.0"
log = "0.4"
