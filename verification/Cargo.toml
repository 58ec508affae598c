[package]
name = "spreadsheet_ods"
version = "0.1.0"
edition = "2021"
publish = false

[dependencies]
chrono = "=0.4.45"
icu_locid = "=1.5.0"
