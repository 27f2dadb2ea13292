[package]
name = "daq_core"
version = "0.1.0"
edition = "2021"
publish = false

[dependencies]
chrono = "=0.4.45"
rusqlite = "=0.40.2"
egui = "=0.27.2"
egui_plot = "=0.27.2"
