[package]
name = "leptos_controls"
version = "0.1.0"
edition = "2021"
publish = false

[dependencies]
darling = "=0.20.11"
leptos = "=0.6.15"
proc-macro2 = "=1.0.107"
quote = "=1.0.47"
syn = "=2.0.119"
thaw_utils = "=0.0.6"
