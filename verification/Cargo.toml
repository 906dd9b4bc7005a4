[package]
name = "git_features"
version = "0.1.0"
edition = "2021"
publish = false

[dependencies]
num_cpus = "1"
crossbeam-utils = "0.8"
crossbeam-channel = "0.5"
anyhow = "1"
argh = "0.1"
atty = "0.2"
crosstermion = { version = "*", default-features = false, features = ["color"] }
prodash = { version = "*", default-features = false, features = ["progress-tree", "render-line", "render-line-crossterm"] }
imara-diff = "0.1"
bstr = { version = "1", default-features = false }
