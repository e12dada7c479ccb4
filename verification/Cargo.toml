[package]
name = "lunvix"
version = "0.1.0"
edition = "2021"
publish = false

[dependencies]
dashmap = "=6.2.1"
chrono = "=0.4.45"
time = { version = "=0.3.55", features = ["formatting", "parsing", "local-offset"] }
anyhow = "1"
bincode = "=1.3.3"
serde = { version = "1", features = ["derive"] }
redb = "=4.4.0"
jwalk = "=0.9.0"
directories = "=6.0.0"
sysinfo = "=0.40.1"
notify-debouncer-full = "=0.7.0"
trash = "=5.2.9"
