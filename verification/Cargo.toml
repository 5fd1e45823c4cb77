[package]
name = "injector"
version = "0.1.0"
edition = "2021"
publish = false

[dependencies]
log = "0.4"
simplelog = "0.12"
time = { version = "0.3", features = ["macros", "formatting"] }
winapi = { version = "0.3", features = ["basetsd", "errhandlingapi", "handleapi", "libloaderapi", "memoryapi", "minwindef", "processthreadsapi", "psapi", "synchapi", "winbase", "winnt", "winuser", "wow64apiset"] }
