[package]
name = "yuki"
version = "0.1.0"
edition = "2021"
publish = false

[dependencies]
bitflags = "1"
derive_more = "0.99"
failure = "0.1"
getset = "*"
libc = "0.2"
log = "0.4"
simplelog = "*"
winapi = { version = "0.3", features = ["consoleapi", "wincon", "libloaderapi", "processthreadsapi", "winnt", "minwindef"] }
wio = "0.2"
