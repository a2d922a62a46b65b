[package]
name = "tokterm"
version = "0.1.0"
edition = "2021"
publish = false

[dependencies]
termion = "1.5"
ncurses = "5"
winapi = { version = "0.3", features = ["consoleapi", "wincon", "wincontypes", "winuser", "windef", "fileapi", "handleapi", "processenv", "winbase", "winnt"] }
