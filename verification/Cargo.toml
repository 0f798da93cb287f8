[package]
name = "nr_data_downloader"
version = "0.1.0"
edition = "2021"
publish = false

[dependencies]
regex = "1"
walkdir = "2"
filetime = "0.2"
dotenv = "0.15"
reqwest = { version = "0.11", features = ["blocking"] }
