[package]
name = "utility"
version = "0.1.0"
edition = "2021"
publish = false

[dependencies]
clap = "=4.6.7"
reqwest = { version = "=0.12.28", features = ["blocking"] }
shlex = "=1.3.0"
tracing = "=0.1.44"
tracing-subscriber = "=0.3.23"
tracing-tracy = "=0.12.0"
urlencoding = "=2.1.3"
windows = { version = "=0.58.0", features = ["Foundation", "Foundation_Collections", "Media_SpeechSynthesis", "Storage_Streams"] }
