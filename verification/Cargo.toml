[package]
name = "csv2bibtex"
version = "0.1.0"
edition = "2021"
publish = false

[dependencies]
anyhow = "=1.0.104"
biblatex = "=0.6.0"
clap = "=4.6.7"
csv = "=1.4.0"
log = "=0.4.34"
simplelog = "=0.12.2"
