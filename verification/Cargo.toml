[package]
name = "osm_census"
version = "0.1.0"
edition = "2021"
publish = false

[dependencies]
quick-xml = "*"
bzip2 = "*"
structopt = "*"
