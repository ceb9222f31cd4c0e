[package]
name = "painter"
version = "0.1.0"
edition = "2021"
publish = false

[dependencies]
miniz_oxide = "=0.9.1"
svg = "=0.18.0"
tiny-skia = "=0.12.0"
tiny-skia-path = "=0.12.0"
kurbo = "=0.13.1"
geo-types = "=0.6.2"
geo-booleanop = "=0.3.2"
fontdb = "=0.24.0"
ttf-parser = "=0.25.1"
svgtypes = "=0.16.1"
