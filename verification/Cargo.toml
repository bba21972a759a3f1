[package]
name = "geo_svg_io"
version = "0.1.0"
edition = "2021"

[dependencies]
flo_curves = "=0.8.1"
geo-types = "0.4"
svgtypes = "=0.5.0"
xml-rs = "=0.8.29"
