[package]
name = "string_templater"
version = "0.1.0"
edition = "2021"
publish = false

[dependencies]
serde = "*"
serde_json = "*"
handlebars = "*"
yew = "*"
