[package]
name = "html_query"
version = "0.1.0"
edition = "2021"
publish = false

[dependencies]
scraper = "*"
sxd-document = "*"
sxd_html = "*"
sxd-xpath = "*"
