[package]
name = "sip2_mediator"
version = "0.1.0"
edition = "2021"
publish = false

[dependencies]
getopts = "=0.2.24"
json = "=0.12.4"
log = "=0.4.34"
reqwest = { version = "=0.11.27", default-features = false, features = ["blocking", "rustls-tls"] }
serde_urlencoded = "=0.7.1"
sip2 = { version = "=0.3.4", features = ["json"] }
syslog = "=6.1.1"
threadpool = "=1.8.1"
uuid = { version = "=1.29.0", features = ["v4"] }
