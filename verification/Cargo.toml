[package]
name = "directory_query"
version = "0.1.0"
edition = "2021"
publish = false

[dependencies]
keyring = "=2.3.3"
ldap3 = { version = "=0.11.5", default-features = false, features = ["sync"] }
nu-plugin = "0.90"
nu-protocol = "0.90"
whoami = "=1.6.1"
