[package]
name = "upload_images_to_icp_asset"
version = "0.1.0"
edition = "2021"
publish = false

[dependencies]
sha2 = "=0.10.9"
candid = "=0.10.37"
ic-agent = "=0.49.2"
serde_bytes = "=0.11.19"
futures = "*"
