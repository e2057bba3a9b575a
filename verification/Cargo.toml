[package]
name = "amm_core"
version = "0.1.0"
edition = "2021"
publish = false

[dependencies]
cosmwasm-std = "=2.3.5"
cw-storage-plus = "=2.0.0"
cw20 = "=2.0.0"
cw20-base = "=2.0.0"
cw-multi-test = "=2.5.1"
schemars = "=0.8.22"
serde = "=1.0.229"
thiserror = "*"
