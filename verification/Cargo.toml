[package]
name = "mmm_core"
version = "0.1.0"
edition = "2021"
publish = false

[dependencies]
mpl-token-metadata = "4"
open_creator_protocol = "=0.4.2"
solana-program = "1"
spl-token-2022 = "3"
spl-token-group-interface = "0.2"
spl-token-metadata-interface = "0.3"
