[package]
name = "cndk8"
version = "0.1.0"
edition = "2021"
publish = false

[dependencies]
url = "=2.5.8"
scraper = { version = "=0.19.1", features = ["deterministic"] }
teloxide = { version = "=0.12.2", features = ["macros"] }
# teloxide-core depends on takecell; 0.1.2 needs rustc 1.96, so it is held at 0.1.1.
takecell = "=0.1.1"
tokio = { version = "=1.54.1", features = ["macros", "rt-multi-thread", "fs"] }
reqwest = "=0.11.27"
dptree = "=0.3.0"
log = "=0.4.35"
pretty_env_logger = "=0.5.0"
rand = "=0.8.8"
rand_pcg = "=0.3.1"
rand_seeder = "=0.2.3"
