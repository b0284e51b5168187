[package]
name = "eink_clock"
version = "0.1.0"
edition = "2021"
publish = false

[dependencies]
cairo-rs = { version = "=0.9.1", features = ["png"] }
chrono = "=0.4.45"
clap = "=2.34.0"
env_logger = "=0.8.4"
futures = "=0.3.34"
ipnetwork = "=0.18.0"
log = "=0.4.34"
metar = "=0.7.7"
netlink-packet-route = "=0.8.0"
png = "=0.16.8"
reqwest = "=0.11.27"
resvg = "=0.9.2"
rtnetlink = "=0.8.1"
rusb = "=0.8.1"
ssh2 = "=0.9.6"
tokio = { version = "=1.54.1", features = ["full"] }
uom = "=0.31.1"
usvg = "=0.9.1"
