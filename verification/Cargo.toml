[package]
name = "ceph_backend"
version = "0.1.0"
edition = "2021"
publish = false

[dependencies]
blkid = "*"
block-utils = "*"
ceph = "*"
ceph-safe-disk = "*"
dirs = "*"
fstab = "*"
gpt = "*"
init-daemon = "*"
log = "*"
lvm = "*"
nix = { version = "*", features = ["fs", "ioctl", "user"] }
pwd = "*"
serde = { version = "1", features = ["derive"] }
serde_json = "1"
tempdir = "*"
uuid = { version = "0.8", features = ["v4", "serde"] }
