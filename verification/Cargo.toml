[package]
name = "firewire_ctl"
version = "0.1.0"
edition = "2021"
publish = false

[dependencies]
ta1394-avc-general = "=0.1.0"
ta1394-avc-audio = "=0.1.0"
ta1394-avc-ccm = "=0.1.0"
ta1394-avc-stream-format = "=0.1.0"
glib = "0.15"
hinawa = "0.7"
hitaki = "0.2"
alsactl = "0.4"
alsa-ctl-tlv-codec = "=0.1.1"
ieee1212-config-rom = "=0.1.2"
nix = "0.24"
