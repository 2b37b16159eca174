[package]
name = "bunker"
version = "0.1.0"
edition = "2021"
publish = false

[dependencies]
nostro2 = "=0.3.10"
nostro2-signer = "=0.1.12"
nostro2-nips = "=0.1.7"
rooky-core = "=0.1.0"
nostr-minions = { version = "=0.1.19", features = ["toastify"] }
shady-minions = "=0.1.7"
lucide-yew = "=1.2.0"
yew = { version = "=0.21.0", features = ["csr"] }
yew-router = "0.18"
gloo = { version = "=0.11.0", features = ["futures"] }
web-sys = { version = "0.3", features = ["Window", "Document", "Element", "Node", "EventTarget", "Event", "MouseEvent", "KeyboardEvent", "HtmlFormElement", "HtmlInputElement", "Blob", "Url", "console"] }
futures-util = "0.3"
shakmaty = "=0.27.3"
chrono = "=0.4.45"
serde = { version = "=1.0.229", features = ["derive"] }
serde_json = "=1.0.154"
