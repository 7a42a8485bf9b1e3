[package]
name = "contour_mesh"
version = "0.1.0"
edition = "2021"
publish = false

[dependencies]
zip = { version = "=9.1.0", default-features = false, features = ["deflate"] }
shapefile = "=0.9.0"
delaunator = "=1.1.0"
nalgebra-glm = "=0.21.0"
wasm-bindgen = "=0.2.129"
wasm-bindgen-futures = "=0.4.79"
js-sys = "=0.3.106"
web-sys = { version = "=0.3.106", features = ["DedicatedWorkerGlobalScope", "Headers", "Request", "RequestInit", "RequestMode", "Response", "Window", "WorkerGlobalScope"] }
console_error_panic_hook = "=0.1.7"
