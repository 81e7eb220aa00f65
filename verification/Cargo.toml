[package]
name = "romy-core"
version = "0.1.0"
edition = "2021"
publish = false

[dependencies]
bincode = "1"
byteorder = "1"
clap = "2"
image = { version = "0.23", default-features = false, features = ["png"] }
js-sys = "0.3"
lazy_static = "1"
lewton = "0.10"
mut_static = "5"
sdl2 = "0.32"
serde = { version = "1", features = ["derive"] }
serde_derive = "1"
wasm-bindgen = "0.2"
wasmer-runtime = "1.0.1"
web-sys = { version = "0.3", features = ["AudioBuffer", "AudioContext", "AudioContextState", "AudioDestinationNode", "AudioNode", "AudioProcessingEvent", "BaseAudioContext", "Blob", "BlobPropertyBag", "CanvasRenderingContext2d", "DataTransfer", "Document", "DragEvent", "Element", "Event", "EventTarget", "File", "FileList", "Gamepad", "GamepadButton", "GamepadEvent", "HtmlCanvasElement", "HtmlElement", "ImageData", "KeyboardEvent", "Navigator", "Node", "Performance", "Request", "RequestInit", "RequestMode", "Response", "ScriptProcessorNode", "Url", "Window"] }
