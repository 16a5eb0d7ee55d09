[package]
name = "testing_library_dom"
version = "0.1.0"
edition = "2021"
publish = false

[dependencies]
ansi-style = "*"
aria-query = "*"
dom-accessibility-api = "*"
js-sys = "*"
log = "0.4"
regex = "1"
thiserror = "*"
wasm-bindgen = "0.2"
wasm-bindgen-futures = "0.4"
web-sys = { version = "0.3", features = ["AnimationEvent", "AnimationEventInit", "Attr", "ClipboardEvent", "ClipboardEventInit", "Comment", "CompositionEvent", "CompositionEventInit", "CssStyleDeclaration", "Document", "DragEvent", "DragEventInit", "Element", "Event", "EventInit", "EventTarget", "FocusEvent", "FocusEventInit", "HtmlCollection", "HtmlElement", "HtmlInputElement", "HtmlLabelElement", "HtmlOptionElement", "HtmlOptionsCollection", "HtmlSelectElement", "HtmlTextAreaElement", "InputEvent", "InputEventInit", "KeyboardEvent", "KeyboardEventInit", "MouseEvent", "MouseEventInit", "NamedNodeMap", "Node", "NodeList", "PageTransitionEvent", "PageTransitionEventInit", "PointerEvent", "PointerEventInit", "PopStateEvent", "PopStateEventInit", "ProgressEvent", "ProgressEventInit", "Text", "TouchEvent", "TouchEventInit", "TransitionEvent", "TransitionEventInit", "UiEvent", "UiEventInit", "WheelEvent", "WheelEventInit", "Window"] }
