pub mod active_display_plan;
pub mod background;
pub mod bytes;
pub mod collector;
pub mod device;
pub mod display_trace;
pub mod elf;
pub mod framebuffer;
pub mod guardian;
pub mod images;
pub mod input_event;
pub mod inputs;
pub mod kindle_device;
pub mod literary_clock;
pub mod local_clock;
pub mod mounts;
pub mod nonzero;
pub mod number;
pub mod pattern;
pub mod power;
pub mod probe;
pub mod processes;
pub mod profile;
pub mod redaction;
pub mod refresh;
pub mod runtime;
pub mod services;
pub mod session;
pub mod shell;
pub mod sorting;
pub mod string_map;
pub mod system;
pub mod text;
pub mod trace;
pub mod transform;
pub mod warning;
pub mod window;
pub mod wording;
