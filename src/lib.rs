//! Real-time bridge between an audio transport and a hosted VST plugin:
//! MIDI encoding into the plugin's event records, the reusable event batch,
//! the shape check that guards buffer binding, port layout, and the
//! session state machine that orders the calls into the plugin.

pub mod codec;
pub mod binder;
pub mod ports;
pub mod session;
pub mod adapter;
