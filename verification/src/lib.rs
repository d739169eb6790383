//! Verified core of a MIDI grid-controller translator.
//!
//! The crate models the channel-voice subset of the MIDI wire format, the
//! pitch-class value used as a mapping key, the table that binds pads to
//! actions, and the decision logic of the two concurrent tasks that route
//! events between a device and an action executor.  Transport I/O, the task
//! scheduler and the executor itself live outside the library and only
//! exchange plain values with it.
use vstd::prelude::*;

pub mod cancel;
pub mod config;
pub mod input;
pub mod output;
pub mod mapping;
pub mod message;
pub mod note;

verus! {

/// Names used to pick the MIDI input and output ports of a device.
pub trait DeviceNameRetrieve {
    /// Name of the input port to open, or `None` to let the caller choose.
    fn get_input_name(&self) -> Option<String>;

    /// Name of the output port to open, or `None` to let the caller choose.
    fn get_output_name(&self) -> Option<String>;
}

} // verus!
