use vstd::prelude::*;
use crate::binder::BufferBinder;

verus! {

/// The ports registered with the audio transport: one audio port per
/// declared plugin channel, and the MIDI inputs the plugin declares plus any
/// extra ones the operator asks for.
#[derive(Clone, Copy, Debug, PartialEq, Eq, Structural)]
pub struct PortLayout {
    pub audio_inputs: u32,
    pub audio_outputs: u32,
    pub midi_inputs: u32,
}

/// Why setup refuses to install the period callback.
#[derive(Clone, Copy, Debug, PartialEq, Eq, Structural)]
pub enum SetupError {
    /// The transport provides another number of input channels than declared.
    InputCountMismatch,
    /// The transport provides another number of output channels than declared.
    OutputCountMismatch,
}

/// A declared count as a number of ports: negative counts give no port.
pub open spec fn port_count(n: int) -> int {
    if n < 0 {
        0
    } else {
        n
    }
}

impl PortLayout {
    /// The ports for a plugin that declares `inputs` audio inputs, `outputs`
    /// audio outputs and `midi_inputs` MIDI inputs, with `extra_midi_inputs`
    /// more MIDI inputs on top.
    pub fn from_info(inputs: i32, outputs: i32, midi_inputs: i32, extra_midi_inputs: i32) -> (r: PortLayout)
        ensures
            r.audio_inputs == port_count(inputs as int),
            r.audio_outputs == port_count(outputs as int),
            r.midi_inputs == port_count(midi_inputs + extra_midi_inputs),
    {
        let audio_inputs: u32 = if inputs < 0 { 0 } else { inputs as u32 };
        let audio_outputs: u32 = if outputs < 0 { 0 } else { outputs as u32 };
        let midi: i64 = midi_inputs as i64 + extra_midi_inputs as i64;
        let midi_inputs: u32 = if midi < 0 { 0 } else { midi as u32 };
        PortLayout { audio_inputs, audio_outputs, midi_inputs }
    }

    /// The binder for the declared audio channels.
    pub fn binder(&self) -> (r: BufferBinder)
        ensures
            r.inputs == self.audio_inputs,
            r.outputs == self.audio_outputs,
    {
        BufferBinder::new(self.audio_inputs as usize, self.audio_outputs as usize)
    }

    /// Checks, before the callback is installed, that the transport provides
    /// exactly the declared number of audio channels each way.
    pub fn check_transport(&self, inputs: usize, outputs: usize) -> (r: Result<(), SetupError>)
        ensures
            inputs != self.audio_inputs ==> r == Err::<(), SetupError>(SetupError::InputCountMismatch),
            inputs == self.audio_inputs && outputs != self.audio_outputs
                ==> r == Err::<(), SetupError>(SetupError::OutputCountMismatch),
            r is Ok <==> (inputs == self.audio_inputs && outputs == self.audio_outputs),
    {
        if inputs != self.audio_inputs as usize {
            Err(SetupError::InputCountMismatch)
        } else if outputs != self.audio_outputs as usize {
            Err(SetupError::OutputCountMismatch)
        } else {
            Ok(())
        }
    }
}

} // verus!
