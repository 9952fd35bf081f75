//! Audio device selection, as plain values: the device pipeline itself
//! (enumeration, capture, playback) lives outside the library and is
//! configured from these.

use vstd::prelude::*;

verus! {

/// Device selection as it arrives from the command line.
#[derive(Debug)]
pub struct AudioArgs {
    pub input_device: Option<String>,
    pub output_device: Option<String>,
    pub disable_processing: bool,
}

/// Configuration handed to the audio device pipeline.
#[derive(Debug)]
pub struct AudioConfig {
    pub input_device: Option<String>,
    pub output_device: Option<String>,
    pub processing_enabled: bool,
}

/// Whether two optional device names are the same selection.
pub open spec fn opt_name_eq(a: Option<String>, b: Option<String>) -> bool {
    match (a, b) {
        (Some(x), Some(y)) => x@ == y@,
        (None, None) => true,
        _ => false,
    }
}

/// A duplicate of an optional device name.
fn clone_name(name: &Option<String>) -> (r: Option<String>)
    ensures
        opt_name_eq(r, *name),
{
    match name {
        Some(n) => Some(n.clone()),
        None => None,
    }
}

/// Builds the device pipeline's configuration from the command-line
/// selection: device names carry over unchanged, and processing is
/// enabled exactly when it was not disabled.
pub fn build_audio_config(args: &AudioArgs) -> (r: AudioConfig)
    ensures
        opt_name_eq(r.input_device, args.input_device),
        opt_name_eq(r.output_device, args.output_device),
        r.processing_enabled == !args.disable_processing,
{
    AudioConfig {
        input_device: clone_name(&args.input_device),
        output_device: clone_name(&args.output_device),
        processing_enabled: !args.disable_processing,
    }
}

} // verus!
