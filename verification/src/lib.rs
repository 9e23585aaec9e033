//! Live speech translation: what is sent to the translation service, what is made of its answers,
//! and how the translated audio is queued and played.
use vstd::prelude::*;

pub mod codec;
pub mod console;
pub mod coordinator;
pub mod devices;
pub mod json;
pub mod pcm;
pub mod playback;
pub mod processes;
pub mod protocol;
pub mod ring;
pub mod session;
pub mod sidecar;
pub mod status;
pub mod target;
pub mod text;

verus! {

} // verus!
