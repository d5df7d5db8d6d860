//! Decision logic of a local audio playback engine: the per-track decode
//! loop, the worker that walks the queue, the transport controller and the
//! record that lets playback resume after a restart.

pub mod result;
pub mod signals;
pub mod track;
pub mod decode;
pub mod source;
pub mod events;
pub mod worker;
pub mod resume;
pub mod transport;
pub mod mixer;
pub mod monitor;
pub mod pcm_card;
