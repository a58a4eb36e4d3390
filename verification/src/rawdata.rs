/// Raw audio: the helper that delivers it and the virtual microphone.
pub mod audio;
/// Raw video: the renderer that delivers frames.
pub mod video;
