//! The logic of a dictation application: recordings are transcribed in the
//! background while the user keeps talking, and what was said is pasted in
//! order into the window where the user began.

pub mod actions;
pub mod bindings;
pub mod chinese;
pub mod decimal;
pub mod effects;
pub mod json;
pub mod paste_queue;
pub mod pipeline;
pub mod pipeline_laws;
pub mod post_process;
pub mod post_process_laws;
pub mod segment_laws;
pub mod segment_task;
pub mod session_laws;
pub mod settings;
pub mod task_laws;
pub mod text;
pub mod text_laws;
pub mod transcription_coordinator;
pub mod utils;
pub mod view_laws;
pub mod window_focus;
pub mod window_focus_laws;
