//! AI: request routing between the on-device and cloud backends, prompt
//! construction, and the text processing around the models' answers.
pub mod auto_edit;
pub mod gemini;
pub mod live_assistant;
pub mod nano;
pub mod router;
pub mod search;
pub mod transcription;
pub mod types;
pub mod video_qa;
