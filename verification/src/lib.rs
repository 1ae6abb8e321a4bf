//! The state machine behind a small desktop client for composing HTTP
//! requests and inspecting their responses.
//!
//! Every screen is a value that is advanced by messages: `update` maps the
//! current state and one message to the next state and to the effects that
//! the runtime has to carry out, and `view` describes what the screen shows.
//! The one effect, an HTTP call, is handed out as a plain value and its
//! result comes back as another message, so no call is made from here. The
//! editors' buffers are the toolkit's own, and the toolkit reads the
//! machine's fonts when the first buffer is made.

pub mod characters;
pub mod interaction;
pub mod request;
pub mod screens;
pub mod text_buffer;
pub mod widgets;
