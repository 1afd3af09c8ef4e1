//! Decision and text-processing logic of the FlowSight desktop agent: screen-capture
//! planning, the silent screencast session throttle, parsing of portal replies, shell
//! quoting, runtime download planning and the agent's file layout.

pub mod text;
pub mod shell;
pub mod lexorder;
pub mod pathkey;
pub mod order;
pub mod portal_reply;
pub mod screencast;
pub mod platform;
pub mod capture;
pub mod image_codec;
pub mod capture_tools;
pub mod llama;
pub mod paths;
