mod command;

pub use command::{command_mark, MarkTag, RemoteCommand};
