//! The event reactor and re-entrancy-safe dispatch pipeline of a Win32
//! windowing layer, with the decisions it takes stated and proved.

pub mod class;
pub mod client;
pub mod error;
pub mod event;
pub mod procedure;
pub mod reactor_loop;
pub mod window_state;

pub use client::Client;
pub use error::Error;
pub use event::Event;
