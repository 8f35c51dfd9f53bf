//! Execution core of a script-evaluation command: request parsing, the
//! dispatch queue, the parked-reply protocol, the engine lifecycle and the
//! marshaling of values between the host and the script engine.

pub mod codec;
pub mod engine;
pub mod lifecycle;
pub mod marshal;
pub mod pool;
pub mod redisjs;
pub mod reply;
pub mod request;
pub mod value;
pub mod vm;
