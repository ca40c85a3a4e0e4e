//! Userspace side of the kernel filesystem protocol: decoding of request
//! buffers, the session state machine, dispatch decisions and reply encoding.

pub mod abi;
pub mod bytes;
pub mod request;
pub mod reply;
pub mod session;
pub mod dispatch;
