//! Stackful coroutines that bridge synchronous code and a cooperative
//! asynchronous runtime: the layout of fiber stacks, the state machine of a
//! generator running on its own stack, and the per-thread chain of
//! coroutine contexts through which a synchronous body waits on futures.
//! The context switch itself and the mapping of memory are performed by the
//! caller; every decision around them is taken, and proved, here.

pub mod fiber;
pub mod future;
pub mod generator;
pub mod page_size;
