//! Host-side bookkeeping for the objects of an OpenGL driver: buffers, vertex
//! arrays, shader stages, programs and uniforms.
//!
//! The library owns no context and makes no call. Every operation hands back
//! the driver calls that carry it out, as values of [`driver::Call`], and the
//! caller performs them in order. An operation that depends on what the
//! driver answers is a small state machine that is resumed with the answer.
//! What the library keeps is what the driver cannot: who owns which object,
//! which buffer feeds which attribute slot, and which upload primitive goes
//! with which uniform type.
//!
//! Objects are shared by counting their owners in an
//! [`internal::Registry`]. The call that deletes an object is handed out when
//! its last owner is released.

pub mod buffer;
mod codes;
pub mod driver;
pub mod internal;
pub mod shader;
pub mod slots;
pub mod text;
pub mod uniform;
pub mod vao;
