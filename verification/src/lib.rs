//! Verified core of a minimal shader viewer.
//!
//! The viewer opens a fixed-size window and draws one full-screen quad with a
//! user-supplied fragment shader every frame. This library holds every decision
//! the viewer makes: the event-loop state machine, the per-frame bookkeeping and
//! command list, the quad geometry, the uniform layout, the setup sequence and
//! its error classes. Window and GPU calls are performed by the application
//! around it, which hands plain values in and takes plain values back.

pub mod clock;
pub mod error;
pub mod event;
pub mod frame;
pub mod frame_loop;
pub mod geometry;
pub mod layout;
pub mod plan;
pub mod setup;
pub mod state;
