//! Verified core of a Lorenz-attractor visualizer.
//!
//! The crate holds the logic that every front end of the visualizer shares:
//! the bounded trail of recently visited points with its linearly decaying
//! intensity ramp (`trail`), the key-input and configuration decisions of the
//! interactive viewer (`control`), and the assembly of the exported SVG
//! document (`svg`). The floating-point integration step itself and all
//! windowing, rendering and text output live outside the library, in the
//! front ends that drive it.

pub mod control;
pub mod svg;
pub mod trail;
