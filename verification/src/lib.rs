//! Runtime core of an edge node that alternates between interactive inference
//! and background, differentially private training.
//!
//! Two parts meet in every tick. A priority scheduler plans the tick, and an
//! adaptive throttle, a PID controller over the latency of the ticks, says
//! whether anything but Critical work may run. A privacy engine clips and
//! noises gradients, an accountant adds up the privacy spent, and a trainer
//! runs rounds while budget is left.
//!
//! Every quantity that is a real number in the design is held as an integer
//! count of millionths: fractions of a tick, the intensity, controller gains,
//! ε, norms and gradient components, and also latencies (millionths of a
//! millisecond) and elapsed time (millionths of a second). Every rule of the
//! core is then a statement over the integers.
//!
//! The core neither reads a clock nor the machine nor the environment: what
//! depends on them comes in as arguments.

pub mod accountant;
pub mod adaptive_throttle;
pub mod config;
pub mod differential_privacy;
pub mod dp_trainer;
pub mod meta_observer;
pub mod meta_observer_lite;
pub mod neural_engine_lite;
pub mod node;
pub mod node_id;
pub mod node_profile;
pub mod policy_core;
pub mod scheduler;
pub mod simple_node;
pub mod text;
