//! Notification consumer engine for Apple's Notification Center Service
//! (ANCS), verified with Verus.
//!
//! - `constants`, `builders`, `parsers`: the wire codec of the three ANCS
//!   characteristics (Notification Source, Control Point, Data Source).
//! - `task_restarter`: bounded retry decisions for the subscription probe.
//! - `device_comm`: the conversation with one connected phone.
//! - `device`, `scanner`: device records and the view of the Bluetooth
//!   stack's object graph.
//! - `advertising`, `pairing`: advertising on an adapter, with its settings
//!   restored afterwards, and the pairing agent.
//! - `apis`, `desktop`: the outbound notification and its desktop side.
//!
//! The library decides; the caller performs the bus calls that its results name.

pub mod constants;
pub mod builders;
pub mod parsers;
pub mod task_restarter;
pub mod apis;
pub mod device_comm;
pub mod device;
pub mod advertising;
pub mod scanner;
pub mod desktop;
pub mod pairing;
