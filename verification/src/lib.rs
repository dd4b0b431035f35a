//! Shared-clock management for a family of serial-peripheral multiplexer
//! ("flexcomm") units.
//!
//! The crate models the clock-control surface of the sixteen flexcomm
//! instances of a microcontroller: which upstream clock feeds each instance,
//! reference-counted gating of that clock as consumers come and go, and the
//! selection of a protocol personality within each instance's hardware-fixed
//! capability set.

pub mod clock;
pub mod controller;
pub mod instance;
pub mod regs;
pub mod state;

pub use clock::Clock;
pub use clock::FcSel;
pub use clock::FrgSel;
pub use controller::Controller;
pub use controller::InstView;
pub use instance::Instance;
pub use instance::Mode;
pub use instance::Sealed;
pub use state::FlexcommRef;
pub use state::State;
