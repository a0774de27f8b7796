//! Firmware-side access-control engine of a network-connected door lock.
//!
//! The crate covers the contactless-credential authentication subsystem:
//! the wire format of the card-interface controller (`frame`), the
//! frame-level driver with its ready-polling state machine (`pn532`),
//! the persistent credential store with verified writes (`store`),
//! secret-key decoding (`hexkey`), and the authentication orchestrator
//! with its enrollment and polling surface (`ykhmac`), under one error
//! taxonomy (`error`).  Hardware collaborators — the bus transport, the
//! countdown timer, the flash medium and the external authentication
//! service — are reached through the traits in `hal`.  The component
//! reporting door state over HTTP is an external collaborator; only its
//! error classification lives here (`reqwesp`).

pub mod error;
pub mod frame;
pub mod hal;
pub mod hexkey;
pub mod pn532;
pub mod reqwesp;
pub mod store;
pub mod ykhmac;
