//! The channel endpoints the creation task communicates through. The
//! endpoints are opaque here: the asynchronous shell around this library
//! receives units from, and sends notifications into, them.

use vstd::prelude::*;

use crate::units::{NotificationOut, Unit};

verus! {

/// Relies on futures::channel::mpsc::UnboundedReceiver being a plain generic
/// type; declared only so a value of it can be carried through verified
/// signatures.
#[verifier::external_type_specification]
#[verifier::external_body]
#[verifier::reject_recursive_types(T)]
pub struct ExUnboundedReceiver<T>(futures::channel::mpsc::UnboundedReceiver<T>);

/// Relies on futures::channel::mpsc::UnboundedSender being a plain generic
/// type; declared only so a value of it can be carried through verified
/// signatures.
#[verifier::external_type_specification]
#[verifier::external_body]
#[verifier::reject_recursive_types(T)]
pub struct ExUnboundedSender<T>(futures::channel::mpsc::UnboundedSender<T>);

/// The endpoints a run is wired to: previously validated units arrive on
/// `incoming_parents`, and one notification per created unit leaves on
/// `outgoing_units`.
pub struct IO {
    pub incoming_parents: futures::channel::mpsc::UnboundedReceiver<Unit>,
    pub outgoing_units: futures::channel::mpsc::UnboundedSender<NotificationOut>,
}

} // verus!
