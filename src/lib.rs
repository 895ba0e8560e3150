//! Marshalling of native values into the tagged, C-layout message objects that
//! a Dart isolate receives through its native port, and the ownership rules of
//! those objects.
//!
//! Every value that implements [`IntoDart`] encodes into one [`DartCObject`].
//! The abstract meaning of a message is its [`DartValue`]; the contracts of the
//! encoders and of the teardown are stated over that model.
use vstd::prelude::*;

pub mod ffi;

pub use ffi::ZeroCopyBuffer;
pub mod into_dart;
pub mod dart_array;

pub use into_dart::{IntoDart, IntoDartExceptPrimitive};
pub mod unwind;
pub mod chrono;
pub mod uuid;

use crate::ffi::{discard, DartCObject, DartPort};

verus! {

/// The boundary's receive primitive: posts a message to a port of the Dart
/// VM. A message that the VM accepts is its own from then on; a rejected one
/// (an unknown port, a VM that is shutting down) comes back to the sender.
pub trait DartPostCObject {
    fn post_cobject(&self, port: DartPort, message: DartCObject) -> Result<(), DartCObject>;
}

/// The process's handle on the receive primitive: unset until the host stores
/// it, once, at start-up; read by every post after that.
pub struct PostCObjectHandle<P> {
    sender: Option<P>,
}

impl<P: DartPostCObject> PostCObjectHandle<P> {
    pub closed spec fn is_set(&self) -> bool {
        self.sender is Some
    }

    /// A handle with no primitive stored yet.
    pub fn new() -> (r: Self)
        ensures
            !r.is_set(),
    {
        PostCObjectHandle { sender: None }
    }

    /// Stores the primitive. The handle is written once: a second store
    /// leaves the first primitive in place and returns `false`.
    pub fn store_dart_post_cobject(&mut self, sender: P) -> (stored: bool)
        ensures
            stored == !old(self).is_set(),
            final(self).is_set(),
            old(self).is_set() ==> *final(self) == *old(self),
    {
        if self.sender.is_some() {
            false
        } else {
            self.sender = Some(sender);
            true
        }
    }

    /// Whether a primitive has been stored.
    pub fn is_registered(&self) -> (r: bool)
        ensures
            r == self.is_set(),
    {
        self.sender.is_some()
    }
}

/// What a post came to, once the receive primitive has answered: `true` where
/// the message was accepted; where it was rejected, the message is discarded
/// here (torn down, its zero-copy buffers released) and the answer is
/// `false`.
pub fn settle_post(outcome: Result<(), DartCObject>) -> (posted: bool)
    ensures
        posted == outcome is Ok,
{
    match outcome {
        Ok(()) => true,
        Err(message) => {
            let _ = discard(message);
            false
        },
    }
}

/// A Dart isolate's native port, to which messages are posted.
#[derive(Copy, Clone, Debug)]
pub struct Isolate {
    port: i64,
}

impl Isolate {
    pub closed spec fn port_id(&self) -> i64 {
        self.port
    }

    /// An isolate reached through `port`, a port obtained from the Dart VM.
    pub fn new(port: i64) -> (r: Self)
        ensures
            r.port_id() == port,
    {
        Isolate { port }
    }

    /// The isolate's port.
    pub fn port(&self) -> (r: i64)
        ensures
            r == self.port_id(),
    {
        self.port
    }

    /// Encodes `msg` and posts it through the stored receive primitive.
    /// Returns whether the VM accepted it: never before a primitive is
    /// stored, in which case nothing is encoded. A rejected message is
    /// discarded before this returns.
    pub fn post<M: IntoDart, P: DartPostCObject>(&self, handle: &PostCObjectHandle<P>, msg: M) -> (posted: bool)
        ensures
            !handle.is_set() ==> !posted,
    {
        match &handle.sender {
            Some(sender) => {
                let message = msg.into_dart();
                settle_post(sender.post_cobject(self.port, message))
            },
            None => false,
        }
    }
}

} // verus!
