//! The place where a thread keeps its session: empty until the first
//! conversion, filled by the first session that could be set up, and kept
//! from then on.

use vstd::prelude::*;
use vstd::pervasive::unreached;
use crate::error::BridgeError;
use crate::session::{init_failure, ConverterInstance};

verus! {

/// A thread's session, if it has been set up, and the script library that
/// it is set up with.
pub struct SessionSlot {
    bundle: String,
    instance: Option<ConverterInstance>,
}

impl SessionSlot {
    /// Whether the session has been set up.
    pub closed spec fn is_ready(&self) -> bool {
        self.instance is Some
    }

    /// The source text of the script library.
    pub closed spec fn bundle(&self) -> Seq<char> {
        self.bundle@
    }

    /// The session, where it has been set up.
    pub closed spec fn session(&self) -> Option<ConverterInstance> {
        self.instance
    }

    /// An empty slot for sessions that load `bundle`.
    pub fn new(bundle: String) -> (r: SessionSlot)
        ensures
            !r.is_ready(),
            r.bundle() == bundle@,
    {
        SessionSlot { bundle, instance: None }
    }

    /// Whether the session has been set up.
    pub fn ready(&self) -> (r: bool)
        ensures
            r == self.is_ready(),
    {
        self.instance.is_some()
    }

    /// The session of a slot that holds one, for use. The slot holds a
    /// session afterwards too, and the same script library.
    pub fn session_mut(&mut self) -> (r: &mut ConverterInstance)
        requires
            old(self).is_ready(),
        ensures
            final(self).is_ready(),
            final(self).bundle() == old(self).bundle(),
            final(self).session() == Some(*final(r)),
    {
        match &mut self.instance {
            Some(session) => session,
            None => unreached(),
        }
    }
}

/// Makes sure that the slot holds a session, setting one up if it holds
/// none.
///
/// A slot that holds a session is left as it is. An empty slot is filled
/// only where the session could be set up: after a failure it is still
/// empty, and the next call tries again.
pub fn get_thread_converter(slot: &mut SessionSlot) -> (r: Result<(), BridgeError>)
    ensures
        final(slot).bundle() == old(slot).bundle(),
        old(slot).is_ready() ==> r is Ok && final(slot).session() == old(slot).session(),
        r is Ok <==> final(slot).is_ready(),
        r matches Err(e) ==> init_failure(e@),
{
    if slot.instance.is_some() {
        return Ok(());
    }
    match ConverterInstance::new(slot.bundle.as_str()) {
        Ok(session) => {
            slot.instance = Some(session);
            Ok(())
        },
        Err(e) => Err(e),
    }
}

} // verus!
