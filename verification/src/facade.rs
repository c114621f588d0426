//! Registration with the logging facade. The facade takes one backend per
//! process; here that process-wide slot is an explicit value.

use vstd::prelude::*;
use crate::line::BuildMode;
use crate::logger::Logger;
use crate::severity::Severity;

verus! {

/// A backend is already registered.
#[derive(Clone, Copy, Debug, PartialEq, Eq, Structural)]
pub struct RegistrationError;

/// What is handed to the facade on registration: the backend, and the least
/// urgent severity that the facade itself lets through to it.
#[derive(Clone, Copy, Debug)]
pub struct Registration {
    pub logger: Logger,
    pub max_level: Severity,
}

impl Registration {
    /// The registration of a logger with the threshold `level`: the facade
    /// filters by the same level as the logger.
    pub fn new(level: Severity, mode: BuildMode) -> (registration: Registration)
        ensures
            registration.logger.threshold() == level,
            registration.logger.build_mode() == mode,
            registration.max_level == level,
    {
        let mut logger = Logger::with_mode(mode);
        logger.set_level(level);
        Registration { logger, max_level: level }
    }
}

/// The facade's registration slot: empty when the process starts, filled once,
/// and never changed after that.
#[derive(Debug)]
pub struct Facade {
    slot: Option<Registration>,
}

impl Facade {
    /// What is registered, if anything.
    pub closed spec fn registered(&self) -> Option<Registration> {
        self.slot
    }

    /// The state at the start of a process: nothing is registered.
    pub fn new() -> (facade: Facade)
        ensures
            facade.registered() is None,
    {
        Facade { slot: None }
    }

    /// What is registered, if anything.
    pub fn registration(&self) -> (registration: Option<&Registration>)
        ensures
            registration is Some <==> self.registered() is Some,
            registration matches Some(found) ==> self.registered() == Some(*found),
    {
        self.slot.as_ref()
    }
}

/// Registers a logger with the threshold `level` as the backend of the process,
/// and makes `level` the facade's own maximum level. This succeeds once: with a
/// backend already registered it fails and changes nothing, so the backend
/// that was registered first stays in charge.
pub fn init(
    facade: &mut Facade,
    level: Severity,
    mode: BuildMode,
) -> (result: Result<(), RegistrationError>)
    ensures
        result is Ok <==> old(facade).registered() is None,
        result is Ok ==> (final(facade).registered() matches Some(registration)
            && registration.logger.threshold() == level
            && registration.logger.build_mode() == mode
            && registration.max_level == level),
        result is Err ==> *final(facade) == *old(facade),
        final(facade).registered() is Some,
{
    if facade.slot.is_some() {
        return Err(RegistrationError);
    }
    facade.slot = Some(Registration::new(level, mode));
    Ok(())
}

} // verus!
