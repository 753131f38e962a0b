//! The class factory surface: which class-object and instance requests the
//! module answers, decided purely from the requested class and interface
//! identities.  Handing the actual object pointers across the host boundary
//! is the adapter's business; the decisions live here.

use vstd::prelude::*;
use crate::globals::CLSID_TEXT_SERVICE;
use crate::globals::IID_ICLASSFACTORY;
use crate::globals::IID_ITF_TEXT_INPUT_PROCESSOR;

verus! {

/// How a request for the module's class object is answered.
#[derive(Clone, Copy, PartialEq, Eq, Structural, Debug)]
pub enum ClassObjectOutcome {
    /// The interface requested of the class object is not the factory
    /// interface.
    UnexpectedInterface,
    /// The requested class is not the one this module provides.
    ClassNotAvailable,
    /// The factory is handed out.
    Factory,
}

/// How a request to create an instance is answered.
#[derive(Clone, Copy, PartialEq, Eq, Structural, Debug)]
pub enum CreateInstanceOutcome {
    /// Aggregation was requested; the factory refuses it.
    NoAggregation,
    /// A fresh text service instance is handed out.
    Created,
    /// The requested interface is not provided.
    NoInterface,
}

/// Decides a class-object request: only the factory interface on this
/// module's own class identity is served.
pub fn class_object_outcome(rclsid: u128, riid: u128) -> (r: ClassObjectOutcome)
    ensures
        r == ClassObjectOutcome::Factory <==> (riid == IID_ICLASSFACTORY && rclsid
            == CLSID_TEXT_SERVICE),
        r == ClassObjectOutcome::UnexpectedInterface <==> riid != IID_ICLASSFACTORY,
{
    if riid != IID_ICLASSFACTORY {
        ClassObjectOutcome::UnexpectedInterface
    } else if rclsid != CLSID_TEXT_SERVICE {
        ClassObjectOutcome::ClassNotAvailable
    } else {
        ClassObjectOutcome::Factory
    }
}

/// The factory for text service instances.  It carries no state of its own;
/// it exists so the host has an object to ask for instances.
pub struct ClassFactory {}

impl ClassFactory {
    pub fn new() -> (r: ClassFactory) {
        ClassFactory {  }
    }

    /// Decides an instance-creation request: aggregation is refused, and
    /// only the text-input-processor interface is provided.
    pub fn create_instance_outcome(&self, aggregated: bool, riid: u128) -> (r:
        CreateInstanceOutcome)
        ensures
            r == CreateInstanceOutcome::NoAggregation <==> aggregated,
            r == CreateInstanceOutcome::Created <==> (!aggregated && riid
                == IID_ITF_TEXT_INPUT_PROCESSOR),
    {
        if aggregated {
            CreateInstanceOutcome::NoAggregation
        } else if riid == IID_ITF_TEXT_INPUT_PROCESSOR {
            CreateInstanceOutcome::Created
        } else {
            CreateInstanceOutcome::NoInterface
        }
    }
}

} // verus!
