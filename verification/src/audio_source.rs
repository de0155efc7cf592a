use crate::local_source_adapter::LocalAdapter;
use crate::twilio_source_adapter::TwilioAdapter;
use vstd::prelude::*;

verus! {

/// The closed set of interchangeable transport adapters, dispatched by
/// call type. The socket handling of each lives with the host program.
#[derive(Debug, Clone)]
pub enum AudioSourceList {
    Twilio(TwilioAdapter),
    Local(LocalAdapter),
}

} // verus!
