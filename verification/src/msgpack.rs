//! The dynamically typed msgpack value carried by RPC notifications.

use vstd::prelude::*;

verus! {

/// Relies on `rmpv::Value`, the msgpack-decoded payload type of the RPC
/// codec. Notification arguments are sequences of these values; the
/// dispatcher carries them verbatim to the selected collaborator and never
/// inspects one. Declaring the type lets verified code hold and forward such
/// values opaquely.
#[verifier::external_type_specification]
#[verifier::external_body]
pub struct ExValue(rmpv::Value);

} // verus!
