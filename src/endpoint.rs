//! The one daemon endpoint that every request and subscription targets.
use vstd::prelude::*;

verus! {

pub open spec fn spec_service_name() -> Seq<char> {
    "com.voiceforge.App"@
}

pub open spec fn spec_object_path() -> Seq<char> {
    "/com/voiceforge/App"@
}

pub open spec fn spec_interface_name() -> Seq<char> {
    "com.voiceforge.App"@
}

/// Well-known bus name under which the daemon is registered.
pub fn service_name() -> (r: &'static str)
    ensures
        r@ == spec_service_name(),
{
    "com.voiceforge.App"
}

/// Object path of the daemon's exported object.
pub fn object_path() -> (r: &'static str)
    ensures
        r@ == spec_object_path(),
{
    "/com/voiceforge/App"
}

/// Interface that carries the daemon's methods and signals.
pub fn interface_name() -> (r: &'static str)
    ensures
        r@ == spec_interface_name(),
{
    "com.voiceforge.App"
}

} // verus!
