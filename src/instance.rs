//! The plan for the API context: which instance extensions to enable and
//! which to report as rejected, which layers to activate, and whether to
//! register the diagnostic callback.

use vstd::prelude::*;

use crate::error::BootstrapError;
use crate::layers::{allowed_layers, init_vulkan_layers};
use crate::names::{covers, covers_all, negotiate, rejected_of, views, Negotiation};

verus! {

/// The names requested: the mandatory ones, followed in debug mode by the
/// debug-only ones.
pub open spec fn requested_names(mandatory: Seq<String>, debug_only: Seq<String>, debug: bool) -> Seq<String> {
    if debug {
        mandatory + debug_only
    } else {
        mandatory
    }
}

/// What to create the API context with.
#[derive(Debug)]
pub struct InstancePlan {
    /// The requested instance extensions split by platform support; the
    /// activated ones are enabled.
    pub extensions: Negotiation,
    /// The layers to activate, in platform order.
    pub layers: Vec<String>,
    /// Whether to register the error-and-warning diagnostic callback.
    pub debug_callbacks: bool,
}

/// Concatenation of two lists of names.
fn joined(a: &Vec<String>, b: &Vec<String>) -> (r: Vec<String>)
    ensures
        r@ == a@ + b@,
{
    let mut r: Vec<String> = Vec::new();
    let mut i: usize = 0;
    while i < a.len()
        invariant
            i <= a@.len(),
            r@ == a@.take(i as int),
        decreases a.len() - i,
    {
        r.push(a[i].clone());
        assert(r@ =~= a@.take(i + 1));
        i = i + 1;
    }
    let mut j: usize = 0;
    while j < b.len()
        invariant
            j <= b@.len(),
            r@ == a@ + b@.take(j as int),
        decreases b.len() - j,
    {
        r.push(b[j].clone());
        assert(r@ =~= a@ + b@.take(j + 1));
        j = j + 1;
    }
    assert(b@.take(b@.len() as int) =~= b@);
    r
}

/// The names requested, as a list.
pub fn requested_list(mandatory: &Vec<String>, debug_only: &Vec<String>, debug: bool) -> (r: Vec<String>)
    ensures
        r@ == requested_names(mandatory@, debug_only@, debug),
{
    if debug {
        joined(mandatory, debug_only)
    } else {
        joined(mandatory, &Vec::new())
    }
}

/// Negotiates the requested instance extensions against those the platform
/// supports. Fails when a mandatory one is unsupported, naming those.
pub fn init_vulkan_instance_extensions(
    mandatory: &Vec<String>,
    debug_only: &Vec<String>,
    debug: bool,
    supported: &Vec<String>,
) -> (r: Result<Negotiation, BootstrapError>)
    ensures
        r is Ok <==> covers(supported@, mandatory@),
        r matches Ok(n) ==> n.is_of(requested_names(mandatory@, debug_only@, debug), supported@),
        r matches Err(e) ==> e matches BootstrapError::Initialization { missing }
            && views(missing@) == rejected_of(mandatory@, supported@),
{
    if !covers_all(supported, mandatory) {
        let missing = negotiate(mandatory, supported).rejected;
        return Err(BootstrapError::Initialization { missing });
    }
    let requested = requested_list(mandatory, debug_only, debug);
    Ok(negotiate(&requested, supported))
}

/// Plans the API context: the instance extensions as above, and in debug
/// mode the allowlisted layers and the diagnostic callback.
pub fn plan_instance(
    mandatory: &Vec<String>,
    debug_only: &Vec<String>,
    debug: bool,
    supported: &Vec<String>,
    available_layers: &Vec<String>,
    layer_patterns: &Vec<String>,
) -> (r: Result<InstancePlan, BootstrapError>)
    ensures
        r is Ok <==> covers(supported@, mandatory@),
        r matches Ok(p) ==> {
            &&& p.extensions.is_of(requested_names(mandatory@, debug_only@, debug), supported@)
            &&& debug ==> views(p.layers@) == allowed_layers(views(available_layers@), layer_patterns@)
            &&& !debug ==> p.layers@.len() == 0
            &&& p.debug_callbacks == debug
        },
        r matches Err(e) ==> e matches BootstrapError::Initialization { missing }
            && views(missing@) == rejected_of(mandatory@, supported@),
{
    let extensions = match init_vulkan_instance_extensions(mandatory, debug_only, debug, supported) {
        Ok(n) => n,
        Err(e) => return Err(e),
    };
    let layers = init_vulkan_layers(debug, available_layers, layer_patterns);
    Ok(InstancePlan { extensions, layers, debug_callbacks: debug })
}

} // verus!
