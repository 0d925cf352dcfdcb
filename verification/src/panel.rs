//! What a front end asks of the engine once per frame: whether a button is
//! enabled, whether a panel has been revealed, what number to show, and what
//! a press does.

use crate::amount::{whole_units, UNIT};
use crate::engine::{activate, activated, affordable, is_affordable};
use crate::kind::ResourceType;
use crate::ledger::Resources;
use vstd::prelude::*;

verus! {

/// Whether a button accepts a press.
#[derive(Clone, Copy, Debug)]
pub struct ButtonState {
    pub enabled: bool,
}

/// Whether the panel of a kind has been revealed. A panel starts hidden, is
/// revealed when its kind is first seen to be affordable, and stays revealed.
#[derive(Clone, Copy, Debug)]
pub struct IsEnabled {
    pub resource: ResourceType,
    pub enabled: bool,
}

/// Enables the button of `resource_type` exactly if one of that kind is
/// affordable now.
pub fn update_button_state(
    state: &mut ButtonState,
    resource_type: ResourceType,
    resources: &Resources,
)
    ensures
        final(state).enabled == affordable(resources@, resource_type),
{
    state.enabled = is_affordable(resources, resource_type);
}

/// Reveals `panel` if its kind is affordable now. A revealed panel is never
/// hidden again, whatever the ledger holds later.
pub fn enable_resources(panel: &mut IsEnabled, resources: &Resources)
    ensures
        final(panel).resource == old(panel).resource,
        final(panel).enabled == (old(panel).enabled || affordable(
            resources@,
            old(panel).resource,
        )),
{
    let met: bool = is_affordable(resources, panel.resource);
    if met {
        panel.enabled = true;
    }
}

/// Handles one event on the button of `resource_type`: a press on an enabled
/// button makes one of that kind, and anything else leaves the ledger as it
/// is. Returns whether one was made.
pub fn button_listener(
    resources: &mut Resources,
    resource_type: ResourceType,
    button_state: &ButtonState,
    pressed: bool,
) -> (applied: bool)
    ensures
        applied == (button_state.enabled && pressed),
        applied ==> final(resources)@ == activated(old(resources)@, resource_type),
        !applied ==> final(resources)@ == old(resources)@,
{
    if button_state.enabled && pressed {
        activate(resources, resource_type)
    } else {
        false
    }
}

/// The number to show for `resource`: the whole resources held, rounded
/// down.
pub fn render_resource(resources: &Resources, resource: ResourceType) -> (shown: i128)
    ensures
        shown == resources.amount(resource) / (UNIT as int),
        shown * UNIT <= resources.amount(resource) < (shown + 1) * UNIT,
{
    whole_units(resources.get(resource))
}

} // verus!
