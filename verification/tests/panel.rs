use progression::amount::UNIT;
use progression::kind::ResourceType;
use progression::ledger::Resources;
use progression::panel::{
    button_listener, enable_resources, render_resource, update_button_state, ButtonState,
    IsEnabled,
};

#[test]
fn button_follows_affordability() {
    let mut ledger = Resources::new();
    let mut state = ButtonState { enabled: true };
    update_button_state(&mut state, ResourceType::ThingMaker, &ledger);
    assert!(!state.enabled);
    ledger.increase(ResourceType::Thing, 10 * UNIT);
    update_button_state(&mut state, ResourceType::ThingMaker, &ledger);
    assert!(state.enabled);
    ledger.increase(ResourceType::Thing, -1);
    update_button_state(&mut state, ResourceType::ThingMaker, &ledger);
    assert!(!state.enabled);
}

#[test]
fn button_of_thing_is_always_enabled() {
    let mut ledger = Resources::new();
    ledger.increase(ResourceType::Thing, -5 * UNIT);
    let mut state = ButtonState { enabled: false };
    update_button_state(&mut state, ResourceType::Thing, &ledger);
    assert!(state.enabled);
}

#[test]
fn panel_is_revealed_when_affordable() {
    let mut ledger = Resources::new();
    let mut panel = IsEnabled { resource: ResourceType::Assembler, enabled: false };
    enable_resources(&mut panel, &ledger);
    assert!(!panel.enabled);
    assert_eq!(panel.resource, ResourceType::Assembler);
    ledger.increase(ResourceType::ThingMaker, 100 * UNIT);
    enable_resources(&mut panel, &ledger);
    assert!(panel.enabled);
    assert_eq!(panel.resource, ResourceType::Assembler);
}

#[test]
fn revealed_panel_is_never_hidden_again() {
    let mut ledger = Resources::new();
    ledger.increase(ResourceType::ThingMaker, 100 * UNIT);
    let mut panel = IsEnabled { resource: ResourceType::Assembler, enabled: false };
    enable_resources(&mut panel, &ledger);
    assert!(panel.enabled);
    ledger.reset();
    enable_resources(&mut panel, &ledger);
    assert!(panel.enabled);
}

#[test]
fn panel_of_thing_is_revealed_at_once() {
    let ledger = Resources::new();
    let mut panel = IsEnabled { resource: ResourceType::Thing, enabled: false };
    enable_resources(&mut panel, &ledger);
    assert!(panel.enabled);
}

#[test]
fn press_on_enabled_button_makes_one() {
    let mut ledger = Resources::new();
    ledger.increase(ResourceType::Thing, 25 * UNIT);
    let state = ButtonState { enabled: true };
    assert!(button_listener(&mut ledger, ResourceType::ThingMaker, &state, true));
    assert_eq!(ledger.get(ResourceType::ThingMaker), UNIT);
    assert_eq!(ledger.get(ResourceType::Thing), 15 * UNIT);
}

#[test]
fn press_on_disabled_button_does_nothing() {
    let mut ledger = Resources::new();
    ledger.increase(ResourceType::Thing, 25 * UNIT);
    let state = ButtonState { enabled: false };
    assert!(!button_listener(&mut ledger, ResourceType::ThingMaker, &state, true));
    assert_eq!(ledger.get(ResourceType::ThingMaker), 0);
    assert_eq!(ledger.get(ResourceType::Thing), 25 * UNIT);
}

#[test]
fn event_that_is_no_press_does_nothing() {
    let mut ledger = Resources::new();
    let state = ButtonState { enabled: true };
    assert!(!button_listener(&mut ledger, ResourceType::Thing, &state, false));
    assert_eq!(ledger.get(ResourceType::Thing), 0);
}

#[test]
fn shown_number_is_rounded_down() {
    let mut ledger = Resources::new();
    assert_eq!(render_resource(&ledger, ResourceType::Thing), 0);
    ledger.increase(ResourceType::Thing, 4 * UNIT + 999_999_999);
    assert_eq!(render_resource(&ledger, ResourceType::Thing), 4);
    ledger.increase(ResourceType::Thing, 1);
    assert_eq!(render_resource(&ledger, ResourceType::Thing), 5);
    ledger.increase(ResourceType::Assembler, -1);
    assert_eq!(render_resource(&ledger, ResourceType::Assembler), -1);
    assert_eq!(render_resource(&ledger, ResourceType::Agi), 0);
}
