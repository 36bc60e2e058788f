use orchestrator::device_registry::device::{
    channel_to_string, AllDevicesInner, Device, DeviceKind, DeviceNotFound, DevicesManager,
};
use orchestrator::device_registry::resolver::{DevicesMutation, DevicesQuery};

fn device(display: &str, name: &str, channel: Option<u8>) -> Device {
    Device { device_name: name.to_string(), display_name: display.to_string(), channel }
}

fn empty_manager() -> DevicesManager {
    DevicesManager::from_inner(AllDevicesInner::new())
}

#[test]
fn channel_text_is_empty_or_digits() {
    assert_eq!(channel_to_string(None), "");
    assert_eq!(channel_to_string(Some(0)), "0");
    assert_eq!(channel_to_string(Some(2)), "2");
    assert_eq!(channel_to_string(Some(200)), "200");
    assert_eq!(device("a", "b", Some(3)).channel_as_string(), "3");
    assert_eq!(device("a", "b", None).channel_as_string(), "");
}

#[test]
fn duplicate_copies_every_field() {
    let d = device("Lamp", "tasmota_1", Some(2));
    assert_eq!(d.duplicate(), d);
}

#[test]
fn get_after_add_finds_the_device() {
    let mut m = empty_manager();
    let d = device("Lamp", "tasmota_1", Some(2));
    assert!(m.add(DeviceKind::Light, d.clone()));
    assert_eq!(m.get_by_display_name(DeviceKind::Light, "Lamp").ok(), Some(d));
}

#[test]
fn lookup_of_unknown_name_is_not_found() {
    let m = empty_manager();
    let r = m.get_by_display_name(DeviceKind::Switch, "nothing");
    assert!(r.is_err());
    assert_eq!(DeviceNotFound::new().message(), "there is no such a name registered");
}

#[test]
fn add_reports_whether_the_name_is_new_and_replaces() {
    let mut m = empty_manager();
    assert!(m.add(DeviceKind::Switch, device("Fan", "plug_1", None)));
    assert!(!m.add(DeviceKind::Switch, device("Fan", "plug_2", Some(1))));
    assert_eq!(
        m.get_by_display_name(DeviceKind::Switch, "Fan").ok(),
        Some(device("Fan", "plug_2", Some(1)))
    );
    assert_eq!(m.to_gql().switch.len(), 1);
}

#[test]
fn kinds_are_kept_apart() {
    let mut m = empty_manager();
    assert!(m.add(DeviceKind::Switch, device("Hall", "plug_1", None)));
    assert!(m.add(DeviceKind::Light, device("Hall", "bulb_1", None)));
    assert!(m.get_by_display_name(DeviceKind::Shutter, "Hall").is_err());
    assert_eq!(m.get_by_display_name(DeviceKind::Switch, "Hall").unwrap().device_name, "plug_1");
    assert_eq!(m.get_by_display_name(DeviceKind::Light, "Hall").unwrap().device_name, "bulb_1");
}

#[test]
fn remove_answers_true_only_for_an_unknown_name() {
    let mut m = empty_manager();
    m.add(DeviceKind::Shutter, device("Blind", "shutter_1", Some(1)));
    assert!(!m.remove(DeviceKind::Shutter, "Blind".to_string()));
    assert!(m.get_by_display_name(DeviceKind::Shutter, "Blind").is_err());
    assert!(m.remove(DeviceKind::Shutter, "Blind".to_string()));
    assert!(m.remove(DeviceKind::Light, "Nothing".to_string()));
}

#[test]
fn remove_undoes_add() {
    let mut m = empty_manager();
    m.add(DeviceKind::Light, device("A", "a", None));
    m.add(DeviceKind::Light, device("B", "b", None));
    m.remove(DeviceKind::Light, "B".to_string());
    let lights = m.to_gql().light;
    assert_eq!(lights, vec![device("A", "a", None)]);
}

#[test]
fn to_gql_lists_each_device_once() {
    let mut m = empty_manager();
    m.add(DeviceKind::Light, device("A", "a", None));
    m.add(DeviceKind::Light, device("B", "b", Some(1)));
    m.add(DeviceKind::Light, device("A", "a2", None));
    m.add(DeviceKind::Switch, device("S", "s", None));
    let all = m.to_gql();
    let mut lights: Vec<String> = all.light.iter().map(|d| d.device_name.clone()).collect();
    lights.sort();
    assert_eq!(lights, vec!["a2".to_string(), "b".to_string()]);
    assert_eq!(all.switch.len(), 1);
    assert!(all.shutter.is_empty());
}

#[test]
fn store_insert_keeps_keys_apart_from_names() {
    let mut inner = AllDevicesInner::new();
    assert!(inner.insert(DeviceKind::Switch, "key".to_string(), device("shown", "dev", None)));
    assert!(!inner.insert(DeviceKind::Switch, "key".to_string(), device("shown2", "dev", None)));
    assert_eq!(inner.entries_of(DeviceKind::Switch).len(), 1);
    assert!(inner.remove_key(DeviceKind::Switch, &"key".to_string()));
    assert!(!inner.remove_key(DeviceKind::Switch, &"key".to_string()));
    let m = DevicesManager::from_inner(inner);
    assert!(m.inner().entries_of(DeviceKind::Switch).is_empty());
}

#[test]
fn registry_resolvers_forward_to_the_registry() {
    let mut m = empty_manager();
    let mutation = DevicesMutation::default();
    assert!(mutation.add_device(&mut m, DeviceKind::Light, device("L", "l", None)));
    assert!(!mutation.add_device(&mut m, DeviceKind::Light, device("L", "l", None)));
    assert_eq!(DevicesQuery::default().devices(&m).light.len(), 1);
    assert!(!mutation.remove_device(&mut m, DeviceKind::Light, "L".to_string()));
    assert!(mutation.remove_device(&mut m, DeviceKind::Light, "L".to_string()));
}

#[test]
fn adding_a_new_name_grows_the_kind_by_one() {
    let mut m = empty_manager();
    assert!(m.add(DeviceKind::Light, device("A", "a", None)));
    assert_eq!(m.to_gql().light.len(), 1);
    assert!(m.add(DeviceKind::Light, device("B", "b", None)));
    assert_eq!(m.to_gql().light.len(), 2);
    assert!(!m.add(DeviceKind::Light, device("B", "b2", None)));
    assert_eq!(m.to_gql().light.len(), 2);
    assert!(!m.remove(DeviceKind::Light, "A".to_string()));
    assert_eq!(m.to_gql().light.len(), 1);
}
