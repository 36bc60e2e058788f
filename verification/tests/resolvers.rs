use orchestrator::device_registry::device::{AllDevicesInner, Device, DeviceKind, DevicesManager};
use orchestrator::devices::kinds::light::resolver::{DeviceLightMutation, DeviceLightSubscription};
use orchestrator::devices::kinds::shutter::resolver::{DeviceShutterMutation, DeviceShutterSubscription};
use orchestrator::devices::kinds::switch::model::SwitchStatus;
use orchestrator::devices::kinds::switch::resolver::{DeviceSwitchMutation, DeviceSwitchSubscription};
use orchestrator::devices::light::resolver as named_light;
use orchestrator::devices::registry::model::{DeviceKind as StoredKind, Model};
use orchestrator::devices::shutter::resolver as named_shutter;
use orchestrator::devices::switch::resolver as named_switch;
use orchestrator::gql::{CommandError, Void};
use orchestrator::mqtt::client::MqttMessage;

fn stored(name: &str, channel: Option<u8>) -> Model {
    Model {
        id: 1,
        display_name: "Shown".to_string(),
        device_name: name.to_string(),
        channel,
        kind: StoredKind::Switch,
        is_reporting_voltage: false,
    }
}

fn registry() -> DevicesManager {
    let mut m = DevicesManager::from_inner(AllDevicesInner::new());
    m.add(DeviceKind::Light, Device { device_name: "bulb".to_string(), display_name: "Lamp".to_string(), channel: Some(2) });
    m.add(DeviceKind::Shutter, Device { device_name: "blind".to_string(), display_name: "Blind".to_string(), channel: None });
    m.add(DeviceKind::Switch, Device { device_name: "plug".to_string(), display_name: "Fan".to_string(), channel: Some(1) });
    m
}

#[test]
fn stored_light_commands() {
    let d = stored("bulb", Some(2));
    let p = DeviceLightMutation::default().light_device(&d, 75).unwrap();
    assert_eq!(p.topic, "cmnd/bulb/channel2");
    assert_eq!(p.payload, "75");
    assert_eq!(DeviceLightMutation::default().light_device(&d, 100).unwrap().payload, "100");
    assert_eq!(DeviceLightMutation::default().light_device(&d, 101).err(), Some(CommandError::AboveMaximum(101)));
    let p = DeviceLightMutation::default().light_device_refresh(&d);
    assert_eq!((p.topic.as_str(), p.payload.as_str()), ("cmnd/bulb/channel2", ""));
    let l = DeviceLightSubscription::default().light_device_status(&d);
    assert_eq!((l.topic.as_str(), l.channel.as_str()), ("stat/bulb/RESULT", "2"));
}

#[test]
fn stored_shutter_commands() {
    let d = stored("blind", None);
    let p = DeviceShutterMutation.shutter_device(&d, 0).unwrap();
    assert_eq!((p.topic.as_str(), p.payload.as_str()), ("cmnd/blind/shutterposition", "0"));
    assert_eq!(DeviceShutterMutation.shutter_device(&d, 200).err(), Some(CommandError::AboveMaximum(200)));
    assert_eq!(DeviceShutterMutation.shutter_device_refresh(&d).payload, "");
    assert_eq!(DeviceShutterSubscription.shutter_device_status(&d).topic, "stat/blind/RESULT");
}

#[test]
fn stored_switch_commands() {
    let d = stored("plug", Some(1));
    let p = DeviceSwitchMutation.switch_device(&d, SwitchStatus::Toggle);
    assert_eq!((p.topic.as_str(), p.payload.as_str()), ("cmnd/plug/power1", "TOGGLE"));
    assert_eq!(DeviceSwitchMutation.switch_device_refresh(&d).payload, "");
    let l = DeviceSwitchSubscription.switch_device_status(&d);
    assert_eq!((l.topic.as_str(), l.channel.as_str()), ("stat/plug/RESULT", "1"));
}

#[test]
fn named_light_commands() {
    let m = registry();
    let mutation = named_light::DeviceLightMutation::default();
    let p = mutation.light_device_brightness(&m, "Lamp", 30).unwrap();
    assert_eq!((p.topic.as_str(), p.payload.as_str()), ("cmnd/bulb/channel2", "30"));
    assert_eq!(mutation.light_device_brightness(&m, "Nope", 30).err(), Some(CommandError::DeviceNotFound));
    assert_eq!(mutation.light_device_brightness(&m, "Nope", 130).err(), Some(CommandError::AboveMaximum(130)));
    assert_eq!(mutation.light_device_brightness(&m, "Blind", 30).err(), Some(CommandError::DeviceNotFound));
    let sub = named_light::DeviceLightSubscription::default();
    let l = sub.light_device_status(&m, "Lamp").unwrap();
    assert_eq!(l.topic, "stat/bulb/RESULT");
    let msg = MqttMessage { payload: "{\"Channel2\":{\"Power\":true,\"Light\":30}}".to_string(), topic: l.topic.clone() };
    assert_eq!(sub.light_status(&l, msg), None);
    assert_eq!(sub.light_device_status(&m, "Fan").err(), Some(CommandError::DeviceNotFound));
}

#[test]
fn named_shutter_commands() {
    let m = registry();
    let mutation = named_shutter::DeviceShutterMutation::default();
    let p = mutation.shutter_device(&m, "Blind", 50).unwrap();
    assert_eq!((p.topic.as_str(), p.payload.as_str()), ("cmnd/blind/shutterposition", "50"));
    assert_eq!(mutation.shutter_device(&m, "Lamp", 50).err(), Some(CommandError::DeviceNotFound));
    let sub = named_shutter::DeviceShutterSubscription::default();
    let l = sub.shutter_device_status(&m, "Blind").unwrap();
    assert_eq!((l.topic.as_str(), l.channel.as_str()), ("stat/blind/RESULT", ""));
    let msg = MqttMessage { payload: "{\"Shutter\":[1,0,1]}".to_string(), topic: l.topic.clone() };
    assert_eq!(sub.shutter_status(&l, msg), None);
}

#[test]
fn named_switch_commands() {
    let m = registry();
    let mutation = named_switch::DeviceSwitchMutation::default();
    let p = mutation.switch_device(&m, "Fan", named_switch::SwitchStatus::On).unwrap();
    assert_eq!((p.topic.as_str(), p.payload.as_str()), ("cmnd/plug/power1", "ON"));
    let p = mutation.switch_device_refresh(&m, "Fan").unwrap();
    assert_eq!(p.payload, "");
    let p = mutation.send_command(&m, "Fan", Some(named_switch::SwitchStatus::Off)).unwrap();
    assert_eq!(p.payload, "OFF");
    assert_eq!(mutation.switch_device(&m, "Lamp", named_switch::SwitchStatus::On).err(), Some(CommandError::DeviceNotFound));
    assert_eq!(named_switch::SwitchStatus::Toggle.as_payload(), "TOGGLE");
    let sub = named_switch::DeviceSwitchSubscription::default();
    let l = sub.switch_device_status(&m, "Fan").unwrap();
    assert_eq!((l.topic.as_str(), l.channel.as_str()), ("stat/plug/RESULT", "1"));
    let msg = MqttMessage { payload: "{\"POWER1\":\"ON\"}".to_string(), topic: l.topic.clone() };
    assert_eq!(sub.switch_status(&l, msg), None);
}

#[test]
fn command_error_messages() {
    assert_eq!(CommandError::DeviceNotFound.message(), "there is no such a name registered");
    assert_eq!(CommandError::AboveMaximum(101).message(), "Failed to parse \"Int\": the value is 101, must be less than or equal to 100");
    assert_eq!(Void::from_unit(()), Void);
}
