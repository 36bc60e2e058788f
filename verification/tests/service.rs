use orchestrator::db::DbErrWrapper;
use orchestrator::devices::registry::model::{DeviceKind, Model};
use orchestrator::devices::registry::resolver::{DevicesMutation, DevicesQuery};
use orchestrator::devices::registry::service::{
    add_outcome, get_by_id, new_device, remove_outcome, wrap_db_result, DeviceErr,
};
use orchestrator::gql::Void;

fn model(id: u128, name: &str) -> Model {
    Model {
        id,
        display_name: format!("{name} display"),
        device_name: name.to_string(),
        channel: Some(1),
        kind: DeviceKind::Light,
        is_reporting_voltage: true,
    }
}

fn db_err() -> sea_orm::DbErr {
    sea_orm::DbErr::Custom("disk full".to_string())
}

#[test]
fn get_by_id_maps_what_the_database_found() {
    let found = get_by_id(Ok(Some(model(7, "a")))).unwrap();
    assert_eq!(found.id, 7);
    assert!(matches!(get_by_id(Ok(None)), Err(DeviceErr::NotFound)));
    match get_by_id(Err(db_err())) {
        Err(DeviceErr::DbErr(w)) => assert_eq!(w.inner().to_string(), db_err().to_string()),
        _ => panic!("expected a database error"),
    }
}

#[test]
fn remove_outcome_is_not_found_without_rows() {
    let (r, told) = remove_outcome(Ok(0));
    assert!(matches!(r, Err(DeviceErr::NotFound)));
    assert!(!told);
    let (r, told) = remove_outcome(Ok(1));
    assert!(r.is_ok());
    assert!(told);
    let (r, told) = remove_outcome(Err(db_err()));
    assert!(matches!(r, Err(DeviceErr::DbErr(_))));
    assert!(!told);
}

#[test]
fn add_outcome_tells_only_on_success() {
    let (r, told) = add_outcome(Ok(model(1, "a")));
    assert_eq!(r.unwrap().device_name, "a");
    assert!(told);
    let (r, told) = add_outcome(Err(db_err()));
    assert!(r.is_err());
    assert!(!told);
}

#[test]
fn new_device_keeps_fields_under_a_fresh_random_id() {
    let m = model(0, "plug");
    let n = new_device(m);
    assert_eq!(n.device_name, "plug");
    assert_eq!(n.display_name, "plug display");
    assert_eq!(n.channel, Some(1));
    assert_eq!(n.kind, DeviceKind::Light);
    assert!(n.is_reporting_voltage);
    assert_ne!(n.id, 0);
    assert_eq!((n.id >> 76) & 0xf, 4);
    assert_eq!((n.id >> 62) & 0x3, 2);
    assert_eq!(uuid::Uuid::from_u128(n.id).get_version_num(), 4);
    let other = new_device(model(0, "plug"));
    assert_ne!(other.id, n.id);
}

#[test]
fn error_messages() {
    assert_eq!(DeviceErr::NotFound.message(), "there is no such a name registered");
    assert_eq!(DeviceErr::from_db(db_err()).message(), "db error ocured");
    assert_eq!(DbErrWrapper::new(db_err()).message(), "db error ocured");
    assert!(matches!(wrap_db_result::<u8>(Ok(3)), Ok(3)));
    assert!(wrap_db_result::<u8>(Err(db_err())).is_err());
}

#[test]
fn kind_numbers() {
    assert_eq!(DeviceKind::Switch.as_u8(), 0);
    assert_eq!(DeviceKind::Shutter.as_u8(), 1);
    assert_eq!(DeviceKind::Light.as_u8(), 2);
    for k in [DeviceKind::Switch, DeviceKind::Shutter, DeviceKind::Light] {
        assert_eq!(DeviceKind::from_u8(k.as_u8()), Some(k));
    }
    assert_eq!(DeviceKind::from_u8(3), None);
    assert_eq!(DeviceKind::default(), DeviceKind::Switch);
}

#[test]
fn stored_device_resolvers_answer_with_messages() {
    let q = DevicesQuery;
    assert_eq!(q.all_devices(Ok(vec![model(1, "a")])).unwrap().len(), 1);
    assert_eq!(q.all_devices(Err(DbErrWrapper::new(db_err()))).err(), Some("db error ocured"));
    let m = DevicesMutation;
    assert_eq!(m.add_device(Ok(model(2, "b"))).unwrap().device_name, "b");
    assert_eq!(m.add_device(Err(DbErrWrapper::new(db_err()))).err(), Some("db error ocured"));
    assert_eq!(m.remove_device(Ok(())), Ok(Void));
    assert_eq!(m.remove_device(Err(DeviceErr::NotFound)), Err("there is no such a name registered"));
    assert_eq!(m.remove_device(Err(DeviceErr::from_db(db_err()))), Err("db error ocured"));
    assert_eq!(model(3, "c").channel_as_string(), "1");
}
