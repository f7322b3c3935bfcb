use nucleid::{Device, Error, Object, PlaneInfo, PlaneType, Property, PropertyListing};

fn sample_device() -> Device {
    let planes = vec![PlaneInfo { plane_id: 400, possible_crtcs: 0b01, formats: vec![] }];
    Device::new(1, vec![100], vec![], vec![], planes).unwrap()
}

fn listing(entries: &[(u32, u64, &str)]) -> PropertyListing {
    PropertyListing {
        ids: entries.iter().map(|e| e.0).collect(),
        values: entries.iter().map(|e| e.1).collect(),
        names: entries.iter().map(|e| e.2.to_string()).collect(),
    }
}

#[test]
fn properties_assemble_the_introspection_response() {
    let device = sample_device();
    let plane = &device.planes()[0];
    let l = listing(&[(7, 1, "type"), (8, 55, "FB_ID")]);
    let props = plane.properties(&device, &l).unwrap();
    assert_eq!(props.len(), 2);
    assert_eq!(props[0].id(), 7);
    assert_eq!(props[0].name(), "type");
    assert_eq!(props[0].value(), 1);
    assert_eq!(props[1].id(), 8);
    assert_eq!(props[1].name(), "FB_ID");
}

#[test]
fn properties_twice_yield_the_same_set() {
    let device = sample_device();
    let plane = &device.planes()[0];
    let l = listing(&[(7, 1, "type"), (8, 55, "FB_ID"), (9, 0, "rotation")]);
    let first: Vec<(String, u64)> = plane
        .properties(&device, &l)
        .unwrap()
        .iter()
        .map(|p| (p.name().clone(), p.value()))
        .collect();
    let second: Vec<(String, u64)> = plane
        .properties(&device, &l)
        .unwrap()
        .iter()
        .map(|p| (p.name().clone(), p.value()))
        .collect();
    assert_eq!(first, second);
}

#[test]
fn short_response_is_an_io_error() {
    let device = sample_device();
    let plane = &device.planes()[0];
    let l = PropertyListing {
        ids: vec![7, 8],
        values: vec![1],
        names: vec!["type".to_string(), "FB_ID".to_string()],
    };
    assert_eq!(plane.properties(&device, &l).unwrap_err(), Error::Io);
}

#[test]
fn property_lookup_finds_the_first_match() {
    let device = sample_device();
    let plane = &device.planes()[0];
    let l = listing(&[(7, 1, "type"), (8, 2, "type")]);
    let p = plane.property(&device, &l, "type").unwrap().unwrap();
    assert_eq!(p.id(), 7);
    assert_eq!(p.value(), 1);
    assert_eq!(plane.property_id(&device, &l, "type").unwrap(), Some(7));
    assert_eq!(plane.property_id(&device, &l, "absent").unwrap(), None);
}

#[test]
fn object_identity_of_nodes() {
    let device = sample_device();
    let plane = &device.planes()[0];
    assert_eq!(plane.object_id(), 400);
    assert_eq!(plane.object_type().value(), 0xeeeeeeee);
    let crtc = &device.crtcs()[0];
    assert_eq!(crtc.object_id(), 100);
    assert_eq!(crtc.object_type().value(), 0xcccccccc);
}

#[test]
fn plane_type_is_derived_from_the_type_property() {
    let device = sample_device();
    let plane = &device.planes()[0];
    assert_eq!(
        plane.plane_type(&device, &listing(&[(7, 0, "type")])).unwrap(),
        PlaneType::Overlay
    );
    assert_eq!(
        plane.plane_type(&device, &listing(&[(7, 1, "type")])).unwrap(),
        PlaneType::Primary
    );
    assert_eq!(
        plane.plane_type(&device, &listing(&[(7, 2, "type")])).unwrap(),
        PlaneType::Cursor
    );
}

#[test]
fn plane_type_failures_are_classified() {
    let device = sample_device();
    let plane = &device.planes()[0];
    // No "type" property attached.
    assert_eq!(
        plane.plane_type(&device, &listing(&[(7, 1, "rotation")])).unwrap_err(),
        Error::NotFound
    );
    // A value above u32 range.
    assert_eq!(
        plane.plane_type(&device, &listing(&[(7, 1 << 40, "type")])).unwrap_err(),
        Error::OutOfRange
    );
    // A value that is no plane role.
    assert_eq!(
        plane.plane_type(&device, &listing(&[(7, 7, "type")])).unwrap_err(),
        Error::InvalidData
    );
}

#[test]
fn destroyed_device_fails_property_introspection() {
    let mut device = sample_device();
    let plane = device.planes()[0].clone();
    device.destroy();
    let l = listing(&[(7, 1, "type")]);
    assert_eq!(plane.properties(&device, &l).unwrap_err(), Error::DeviceGone);
    assert_eq!(plane.plane_type(&device, &l).unwrap_err(), Error::DeviceGone);
}

#[test]
fn property_new_carries_the_fields() {
    let p = Property::new(400, 7, "type".to_string(), 1);
    assert_eq!(p.id(), 7);
    assert_eq!(p.name(), "type");
    assert_eq!(p.value(), 1);
}
