use nucleid::{AllocationInfo, BufferType, Device, Error, Format};

fn sample_device() -> Device {
    Device::new(1, vec![100], vec![], vec![], vec![]).unwrap()
}

#[test]
fn buffer_reports_at_least_the_requested_geometry() {
    let device = sample_device();
    // The driver rounds the request up for alignment; the reported values
    // win, and each reads back at least the requested one.
    let alloc = AllocationInfo { width: 642, height: 482, pitch: 2688, size: 2688 * 482, handle: 5 };
    let buffer = device.allocate_buffer(BufferType::Dumb, 640, 480, 32, alloc).unwrap();
    assert!(buffer.width() >= 640);
    assert!(buffer.height() >= 480);
    assert!(u64::from(buffer.pitch()) * 8 >= 640 * 32);
    assert!(buffer.size() * 8 >= 640 * 480 * 32);
    assert_eq!(buffer.width(), 642);
    assert_eq!(buffer.height(), 482);
    assert_eq!(buffer.pitch(), 2688);
    assert_eq!(buffer.size(), 2688 * 482);
}

#[test]
fn exact_allocation_is_accepted() {
    let device = sample_device();
    let alloc = AllocationInfo { width: 640, height: 480, pitch: 2560, size: 2560 * 480, handle: 5 };
    let buffer = device.allocate_buffer(BufferType::Dumb, 640, 480, 32, alloc).unwrap();
    assert_eq!(buffer.size(), 2560 * 480);
}

#[test]
fn short_allocation_is_rejected() {
    let device = sample_device();
    // Reported width below the requested one.
    let alloc = AllocationInfo { width: 639, height: 480, pitch: 2560, size: 2560 * 480, handle: 5 };
    assert_eq!(
        device.allocate_buffer(BufferType::Dumb, 640, 480, 32, alloc).unwrap_err(),
        Error::InvalidData
    );
    // A pitch too small for the reported width.
    let alloc = AllocationInfo { width: 640, height: 480, pitch: 2559, size: 2560 * 480, handle: 5 };
    assert_eq!(
        device.allocate_buffer(BufferType::Dumb, 640, 480, 32, alloc).unwrap_err(),
        Error::InvalidData
    );
    // A size too small for the reported pitch and height.
    let alloc = AllocationInfo { width: 640, height: 480, pitch: 2560, size: 2560 * 479, handle: 5 };
    assert_eq!(
        device.allocate_buffer(BufferType::Dumb, 640, 480, 32, alloc).unwrap_err(),
        Error::InvalidData
    );
}

#[test]
fn framebuffer_wraps_its_buffer() {
    let device = sample_device();
    let alloc = AllocationInfo { width: 640, height: 480, pitch: 2560, size: 2560 * 480, handle: 5 };
    let buffer = device.allocate_buffer(BufferType::Dumb, 640, 480, 32, alloc).unwrap();
    let fb = buffer.into_framebuffer(Format::XRGB8888, 77);
    assert_eq!(fb.id(), 77);
    assert_eq!(fb.format(), Format::XRGB8888);
    assert_eq!(fb.width(), 640);
    assert_eq!(fb.height(), 480);
    assert_eq!(fb.pitch(), 2560);
    assert_eq!(fb.size(), 2560 * 480);
    assert_eq!(fb.buffer().handle(), 5);
}

#[test]
fn destroyed_device_rejects_allocation() {
    let mut device = sample_device();
    device.destroy();
    let alloc = AllocationInfo { width: 640, height: 480, pitch: 2560, size: 2560 * 480, handle: 5 };
    assert_eq!(
        device.allocate_buffer(BufferType::Dumb, 640, 480, 32, alloc).unwrap_err(),
        Error::DeviceGone
    );
}
