use g213_cols::g213_keyboard::{
    breathe_frame, cycle_frame, is_g213_keyboard, limit_speed, static_frame, G213DeviceDescriptor,
    KeyboardRegions, CMD_LEN, G213, LOGITECH, MAX_SPEED, MIN_SPEED, NUM_REGIONS,
};

struct GoodG213DeviceDescriptor {}
struct NonLogitechDeviceDescriptor {}
struct NonG213DeviceDescriptor {}

impl G213DeviceDescriptor for GoodG213DeviceDescriptor {
    fn vendor_id(&self) -> u16 {
        0x046d
    }

    fn product_id(&self) -> u16 {
        0xc336
    }
}

impl G213DeviceDescriptor for NonLogitechDeviceDescriptor {
    fn vendor_id(&self) -> u16 {
        0x0400
    }

    fn product_id(&self) -> u16 {
        0xc336
    }
}

impl G213DeviceDescriptor for NonG213DeviceDescriptor {
    fn vendor_id(&self) -> u16 {
        0x046d
    }

    fn product_id(&self) -> u16 {
        0x1234
    }
}

#[test]
fn a_g213_keyboard() {
    let descriptor = GoodG213DeviceDescriptor {};

    assert_eq!(is_g213_keyboard(&descriptor), true);
}

#[test]
fn not_a_logitech_device() {
    let descriptor = NonLogitechDeviceDescriptor {};

    assert_eq!(is_g213_keyboard(&descriptor), false);
}

#[test]
fn not_a_g213_keyboard() {
    let descriptor = NonG213DeviceDescriptor {};

    assert_eq!(is_g213_keyboard(&descriptor), false);
}

#[test]
fn device_identity_constants() {
    assert_eq!(LOGITECH, 0x046d);
    assert_eq!(G213, 0xc336);
    assert_eq!(NUM_REGIONS, 5);
}

#[test]
fn speed_clamping_is_idempotent_and_in_range() {
    let inputs: Vec<u16> = vec![0, 1, 31, 32, 33, 1000, 65535];
    for speed in inputs {
        let once = limit_speed(speed);
        assert!(MIN_SPEED <= once && once <= MAX_SPEED);
        assert_eq!(limit_speed(once), once);
    }
    assert_eq!(limit_speed(0), MIN_SPEED);
    assert_eq!(limit_speed(5000), 5000);
}

#[test]
fn whole_keyboard_frame_matches_the_template() {
    // The red colour sent by `colour red`.
    let frame = static_frame(0x00, 0xff0000);
    assert_eq!(frame.len(), CMD_LEN);
    assert_eq!(frame, hex::decode("11ff0c3a0001ff00000200000000000000000000").unwrap());
}

#[test]
fn region_frame_carries_the_region_code_and_colour() {
    // Region 3 set to green, as `region 3 00ff00` sends it.
    let region = KeyboardRegions::from_number(3).unwrap();
    assert_eq!(region.code(), 3);
    let frame = static_frame(region.code(), 0x00ff00);
    assert_eq!(frame, hex::decode("11ff0c3a030100ff000200000000000000000000").unwrap());
    assert_eq!(frame[4], 3);
    assert_eq!(&frame[6..9], &[0x00, 0xff, 0x00]);
}

#[test]
fn every_region_number_round_trips_through_its_code() {
    for number in 1..=NUM_REGIONS {
        let region = KeyboardRegions::from_number(number).unwrap();
        assert_eq!(region.code(), number);
        let frame = static_frame(region.code(), 0x123456);
        assert_eq!(frame[4], number);
        assert_eq!(&frame[6..9], &[0x12, 0x34, 0x56]);
    }
    assert!(KeyboardRegions::from_number(0).is_none());
    assert!(KeyboardRegions::from_number(6).is_none());
}

#[test]
fn colour_bytes_round_trip() {
    let colours: Vec<u32> = vec![0x000000, 0xffffff, 0xff1010, 0x00ff00, 0x123456, 0xfedcba];
    for colour in colours {
        let frame = static_frame(0x00, colour);
        let back = ((frame[6] as u32) << 16) | ((frame[7] as u32) << 8) | (frame[8] as u32);
        assert_eq!(back, colour);

        let frame = breathe_frame(colour, 1000);
        let back = ((frame[6] as u32) << 16) | ((frame[7] as u32) << 8) | (frame[8] as u32);
        assert_eq!(back, colour);
    }
}

#[test]
fn breathe_frame_matches_the_template() {
    let frame = breathe_frame(0x00ff00, 0x03e8);
    assert_eq!(frame, hex::decode("11ff0c3a000200ff0003e8006400000000000000").unwrap());
}

#[test]
fn cycle_frame_matches_the_template() {
    let frame = cycle_frame(0x2af8);
    assert_eq!(frame, hex::decode("11ff0c3a0003ffffff00002af864000000000000").unwrap());
}

#[test]
fn oversized_cycle_speed_is_clamped_to_the_maximum() {
    // What `cycle 99999` encodes: the speed saturates to MAX_SPEED.
    let frame = cycle_frame(limit_speed(MAX_SPEED));
    assert_eq!(frame[11], 0xff);
    assert_eq!(frame[12], 0xff);
}
