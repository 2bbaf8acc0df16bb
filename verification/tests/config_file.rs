use ubxlib::config_file::{checked_int, have_duplicates, imu_angles, update_rate, Angles};

#[test]
fn angles_are_taken_as_they_are() {
    let angles = Angles::new(180, -90, 90).unwrap();
    assert_eq!(angles.yaw, 180);
    assert_eq!(angles.pitch, -90);
    assert_eq!(angles.roll, 90);
    let zero = Angles::default();
    assert_eq!((zero.yaw, zero.pitch, zero.roll), (0, 0, 0));
}

#[test]
fn numbers_within_their_bounds() {
    assert_eq!(checked_int(Some(1), 1, 2), Some(1));
    assert_eq!(checked_int(Some(2), 1, 2), Some(2));
    assert_eq!(checked_int(Some(0), 1, 2), None);
    assert_eq!(checked_int(Some(3), 1, 2), None);
    assert_eq!(checked_int(None, 1, 2), None);
    assert_eq!(checked_int(Some(i32::MIN), i32::MIN, i32::MAX), Some(i32::MIN));

    assert_eq!(update_rate(Some(2)), Some(2));
    assert_eq!(update_rate(Some(3)), None);
    assert_eq!(update_rate(Some(0)), None);
    assert_eq!(update_rate(None), None);
}

#[test]
fn imu_angles_need_all_three_numbers_in_range() {
    let angles = imu_angles(Some(180), Some(-90), Some(90)).unwrap();
    assert_eq!((angles.yaw, angles.pitch, angles.roll), (180, -90, 90));
    let angles = imu_angles(Some(360), Some(90), Some(-180)).unwrap();
    assert_eq!((angles.yaw, angles.pitch, angles.roll), (360, 90, -180));
    assert!(imu_angles(Some(0), Some(0), Some(0)).is_some());

    assert!(imu_angles(None, Some(0), Some(0)).is_none());
    assert!(imu_angles(Some(0), None, Some(0)).is_none());
    assert!(imu_angles(Some(0), Some(0), None).is_none());
    assert!(imu_angles(Some(-1), Some(0), Some(0)).is_none());
    assert!(imu_angles(Some(361), Some(0), Some(0)).is_none());
    assert!(imu_angles(Some(0), Some(91), Some(0)).is_none());
    assert!(imu_angles(Some(0), Some(-91), Some(0)).is_none());
    assert!(imu_angles(Some(0), Some(0), Some(181)).is_none());
    assert!(imu_angles(Some(0), Some(0), Some(-181)).is_none());
}

#[test]
fn first_key_that_is_given_twice() {
    let names = |list: &[&str]| list.iter().map(|s| s.to_string()).collect::<Vec<String>>();
    assert_eq!(have_duplicates(&names(&[])), None);
    assert_eq!(have_duplicates(&names(&["[default] version"])), None);
    assert_eq!(
        have_duplicates(&names(&["[default] version", "[navigation] mode", "[default] mode"])),
        None
    );
    assert_eq!(have_duplicates(&names(&["a", "b", "c", "b", "a"])), Some(3));
    assert_eq!(have_duplicates(&names(&["a", "a", "a"])), Some(1));
}
