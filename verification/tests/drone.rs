use drone_follow::{Climb, ControllerSetting, DefaultSetting, ParrotController, Step, Steps, StepMessage, MAX_CLIMBS};

#[test]
fn drone_keeps_its_rules() {
    let rules = ParrotController::new(300, true);
    assert_eq!(rules.flight_height(), 300);
    assert!(rules.print_debug());
    assert_eq!(rules.get_video_width(), 640);
    assert_eq!(rules.get_video_height(), 360);
    assert_eq!(rules.get_opencv_url(), "tcp://192.168.1.1:5555");
}

#[test]
fn drone_without_altitude_counts_as_grounded() {
    let rules = ParrotController::new(300, false);
    assert_eq!(rules.get_current_flight_height(Some(120)), 120);
    assert_eq!(rules.get_current_flight_height(Some(-5)), -5);
    assert_eq!(rules.get_current_flight_height(None), 0);
}

#[test]
fn takeoff_climbs_until_the_height_is_reached() {
    let rules = ParrotController::new(300, false);
    assert_eq!(rules.takeoff_step(0, 0), Climb::Higher);
    assert_eq!(rules.takeoff_step(299, 7), Climb::Higher);
    assert_eq!(rules.takeoff_step(300, 7), Climb::Reached);
    assert_eq!(rules.takeoff_step(450, 0), Climb::Reached);
}

#[test]
fn takeoff_gives_up_after_too_many_climbs() {
    let rules = ParrotController::new(300, false);
    assert_eq!(MAX_CLIMBS, 51);
    assert_eq!(rules.takeoff_step(10, 50), Climb::Higher);
    assert_eq!(rules.takeoff_step(10, 51), Climb::GiveUp);
    assert_eq!(rules.takeoff_step(300, 51), Climb::GiveUp);
    assert_eq!(rules.takeoff_step(300, u32::MAX), Climb::GiveUp);
    let mut height = 0;
    let mut climbs = 0;
    let mut last = rules.takeoff_step(height, climbs);
    while last == Climb::Higher {
        height += 1;
        climbs += 1;
        last = rules.takeoff_step(height, climbs);
    }
    assert_eq!((last, climbs), (Climb::GiveUp, 51));
}

#[test]
fn stored_names_are_read_back() {
    for setting in DefaultSetting::all() {
        assert_eq!(DefaultSetting::from_name(&setting.name()), setting);
    }
    for setting in ControllerSetting::all() {
        assert_eq!(ControllerSetting::from_name(&setting.name()), setting);
    }
}

#[test]
fn unknown_names_fall_back() {
    assert_eq!(DefaultSetting::from_name(""), DefaultSetting::Debug);
    assert_eq!(DefaultSetting::from_name("video"), DefaultSetting::Debug);
    assert_eq!(DefaultSetting::from_name("Video "), DefaultSetting::Debug);
    assert_eq!(ControllerSetting::from_name(""), ControllerSetting::VirtualController);
    assert_eq!(ControllerSetting::from_name("Parrot"), ControllerSetting::VirtualController);
}

#[test]
fn masked_picture_belongs_to_the_colour_page() {
    let mut steps = Steps::new();
    steps.set_masked_image("image1.png".to_string());
    assert!(matches!(steps.current_step(), Step::Welcome));
    steps.advance();
    steps.advance();
    steps.advance();
    steps.update(StepMessage::Size("12".to_string()));
    steps.set_masked_image("image7.png".to_string());
    match steps.current_step() {
        Step::SetHatColor { masked_img, size, hls, .. } => {
            assert_eq!(masked_img, "image7.png");
            assert_eq!(size, "12");
            assert_eq!(hls, "");
        }
        _ => panic!("the colour page is open"),
    }
}
