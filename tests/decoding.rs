use cybot_view::{
    classify, decode, find_member, mirrored_angle, obstacle_from, scan_from, CybotScanData, Member,
    Message, ObstacleData, World,
};

fn obstacle(distance: &str, angle_middle: i32, size: &str) -> ObstacleData {
    ObstacleData { distance: distance.to_string(), angle_middle, size: size.to_string() }
}

fn scan(angle: i32, sound: &str, ir: u32) -> CybotScanData {
    CybotScanData { angle, sound: sound.to_string(), ir }
}

fn number(key: &str, text: &str) -> Member {
    Member { key: key.to_string(), number: Some(text.to_string()), integer: None }
}

fn integer(key: &str, v: i64) -> Member {
    Member { key: key.to_string(), number: Some(v.to_string()), integer: Some(v) }
}

#[test]
fn end_to_end_scenario() {
    let mut world = World::new();
    let m = world.ingest(b"{\"distance\": 100.0, \"angle_middle\": 45, \"size\": 10.0}");
    assert_eq!(m, Message::Obstacle(obstacle("100.0", 45, "10.0")));
    let m = world.ingest(b"{\"angle\": 90, \"sound\": 50.0, \"ir\": 5}");
    assert_eq!(m, Message::Scan(scan(90, "50.0", 5)));
    let m = world.ingest(b"not json");
    assert_eq!(m, Message::Diagnostic("not json".to_string()));
    assert_eq!(world.obstacles().len(), 1);
    assert_eq!(world.obstacles()[0], obstacle("100.0", 45, "10.0"));
    assert_eq!(world.current_scan(), Some(&scan(90, "50.0", 5)));
}

#[test]
fn obstacle_takes_precedence_over_scan() {
    let b = b"{\"distance\": 3, \"angle_middle\": 10, \"size\": 2.5, \"angle\": 90, \"sound\": 1.5, \"ir\": 7}";
    assert_eq!(decode(b), Message::Obstacle(obstacle("3", 10, "2.5")));
}

#[test]
fn empty_input_is_diagnostic() {
    assert_eq!(decode(b""), Message::Diagnostic(String::new()));
}

#[test]
fn invalid_utf8_is_diagnostic_with_replacement() {
    assert_eq!(decode(b"ok\xff"), Message::Diagnostic("ok\u{FFFD}".to_string()));
}

#[test]
fn partial_record_is_diagnostic() {
    let b = b"{\"distance\": 100.0, \"angle_mi";
    assert_eq!(decode(b), Message::Diagnostic("{\"distance\": 100.0, \"angle_mi".to_string()));
}

#[test]
fn missing_field_is_diagnostic() {
    let b = b"{\"angle\": 90, \"sound\": 50.0}";
    assert_eq!(decode(b), Message::Diagnostic("{\"angle\": 90, \"sound\": 50.0}".to_string()));
}

#[test]
fn fractional_angle_is_not_a_record() {
    let b = b"{\"distance\": 1, \"angle_middle\": 45.5, \"size\": 1}";
    assert!(matches!(decode(b), Message::Diagnostic(_)));
}

#[test]
fn angle_beyond_i32_is_not_a_record() {
    let b = b"{\"angle\": 2147483648, \"sound\": 1, \"ir\": 1}";
    assert!(matches!(decode(b), Message::Diagnostic(_)));
    let b = b"{\"angle\": -2147483648, \"sound\": 1, \"ir\": 1}";
    assert_eq!(decode(b), Message::Scan(scan(i32::MIN, "1", 1)));
}

#[test]
fn negative_infrared_is_not_a_record() {
    let b = b"{\"angle\": 0, \"sound\": 1, \"ir\": -1}";
    assert!(matches!(decode(b), Message::Diagnostic(_)));
    let b = b"{\"angle\": 0, \"sound\": 1, \"ir\": 4294967295}";
    assert_eq!(decode(b), Message::Scan(scan(0, "1", u32::MAX)));
}

#[test]
fn string_valued_distance_is_not_a_record() {
    let b = b"{\"distance\": \"far\", \"angle_middle\": 1, \"size\": 1}";
    assert!(matches!(decode(b), Message::Diagnostic(_)));
}

#[test]
fn unknown_members_are_ignored() {
    let b = b"{\"angle\": 180, \"sound\": 12.25, \"ir\": 0, \"note\": \"hi\"}";
    assert_eq!(decode(b), Message::Scan(scan(180, "12.25", 0)));
}

#[test]
fn trailing_text_is_diagnostic() {
    let b = b"{\"angle\": 180, \"sound\": 1, \"ir\": 0}{\"angle\"";
    assert!(matches!(decode(b), Message::Diagnostic(_)));
}

#[test]
fn obstacle_history_is_append_only() {
    let mut world = World::new();
    assert!(world.obstacles().is_empty());
    assert_eq!(world.current_scan(), None);
    world.ingest(b"{\"distance\": 1, \"angle_middle\": 10, \"size\": 4}");
    world.ingest(b"garbage");
    world.ingest(b"{\"distance\": 2, \"angle_middle\": 20, \"size\": 5}");
    world.ingest(b"{\"distance\": 1, \"angle_middle\": 10, \"size\": 4}");
    assert_eq!(
        world.obstacles().to_vec(),
        vec![obstacle("1", 10, "4"), obstacle("2", 20, "5"), obstacle("1", 10, "4")]
    );
    assert_eq!(world.current_scan(), None);
}

#[test]
fn later_scan_replaces_earlier() {
    let mut world = World::new();
    world.update_scan(scan(0, "5", 1));
    world.record_obstacle(obstacle("9", 90, "3"));
    world.update_scan(scan(180, "7.5", 2));
    assert_eq!(world.current_scan(), Some(&scan(180, "7.5", 2)));
    world.update_scan(scan(180, "7.5", 2));
    assert_eq!(world.current_scan(), Some(&scan(180, "7.5", 2)));
    assert_eq!(world.obstacles().to_vec(), vec![obstacle("9", 90, "3")]);
}

#[test]
fn diagnostic_leaves_world_unchanged() {
    let mut world = World::new();
    world.apply(&Message::Scan(scan(90, "1", 1)));
    world.apply(&Message::Diagnostic("hello".to_string()));
    assert_eq!(world.current_scan(), Some(&scan(90, "1", 1)));
    assert!(world.obstacles().is_empty());
}

#[test]
fn records_from_members() {
    let ms = vec![integer("angle_middle", -30), number("size", "0.5"), number("distance", "12")];
    assert_eq!(obstacle_from(&ms), Some(obstacle("12", -30, "0.5")));
    assert_eq!(scan_from(&ms), None);
    assert_eq!(classify(&ms), Some(Message::Obstacle(obstacle("12", -30, "0.5"))));
    let ms = vec![integer("angle", 45), number("sound", "2"), integer("ir", 3)];
    assert_eq!(classify(&ms), Some(Message::Scan(scan(45, "2", 3))));
    let ms = vec![integer("angle", 45), number("sound", "2")];
    assert_eq!(classify(&ms), None);
}

#[test]
fn first_member_with_key_is_found() {
    let ms = vec![integer("a", 1), integer("b", 2), integer("a", 3)];
    assert_eq!(find_member(&ms, &"a".to_string()), Some(&ms[0]));
    assert_eq!(find_member(&ms, &"b".to_string()), Some(&ms[1]));
    assert_eq!(find_member(&ms, &"c".to_string()), None);
}

#[test]
fn mirrored_angle_negates() {
    assert_eq!(mirrored_angle(90), -90);
    assert_eq!(mirrored_angle(0), 0);
    assert_eq!(mirrored_angle(180), -180);
    assert_eq!(mirrored_angle(i32::MIN), 2147483648);
}
