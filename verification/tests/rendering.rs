use some_mut::OptionExt;

#[derive(Debug)]
struct Point {
    x: i32,
    y: i32,
}

#[test]
fn display_is_the_values_display() {
    let mut cell = Some(42u32);
    let handle = cell.some_mut().expect("occupied");
    assert_eq!(format!("{}", handle), "42");
    assert_eq!(format!("{}", handle), format!("{}", 42u32));
}

#[test]
fn display_keeps_width_fill_and_precision() {
    let mut cell = Some(42u32);
    let handle = cell.some_mut().expect("occupied");
    assert_eq!(format!("{:>5}", handle), "   42");
    assert_eq!(format!("{:*<6}", handle), "42****");
    assert_eq!(format!("{:+}", handle), "+42");

    let mut cell = Some(1.5f64);
    let handle = cell.some_mut().expect("occupied");
    assert_eq!(format!("{:.3}", handle), "1.500");
}

#[test]
fn debug_is_the_values_debug() {
    let mut cell = Some("a\"b");
    let handle = cell.some_mut().expect("occupied");
    assert_eq!(format!("{:?}", handle), "\"a\\\"b\"");

    let mut cell = Some(Point { x: 1, y: -2 });
    let handle = cell.some_mut().expect("occupied");
    assert_eq!(format!("{:?}", handle), "Point { x: 1, y: -2 }");
    assert_eq!(format!("{:?}", handle), format!("{:?}", Point { x: 1, y: -2 }));
}

#[test]
fn debug_keeps_the_alternate_flag() {
    let mut cell = Some(Point { x: 1, y: -2 });
    let handle = cell.some_mut().expect("occupied");
    assert_eq!(format!("{:#?}", handle), "Point {\n    x: 1,\n    y: -2,\n}");
}

#[test]
fn debug_shows_no_wrapper() {
    let mut cell = Some(7u8);
    let handle = cell.some_mut().expect("occupied");
    assert_eq!(format!("{:?}", handle), "7");
    assert_ne!(format!("{:?}", handle), format!("{:?}", Some(7u8)));
}

#[test]
fn display_string_is_the_values_text() {
    let mut cell = Some(-17i32);
    let handle = cell.some_mut().expect("occupied");
    assert_eq!(handle.display_string(), "-17");
    assert_eq!(handle.display_string(), (-17i32).to_string());
    assert_eq!(handle.display_string(), handle.to_string());
}

#[test]
fn rendering_sees_a_write() {
    let mut cell = Some(String::from("x"));
    let mut handle = cell.some_mut().expect("occupied");
    handle.push('y');
    assert_eq!(format!("{}", handle), "xy");
    assert_eq!(format!("{:?}", handle), "\"xy\"");
    assert_eq!(handle.display_string(), "xy");
}
