use tuxedo_kbd::record::ConfigRecord;
use tuxedo_kbd::schema::Field;
use tuxedo_kbd::writer::{write_plan, Writer};

fn record(
    brightness: &str,
    color_left: &str,
    color_center: &str,
    color_right: &str,
    color_extra: &str,
    mode: &str,
    state: &str,
) -> ConfigRecord {
    ConfigRecord::new(
        String::from(brightness),
        String::from(color_left),
        String::from(color_center),
        String::from(color_right),
        String::from(color_extra),
        String::from(mode),
        String::from(state),
    )
}

fn baseline() -> ConfigRecord {
    record("100", "0xff0000", "0x00ff00", "0x0000ff", "0xffffff", "0", "1")
}

#[test]
fn equal_snapshots_plan_no_write() {
    let plan = write_plan(&baseline(), &baseline());
    assert!(plan.is_empty());
}

#[test]
fn one_changed_field_plans_exactly_that_write() {
    let desired = record("100", "0xff0000", "0x00ff00", "0x0000ff", "0xffffff", "2", "1");
    let plan = write_plan(&baseline(), &desired);
    assert_eq!(plan, vec![(Field::Mode, String::from("2"))]);
}

#[test]
fn changed_color_is_written_verbatim() {
    // The 0x prefix a read added is sent back as given: no re-encoding.
    let desired = record("100", "0xab", "0x00ff00", "0x0000ff", "0xffffff", "0", "1");
    let plan = write_plan(&baseline(), &desired);
    assert_eq!(plan, vec![(Field::ColorLeft, String::from("0xab"))]);
}

#[test]
fn several_changed_fields_are_planned_in_schema_order() {
    let desired = record("50", "0xff0000", "0x00ff00", "0x0000ff", "0xffffff", "2", "0");
    let plan = write_plan(&baseline(), &desired);
    assert_eq!(
        plan,
        vec![
            (Field::Brightness, String::from("50")),
            (Field::Mode, String::from("2")),
            (Field::State, String::from("0")),
        ]
    );
}

#[test]
fn field_absent_from_previous_is_written_unconditionally() {
    let desired = baseline();
    let mut partial_prev = ConfigRecord::empty();
    partial_prev.set(Field::Brightness, String::from("100"));
    let plan = write_plan(&partial_prev, &desired);
    let fields: Vec<Field> = plan.iter().map(|(f, _)| *f).collect();
    assert_eq!(
        fields,
        vec![
            Field::ColorLeft,
            Field::ColorCenter,
            Field::ColorRight,
            Field::ColorExtra,
            Field::Mode,
            Field::State,
        ]
    );
    for (f, v) in &plan {
        assert_eq!(Some(v), desired.get(*f));
    }
}

#[test]
fn empty_desired_plans_nothing() {
    let plan = write_plan(&baseline(), &ConfigRecord::empty());
    assert!(plan.is_empty());
}

#[test]
fn writer_walks_the_plan_and_succeeds() {
    let desired = record("50", "0xff0000", "0x00ff00", "0x0000ff", "0xffffff", "2", "1");
    let mut writer = Writer::new(&baseline(), &desired);
    let mut written = Vec::new();
    while let Some((f, v)) = writer.pending_write() {
        written.push((f, v));
        writer.on_write(true);
    }
    assert!(writer.succeeded());
    assert_eq!(
        written,
        vec![
            (Field::Brightness, String::from("50")),
            (Field::Mode, String::from("2")),
        ]
    );
}

#[test]
fn failed_write_stops_the_operation() {
    let desired = record("50", "0xff0000", "0x00ff00", "0x0000ff", "0xffffff", "2", "1");
    let mut writer = Writer::new(&baseline(), &desired);
    let first = writer.pending_write();
    assert_eq!(first, Some((Field::Brightness, String::from("50"))));
    writer.on_write(false);
    assert_eq!(writer.pending_write(), None);
    assert!(!writer.succeeded());
}

#[test]
fn writer_with_equal_snapshots_has_nothing_pending() {
    let writer = Writer::new(&baseline(), &baseline());
    assert_eq!(writer.pending_write(), None);
    assert!(writer.succeeded());
}
