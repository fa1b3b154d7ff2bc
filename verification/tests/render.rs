use sysmon_tui::sysmon::MetricsSnapshot;
use sysmon_tui::ui::tui::{disks_text, gb_text, render, row, WidgetTree};
use sysmon_tui::ui::tui::{FOOTER_LINES, LABEL_WIDTH, TABLE_PERCENT, VALUE_MIN_WIDTH};

fn sample() -> MetricsSnapshot {
    MetricsSnapshot::from_readings(
        8589934592,
        3 << 30,
        Some(String::from("Ubuntu")),
        Some(String::from("24.04")),
        Some(String::from("6.8.0-48-generic")),
        Some(String::from("box")),
        Some(16),
        vec![String::from("sda"), String::from("sdb")],
    )
}

fn bare() -> MetricsSnapshot {
    MetricsSnapshot::from_readings(0, 0, None, None, None, None, None, Vec::new())
}

fn value_of(tree: &WidgetTree, label: &str) -> String {
    for line in tree.rows.iter() {
        if line.label == label {
            return line.value.clone();
        }
    }
    panic!("no line {}", label);
}

#[test]
fn snapshot_keeps_the_readings() {
    let snapshot = sample();
    assert_eq!(snapshot.total_memory_bytes, 8589934592);
    assert_eq!(snapshot.used_memory_bytes, 3 << 30);
    assert_eq!(snapshot.os_name, Some(String::from("Ubuntu")));
    assert_eq!(snapshot.os_version, Some(String::from("24.04")));
    assert_eq!(snapshot.kernel_version, Some(String::from("6.8.0-48-generic")));
    assert_eq!(snapshot.host_name, Some(String::from("box")));
    assert_eq!(snapshot.cpu_count, 16);
    assert_eq!(snapshot.disk_names, vec![String::from("sda"), String::from("sdb")]);
}

#[test]
fn snapshot_keeps_what_is_absent() {
    let snapshot = bare();
    assert_eq!(snapshot.os_name, None);
    assert_eq!(snapshot.os_version, None);
    assert_eq!(snapshot.kernel_version, None);
    assert_eq!(snapshot.host_name, None);
    assert_eq!(snapshot.cpu_count, 0);
    assert!(snapshot.disk_names.is_empty());
}

#[test]
fn same_readings_give_the_same_snapshot() {
    let first = sample();
    let second = sample();
    assert_eq!(first.total_memory_bytes, second.total_memory_bytes);
    assert_eq!(first.used_memory_bytes, second.used_memory_bytes);
    assert_eq!(first.os_name, second.os_name);
    assert_eq!(first.os_version, second.os_version);
    assert_eq!(first.kernel_version, second.kernel_version);
    assert_eq!(first.host_name, second.host_name);
    assert_eq!(first.cpu_count, second.cpu_count);
    assert_eq!(first.disk_names, second.disk_names);
}

#[test]
fn lines_come_in_the_fixed_order() {
    let tree = render(&sample());
    let labels: Vec<&str> = tree.rows.iter().map(|line| line.label.as_str()).collect();
    assert_eq!(
        labels,
        vec![
            "OS NAME",
            "OS VERSION",
            "KERNEL VERSION",
            "HOST NAME",
            "DISKS",
            "NB CPUS",
            "RAM TOTAL",
            "RAM USED"
        ]
    );
}

#[test]
fn lines_show_the_readings() {
    let tree = render(&sample());
    let values: Vec<&str> = tree.rows.iter().map(|line| line.value.as_str()).collect();
    assert_eq!(
        values,
        vec!["Ubuntu", "24.04", "6.8.0-48-generic", "box", "sda, sdb", "16", "8.00 GB", "3.00 GB"]
    );
}

#[test]
fn absent_readings_show_their_placeholders() {
    let tree = render(&bare());
    let values: Vec<&str> = tree.rows.iter().map(|line| line.value.as_str()).collect();
    assert_eq!(
        values,
        vec![
            "Unknown",
            "Unknown",
            "Unknown",
            "Unknown",
            "No disks found",
            "0",
            "0.00 GB",
            "0.00 GB"
        ]
    );
}

#[test]
fn one_absent_identity_leaves_the_others() {
    let snapshot = MetricsSnapshot::from_readings(
        1,
        1,
        Some(String::from("Debian")),
        None,
        Some(String::from("6.1")),
        None,
        Some(2),
        vec![String::from("vda")],
    );
    let tree = render(&snapshot);
    assert_eq!(value_of(&tree, "OS NAME"), "Debian");
    assert_eq!(value_of(&tree, "OS VERSION"), "Unknown");
    assert_eq!(value_of(&tree, "KERNEL VERSION"), "6.1");
    assert_eq!(value_of(&tree, "HOST NAME"), "Unknown");
    assert_eq!(value_of(&tree, "DISKS"), "vda");
}

#[test]
fn row_defaults_to_unknown() {
    let line = row("HOST NAME", &None);
    assert_eq!(line.label, "HOST NAME");
    assert_eq!(line.value, "Unknown");
    let line = row("HOST NAME", &Some(String::from("box")));
    assert_eq!(line.label, "HOST NAME");
    assert_eq!(line.value, "box");
    let line = row("OS NAME", &Some(String::new()));
    assert_eq!(line.value, "");
}

#[test]
fn no_disks_found() {
    let names: Vec<String> = Vec::new();
    assert_eq!(disks_text(&names), "No disks found");
}

#[test]
fn two_disks_are_comma_joined() {
    let names: Vec<String> = vec![String::from("sda"), String::from("sdb")];
    assert_eq!(disks_text(&names), "sda, sdb");
    let names: Vec<String> = vec![String::from("sdb"), String::from("sda")];
    assert_eq!(disks_text(&names), "sdb, sda");
}

#[test]
fn memory_lines_are_formatted_apart() {
    let tree = render(&MetricsSnapshot::from_readings(
        8589934592,
        1 << 27,
        None,
        None,
        None,
        None,
        None,
        Vec::new(),
    ));
    assert_eq!(value_of(&tree, "RAM TOTAL"), "8.00 GB");
    assert_eq!(value_of(&tree, "RAM USED"), "0.12 GB");
    // used above total is shown as it is
    let tree = render(&MetricsSnapshot::from_readings(
        1 << 30,
        5 << 30,
        None,
        None,
        None,
        None,
        None,
        Vec::new(),
    ));
    assert_eq!(value_of(&tree, "RAM TOTAL"), "1.00 GB");
    assert_eq!(value_of(&tree, "RAM USED"), gb_text(5 << 30));
    assert_eq!(value_of(&tree, "RAM USED"), "5.00 GB");
}

#[test]
fn frame_has_its_fixed_parts() {
    let tree = render(&sample());
    assert_eq!(tree.title, " System Monitor ");
    assert_eq!(tree.header.label, "KEY");
    assert_eq!(tree.header.value, "VALUE");
    assert_eq!(tree.footer, "Press 'q' to quit");
    assert_eq!(tree.rows.len(), 8);
    assert_eq!(tree.table_percent, 90);
    assert_eq!(tree.table_percent, TABLE_PERCENT);
    assert_eq!(tree.footer_lines, 1);
    assert_eq!(tree.footer_lines, FOOTER_LINES);
    assert_eq!(tree.label_width, 20);
    assert_eq!(tree.label_width, LABEL_WIDTH);
    assert_eq!(tree.value_min_width, 10);
    assert_eq!(tree.value_min_width, VALUE_MIN_WIDTH);
    for line in tree.rows.iter() {
        assert!(line.label.chars().count() <= tree.label_width as usize);
    }
}

#[test]
fn many_processors() {
    let snapshot = MetricsSnapshot::from_readings(0, 0, None, None, None, None, Some(usize::MAX), Vec::new());
    let tree = render(&snapshot);
    assert_eq!(value_of(&tree, "NB CPUS"), usize::MAX.to_string());
}
