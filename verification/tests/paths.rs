use chargectl::protocol::Node;
use chargectl::sysfs::{
    battery_name, get_battery_path, join, node_path, AC_ONLINE, CLASS_POWER_SUPPLY, DEFAULT_BATTERY,
    LEGACY_THRESHOLD_START, LEGACY_THRESHOLD_STOP, THRESHOLD_START, THRESHOLD_STOP,
};

#[test]
fn constants_name_the_kernel_files() {
    assert_eq!(CLASS_POWER_SUPPLY, "/sys/class/power_supply/");
    assert_eq!(THRESHOLD_START, "charge_control_start_threshold");
    assert_eq!(THRESHOLD_STOP, "charge_control_end_threshold");
    assert_eq!(LEGACY_THRESHOLD_START, "charge_start_threshold");
    assert_eq!(LEGACY_THRESHOLD_STOP, "charge_stop_threshold");
    assert_eq!(AC_ONLINE, "AC/online");
    assert_eq!(DEFAULT_BATTERY, "BAT0");
}

#[test]
fn battery_defaults_to_the_primary_one() {
    assert_eq!(battery_name(None), "BAT0");
    assert_eq!(get_battery_path(None), "/sys/class/power_supply/BAT0");
}

#[test]
fn battery_name_is_raised_to_upper_case() {
    assert_eq!(battery_name(Some("bat1".to_string())), "BAT1");
    assert_eq!(battery_name(Some("Bat0".to_string())), "BAT0");
    assert_eq!(battery_name(Some("BAT2".to_string())), "BAT2");
    assert_eq!(battery_name(Some("az_AZ-09{`".to_string())), "AZ_AZ-09{`");
    assert_eq!(battery_name(Some(String::new())), "");
}

#[test]
fn only_ascii_letters_are_raised() {
    assert_eq!(battery_name(Some("bät".to_string())), "BäT");
    assert_eq!(battery_name(Some("ß".to_string())), "ß");
}

#[test]
fn battery_path_joins_the_name_onto_the_class() {
    assert_eq!(get_battery_path(Some("bat1".to_string())), "/sys/class/power_supply/BAT1");
    assert_eq!(get_battery_path(Some("CMB0".to_string())), "/sys/class/power_supply/CMB0");
}

#[test]
fn every_node_has_its_path() {
    assert_eq!(node_path(Node::ClassRoot, "BAT0"), "/sys/class/power_supply/");
    assert_eq!(node_path(Node::Battery, "BAT0"), "/sys/class/power_supply/BAT0");
    assert_eq!(
        node_path(Node::StartThreshold, "BAT0"),
        "/sys/class/power_supply/BAT0/charge_control_start_threshold"
    );
    assert_eq!(
        node_path(Node::StopThreshold, "BAT0"),
        "/sys/class/power_supply/BAT0/charge_control_end_threshold"
    );
    assert_eq!(
        node_path(Node::LegacyStartThreshold, "BAT0"),
        "/sys/class/power_supply/BAT0/charge_start_threshold"
    );
    assert_eq!(
        node_path(Node::LegacyStopThreshold, "BAT0"),
        "/sys/class/power_supply/BAT0/charge_stop_threshold"
    );
    assert_eq!(node_path(Node::AcOnline, "BAT0"), "/sys/class/power_supply/AC/online");
    assert_eq!(
        node_path(Node::StopThreshold, "BAT1"),
        "/sys/class/power_supply/BAT1/charge_control_end_threshold"
    );
}

#[test]
fn join_follows_the_standard_path_join() {
    let bases = ["", "/", "/sys/class/power_supply/", "/sys/class/power_supply", "a", "a/", "a//"];
    let parts = ["", "/", "BAT0", "BAT0/", "/BAT0", "/tmp/x", "AC/online", "//x", "a b", "ä"];
    for base in bases {
        for part in parts {
            let expected = std::path::Path::new(base).join(part);
            assert_eq!(join(base, part), expected.to_str().unwrap(), "{base:?} {part:?}");
        }
    }
}

#[test]
fn join_puts_one_separator_between_the_parts() {
    assert_eq!(join("/sys/class/power_supply/", "BAT0"), "/sys/class/power_supply/BAT0");
    assert_eq!(join("/sys/class/power_supply", "BAT0"), "/sys/class/power_supply/BAT0");
    assert_eq!(join("/sys/class/power_supply/BAT0", ""), "/sys/class/power_supply/BAT0/");
    assert_eq!(join("", "BAT0"), "BAT0");
}

#[test]
fn a_name_that_begins_at_the_root_replaces_the_class() {
    assert_eq!(join("/sys/class/power_supply/", "/tmp/x"), "/tmp/x");
    assert_eq!(get_battery_path(Some("/tmp/bat".to_string())), "/TMP/BAT");
    assert_eq!(node_path(Node::Battery, "/TMP/BAT"), "/TMP/BAT");
    assert_eq!(
        node_path(Node::StartThreshold, "/TMP/BAT"),
        "/TMP/BAT/charge_control_start_threshold"
    );
    assert_eq!(node_path(Node::AcOnline, "/TMP/BAT"), "/sys/class/power_supply/AC/online");
    assert_eq!(node_path(Node::ClassRoot, "/TMP/BAT"), "/sys/class/power_supply/");
}

#[test]
fn an_empty_or_closed_name_takes_no_second_separator() {
    assert_eq!(node_path(Node::Battery, ""), "/sys/class/power_supply/");
    assert_eq!(
        node_path(Node::StopThreshold, ""),
        "/sys/class/power_supply/charge_control_end_threshold"
    );
    assert_eq!(
        node_path(Node::StopThreshold, "BAT0/"),
        "/sys/class/power_supply/BAT0/charge_control_end_threshold"
    );
}
