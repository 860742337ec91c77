use radio_gpio::config::{sanitise_key, sanitise_table, AppConfig, LogLevel, DEFAULT_CHIP};
use radio_gpio::{log_level_to_enum, sanitise_gpio_names};

fn table(entries: &[(&str, &str)]) -> Vec<(String, String)> {
    entries.iter().map(|(k, v)| (k.to_string(), v.to_string())).collect()
}

#[test]
fn default_config_has_default_chip_and_level() {
    let cfg = AppConfig::default();
    assert_eq!(cfg.master_chip, "/dev/gpiochip0");
    assert_eq!(cfg.master_chip, DEFAULT_CHIP);
    assert_eq!(cfg.log_level, 3);
    assert!(cfg.input_binding.is_empty());
    assert!(cfg.output_binding.is_empty());
}

#[test]
fn sanitise_strips_gpio_and_whitespace() {
    assert_eq!(sanitise_key("gpio17"), "17");
    assert_eq!(sanitise_key("  gpio17 \t"), "17");
    assert_eq!(sanitise_key(" gpio 4 "), "4");
    assert_eq!(sanitise_key("23"), "23");
    assert_eq!(sanitise_key("gpio0"), "0");
}

#[test]
fn sanitise_is_case_sensitive() {
    assert_eq!(sanitise_key("GPIO7"), "GPIO7");
    assert_eq!(sanitise_key(" GPIO7 "), "GPIO7");
}

#[test]
fn sanitise_removes_every_occurrence() {
    assert_eq!(sanitise_key("gpiogpio5gpio"), "5");
    assert_eq!(sanitise_key("ggpiopio9"), "gpio9");
}

#[test]
fn sanitise_leaves_other_keys_for_later_diagnosis() {
    assert_eq!(sanitise_key("pin 3"), "pin 3");
    assert_eq!(sanitise_key(""), "");
}

#[test]
fn sanitise_table_keeps_values_and_order() {
    let t = table(&[("gpio5", "seton"), (" 6 ", "halt")]);
    assert_eq!(sanitise_table(&t), table(&[("5", "seton"), ("6", "halt")]));
}

#[test]
fn sanitise_table_later_entry_wins_on_equal_keys() {
    let t = table(&[("gpio5", "seton"), ("6", "halt"), (" 5", "setoff")]);
    assert_eq!(sanitise_table(&t), table(&[("6", "halt"), ("5", "setoff")]));
}

#[test]
fn sanitise_config_touches_both_tables_only() {
    let cfg = AppConfig {
        master_chip: "/dev/gpiochip1".to_string(),
        log_level: 4,
        input_binding: table(&[("gpio17", "poweroff")]),
        output_binding: table(&[(" gpio22", "seton")]),
    };
    let s = sanitise_gpio_names(cfg);
    assert_eq!(s.master_chip, "/dev/gpiochip1");
    assert_eq!(s.log_level, 4);
    assert_eq!(s.input_binding, table(&[("17", "poweroff")]));
    assert_eq!(s.output_binding, table(&[("22", "seton")]));
}

#[test]
fn log_levels_map_in_order() {
    assert_eq!(log_level_to_enum(0), LogLevel::Off);
    assert_eq!(log_level_to_enum(1), LogLevel::Error);
    assert_eq!(log_level_to_enum(2), LogLevel::Warn);
    assert_eq!(log_level_to_enum(3), LogLevel::Info);
    assert_eq!(log_level_to_enum(4), LogLevel::Debug);
    assert_eq!(log_level_to_enum(5), LogLevel::Trace);
}

#[test]
fn log_level_out_of_range_is_errors_only() {
    assert_eq!(log_level_to_enum(6), LogLevel::Error);
    assert_eq!(log_level_to_enum(255), LogLevel::Error);
}
