use fancontrol::hwmon::{
    check_module_loaded, find_hwmon_path, find_hwmon_path_dynamic, parse_temperature,
    sensor_candidates, Attr, ControlError, HwmonEntry, CPU_SENSOR,
};
use fancontrol::policy::duty_for;
use fancontrol::pwm::{
    control_step, duty_value, list_fans, list_pwm, max_scale, mode_of_enable, percent_tenths,
    set_mode, set_pwm, Mode, PwmFiles, PwmStatus,
};
use fancontrol::text::{decimal_text, parse_i32, parse_u8, same_text};

fn entry(path: &str, name: Option<&str>) -> HwmonEntry {
    HwmonEntry { path: path.to_string(), name: name.map(|n| n.to_string()) }
}

fn chip_tree() -> Vec<HwmonEntry> {
    vec![
        entry("/sys/class/hwmon/hwmon0", Some("acpitz\n")),
        entry("/sys/class/hwmon/hwmon1", None),
        entry("/sys/class/hwmon/hwmon2", Some("nct6775\n")),
        entry("/sys/class/hwmon/hwmon3", Some("nct6799\n")),
    ]
}

fn writes_of(c: &fancontrol::pwm::PwmCommand) -> Vec<(Attr, String)> {
    c.writes.iter().map(|w| (w.attr, w.text.clone())).collect()
}

#[test]
fn duty_brackets() {
    assert_eq!(duty_for(-20000), 80);
    assert_eq!(duty_for(0), 80);
    assert_eq!(duty_for(39999), 80);
    assert_eq!(duty_for(40001), 128);
    assert_eq!(duty_for(45000), 128);
    assert_eq!(duty_for(50001), 180);
    assert_eq!(duty_for(55000), 180);
    assert_eq!(duty_for(60001), 255);
    assert_eq!(duty_for(95000), 255);
    assert_eq!(duty_for(i32::MIN), 80);
    assert_eq!(duty_for(i32::MAX), 255);
}

#[test]
fn duty_bounds_belong_to_lower_bracket() {
    assert_eq!(duty_for(40000), 80);
    assert_eq!(duty_for(50000), 128);
    assert_eq!(duty_for(60000), 180);
}

#[test]
fn duty_same_input_same_output() {
    for t in [-1000, 40000, 47500, 52000, 61000] {
        assert_eq!(duty_for(t), duty_for(t));
    }
}

#[test]
fn temperature_of_k10temp() {
    let tree = vec![
        entry("/sys/class/hwmon/hwmon0", Some("nct6775\n")),
        entry("/sys/class/hwmon/hwmon1", Some("k10temp\n")),
    ];
    let path = find_hwmon_path(&tree, CPU_SENSOR).unwrap();
    assert_eq!(path, "/sys/class/hwmon/hwmon1");
    let milli = parse_temperature("45000\n").unwrap();
    assert_eq!(milli, 45000);
    assert_eq!(milli as f32 / 1000.0, 45.0);
}

#[test]
fn temperature_sensor_missing() {
    let tree = chip_tree();
    assert_eq!(find_hwmon_path(&tree, CPU_SENSOR), Err(ControlError::NotFound));
    assert_eq!(find_hwmon_path(&Vec::new(), CPU_SENSOR), Err(ControlError::NotFound));
}

#[test]
fn temperature_text_is_trimmed_and_signed() {
    assert_eq!(parse_temperature("  -5000 \n"), Ok(-5000));
    assert_eq!(parse_temperature("+38250"), Ok(38250));
    assert_eq!(parse_temperature("2147483647"), Ok(i32::MAX));
    assert_eq!(parse_temperature("-2147483648"), Ok(i32::MIN));
}

#[test]
fn temperature_not_a_number() {
    assert_eq!(parse_temperature("hot"), Err(ControlError::InvalidData));
    assert_eq!(parse_temperature(""), Err(ControlError::InvalidData));
    assert_eq!(parse_temperature("45.5"), Err(ControlError::InvalidData));
    assert_eq!(parse_temperature("2147483648"), Err(ControlError::InvalidData));
    assert_eq!(parse_temperature("-"), Err(ControlError::InvalidData));
}

#[test]
fn list_pwm_manual_channel() {
    let files = vec![PwmFiles {
        pwm: Some("128\n".to_string()),
        enable: Some("1\n".to_string()),
        max: None,
    }];
    let r = list_pwm(&files);
    assert_eq!(
        r,
        vec![PwmStatus { index: 1, value: 128, max: 255, percent_tenths: Some(502), mode: Mode::Manual }]
    );
    assert_eq!(r[0].mode.as_text(), "manual");
    assert!((128.0f32 / 255.0 * 100.0 - 50.2).abs() < 0.05);
}

#[test]
fn list_pwm_skips_absent_channels() {
    let absent = || PwmFiles { pwm: None, enable: None, max: None };
    let files = vec![
        absent(),
        PwmFiles { pwm: Some("255".to_string()), enable: Some("2".to_string()), max: Some("255".to_string()) },
        PwmFiles { pwm: Some("100".to_string()), enable: None, max: None },
        PwmFiles { pwm: Some("junk".to_string()), enable: Some("5".to_string()), max: Some("200".to_string()) },
        PwmFiles { pwm: Some("50".to_string()), enable: Some("1".to_string()), max: Some("100".to_string()) },
        absent(),
        PwmFiles { pwm: Some("10".to_string()), enable: Some("1".to_string()), max: Some("0".to_string()) },
    ];
    let r = list_pwm(&files);
    assert_eq!(
        r,
        vec![
            PwmStatus { index: 2, value: 255, max: 255, percent_tenths: Some(1000), mode: Mode::Auto },
            PwmStatus { index: 4, value: 0, max: 200, percent_tenths: Some(0), mode: Mode::Unknown },
            PwmStatus { index: 5, value: 50, max: 100, percent_tenths: Some(500), mode: Mode::Manual },
            PwmStatus { index: 7, value: 10, max: 0, percent_tenths: None, mode: Mode::Manual },
        ]
    );
}

#[test]
fn channel_attribute_readings() {
    assert_eq!(mode_of_enable("1\n"), Mode::Manual);
    assert_eq!(mode_of_enable("2"), Mode::Auto);
    assert_eq!(mode_of_enable("0"), Mode::Unknown);
    assert_eq!(mode_of_enable("manual"), Mode::Unknown);
    assert_eq!(Mode::Auto.as_text(), "auto");
    assert_eq!(Mode::Unknown.as_text(), "unknown");
    assert_eq!(duty_value(" 77\n"), 77);
    assert_eq!(duty_value("300"), 0);
    assert_eq!(max_scale(&None), 255);
    assert_eq!(max_scale(&Some("128\n".to_string())), 128);
    assert_eq!(max_scale(&Some("1000".to_string())), 255);
}

#[test]
fn percent_rounding() {
    assert_eq!(percent_tenths(128, 255), Some(502));
    assert_eq!(percent_tenths(200, 255), Some(784));
    assert_eq!(percent_tenths(0, 255), Some(0));
    assert_eq!(percent_tenths(255, 255), Some(1000));
    assert_eq!(percent_tenths(1, 16), Some(63));
    assert_eq!(percent_tenths(5, 0), None);
}

#[test]
fn list_fans_reports_present_inputs() {
    let inputs = vec![Some("1200\n".to_string()), None, Some(" 0 ".to_string())];
    let r = list_fans(&inputs);
    assert_eq!(r.len(), 2);
    assert_eq!((r[0].index, r[0].rpm.as_str()), (1, "1200"));
    assert_eq!((r[1].index, r[1].rpm.as_str()), (3, "0"));
    assert!(list_fans(&Vec::new()).is_empty());
}

#[test]
fn set_mode_bogus_is_invalid_input() {
    let tree = chip_tree();
    let r = set_mode(&tree, &sensor_candidates(), 1, "bogus");
    assert!(matches!(r, Err(ControlError::InvalidInput)));
}

#[test]
fn set_mode_manual_and_auto() {
    let tree = chip_tree();
    let c = set_mode(&tree, &sensor_candidates(), 3, "manual").unwrap();
    assert_eq!(c.path, "/sys/class/hwmon/hwmon2");
    assert_eq!(writes_of(&c), vec![(Attr::PwmEnable(3), "1".to_string())]);
    let c = set_mode(&tree, &sensor_candidates(), 2, "auto").unwrap();
    assert_eq!(writes_of(&c), vec![(Attr::PwmEnable(2), "2".to_string())]);
}

#[test]
fn set_value_writes_enable_then_duty() {
    let tree = chip_tree();
    let c = set_pwm(&tree, &sensor_candidates(), 1, 200).unwrap();
    assert_eq!(c.path, "/sys/class/hwmon/hwmon2");
    assert_eq!(
        writes_of(&c),
        vec![(Attr::PwmEnable(1), "1".to_string()), (Attr::Pwm(1), "200".to_string())]
    );
    assert_eq!(percent_tenths(200, max_scale(&None)), Some(784));
}

#[test]
fn discovery_without_match_writes_nothing() {
    let tree = vec![
        entry("/sys/class/hwmon/hwmon0", Some("acpitz")),
        entry("/sys/class/hwmon/hwmon1", Some("k10temp")),
        entry("/sys/class/hwmon/hwmon2", None),
    ];
    let cands = sensor_candidates();
    assert_eq!(find_hwmon_path_dynamic(&tree, &cands), Err(ControlError::NotFound));
    assert!(matches!(set_pwm(&tree, &cands, 1, 200), Err(ControlError::NotFound)));
    assert!(matches!(set_mode(&tree, &cands, 1, "manual"), Err(ControlError::NotFound)));
    assert!(matches!(set_mode(&tree, &cands, 1, "bogus"), Err(ControlError::NotFound)));
}

#[test]
fn discovery_takes_first_match_in_order() {
    let tree = chip_tree();
    let cands = sensor_candidates();
    assert_eq!(find_hwmon_path_dynamic(&tree, &cands), Ok("/sys/class/hwmon/hwmon2".to_string()));
    let only = vec!["nct6799".to_string()];
    assert_eq!(find_hwmon_path_dynamic(&tree, &only), Ok("/sys/class/hwmon/hwmon3".to_string()));
}

#[test]
fn candidates_in_order() {
    assert_eq!(sensor_candidates(), vec!["nct6799", "nct6775", "nct7802", "as99127f"]);
}

#[test]
fn control_step_applies_policy() {
    let tree = chip_tree();
    let c = control_step(&tree, &sensor_candidates(), 2, 55000).unwrap();
    assert_eq!(
        writes_of(&c),
        vec![(Attr::PwmEnable(2), "1".to_string()), (Attr::Pwm(2), "180".to_string())]
    );
    let c = control_step(&tree, &sensor_candidates(), 1, 30000).unwrap();
    assert_eq!(writes_of(&c)[1], (Attr::Pwm(1), "80".to_string()));
}

#[test]
fn module_check() {
    let loaded = vec!["snd".to_string(), "nct6775".to_string()];
    assert!(check_module_loaded(&loaded));
    assert!(!check_module_loaded(&vec!["nct6779".to_string()]));
    assert!(!check_module_loaded(&Vec::new()));
}

#[test]
fn attribute_file_names() {
    assert_eq!(Attr::Name.file_name(), "name");
    assert_eq!(Attr::TempInput(1).file_name(), "temp1_input");
    assert_eq!(Attr::FanInput(7).file_name(), "fan7_input");
    assert_eq!(Attr::Pwm(3).file_name(), "pwm3");
    assert_eq!(Attr::PwmEnable(12).file_name(), "pwm12_enable");
    assert_eq!(Attr::PwmMax(255).file_name(), "pwm255_max");
}

#[test]
fn decimal_text_and_parsing() {
    assert_eq!(decimal_text(0), "0");
    assert_eq!(decimal_text(9), "9");
    assert_eq!(decimal_text(10), "10");
    assert_eq!(decimal_text(255), "255");
    assert_eq!(parse_u8("255"), Some(255));
    assert_eq!(parse_u8("+7"), Some(7));
    assert_eq!(parse_u8("007"), Some(7));
    assert_eq!(parse_u8("256"), None);
    assert_eq!(parse_u8("-0"), None);
    assert_eq!(parse_u8("+"), None);
    assert_eq!(parse_u8(""), None);
    assert_eq!(parse_i32("-0"), Some(0));
    assert_eq!(parse_i32("12a"), None);
    assert!(same_text("abc", "abc"));
    assert!(!same_text("abc", "abd"));
    assert!(!same_text("ab", "abc"));
}
