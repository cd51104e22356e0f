use eudyptula::{
    do_work, format_int, CodingStyle, DeviceId, Host, IfClass, IfProto, IfSubClass, Interface,
    Level, Task01, Task05,
};

fn texts(h: &Host) -> Vec<(Level, String)> {
    (0..h.line_count()).map(|i| (h.line_level(i), h.line_text(i))).collect()
}

#[test]
fn greeter_logs_hello_and_bye() {
    let mut h = Host::new();
    let mut m = Task01::init(&mut h).unwrap();
    assert_eq!(texts(&h), vec![(Level::Info, "Hello World!\n".to_string())]);
    m.drop(&mut h);
    assert_eq!(
        texts(&h),
        vec![
            (Level::Info, "Hello World!\n".to_string()),
            (Level::Info, "cya!\n".to_string()),
        ]
    );
}

#[test]
fn greeter_logs_once_per_cycle() {
    let mut h = Host::new();
    for _ in 0..2 {
        let mut m = Task01::init(&mut h).unwrap();
        m.drop(&mut h);
    }
    assert_eq!(h.line_count(), 4);
    assert_eq!(h.line_text(2), "Hello World!\n");
    assert_eq!(h.line_text(3), "cya!\n");
}

#[test]
fn coding_style_sleeps_and_logs_hundred() {
    let mut h = Host::new();
    let mut m = CodingStyle::init(&mut h).unwrap();
    assert_eq!(h.slept_micros(), 100);
    assert_eq!(texts(&h), vec![(Level::Error, "100\n".to_string())]);
    m.drop(&mut h);
    assert_eq!(h.line_count(), 1);
    assert_eq!(h.slept_micros(), 100);
}

#[test]
fn do_work_on_ten_logs_no_debug_line() {
    let mut h = Host::new();
    assert_eq!(do_work(&10, 10, &mut h), 100);
    assert_eq!(h.line_count(), 0);
    assert_eq!(h.slept_micros(), 100);
}

#[test]
fn do_work_below_ten_logs_debug_line() {
    let mut h = Host::new();
    assert_eq!(do_work(&5, 0, &mut h), 25);
    assert_eq!(h.slept_micros(), 50);
    assert_eq!(texts(&h), vec![(Level::Debug, "We slept a long time!\n".to_string())]);
}

#[test]
fn do_work_on_negative_does_not_sleep() {
    let mut h = Host::new();
    assert_eq!(do_work(&-3, 0, &mut h), 9);
    assert_eq!(h.slept_micros(), 0);
    assert_eq!(h.line_count(), 1);
}

#[test]
fn integers_print_in_decimal() {
    assert_eq!(format_int(0), "0");
    assert_eq!(format_int(100), "100");
    assert_eq!(format_int(-45), "-45");
    assert_eq!(format_int(i32::MIN), "-2147483648");
    assert_eq!(format_int(i32::MAX), "2147483647");
}

#[test]
fn usb_table_selects_hid_boot_keyboards() {
    let table = Task05::id_table();
    assert_eq!(table.len(), 1);
    assert_eq!(
        table[0].id,
        DeviceId::interface_info(IfClass::Hid, IfSubClass::HidBoot, IfProto::HidKeyboard)
    );
    assert_eq!(table[0].id, DeviceId { class: 3, subclass: 1, protocol: 1 });
    assert!(table[0].data.is_none());
}

#[test]
fn usb_binds_keyboards_of_any_vendor() {
    let kb = Interface { class: 3, subclass: 1, protocol: 1, vendor: 0x046d, product: 0xc31c };
    let kb2 = Interface { vendor: 0x1234, product: 0x5678, ..kb };
    let mouse = Interface { protocol: 2, ..kb };
    let non_boot = Interface { subclass: 0, ..kb };
    let storage = Interface { class: 8, subclass: 6, protocol: 0x50, ..kb };
    assert!(Task05::binds(&kb));
    assert!(Task05::binds(&kb2));
    assert!(!Task05::binds(&mouse));
    assert!(!Task05::binds(&non_boot));
    assert!(!Task05::binds(&storage));
}

#[test]
fn usb_probe_and_disconnect_log() {
    let mut h = Host::new();
    let mut kb = Interface { class: 3, subclass: 1, protocol: 1, vendor: 1, product: 2 };
    let id = Task05::id_table()[0].id;
    assert_eq!(Task05::probe(&mut kb, &id, &mut h), Ok(()));
    assert_eq!(texts(&h), vec![(Level::Info, "Loaded USB driver.".to_string())]);
    Task05::disconnect(&(), &mut h);
    assert_eq!(
        texts(&h),
        vec![
            (Level::Info, "Loaded USB driver.".to_string()),
            (Level::Info, "Unloaded USB driver.".to_string()),
        ]
    );
}
