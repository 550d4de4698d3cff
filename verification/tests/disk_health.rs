use eoliann_tools::disk_health::{
    apply_worker_result, begin_refresh, disk_panel, extract_json_object, extract_lifetime_writes,
    extract_power_on_hours, hours_to_days, json_or_error, needs_auto_refresh, DiskHealthRoot, DiskHealthState,
    DiskPanel, PhysicalDisk, SmartAttribute, SmartDevice,
};

fn smart(attrs: Vec<(u32, u64)>, fail: bool) -> SmartDevice {
    SmartDevice {
        instance_name: "d0".to_string(),
        predict_failure: fail,
        attributes: attrs.into_iter().map(|(id, raw)| SmartAttribute { id, name: None, raw }).collect(),
    }
}

fn disk(written: Option<u64>) -> PhysicalDisk {
    PhysicalDisk {
        device_id: "0".into(),
        friendly_name: "Disk".into(),
        model: "SSD X".into(),
        media_type: "SSD".into(),
        bus_type: "NVMe".into(),
        size_bytes: 512_110_190_592,
        wear_percent_used: 3,
        health_percent: 97,
        power_on_hours: None,
        temperature_c: Some(41),
        total_bytes_written: written,
    }
}

#[test]
fn json_extraction() {
    assert_eq!(extract_json_object("noise {\"a\":{\"b\":1}} tail"), Some("{\"a\":{\"b\":1}}".to_string()));
    assert_eq!(extract_json_object("} {"), None);
    assert_eq!(extract_json_object("nothing"), None);
    assert_eq!(json_or_error("x").unwrap_err(), "Failed to extract JSON object.");
}

#[test]
fn smart_values() {
    let s = smart(vec![(5, 0), (9, 12345), (241, 1000), (9, 1)], false);
    assert_eq!(extract_power_on_hours(&s), Some(12345));
    assert_eq!(hours_to_days(12345), (514, 9));
    assert_eq!(extract_lifetime_writes(&disk(Some(7)), &s), Some(7));
    assert_eq!(extract_lifetime_writes(&disk(Some(0)), &s), Some(512_000));
    assert_eq!(extract_lifetime_writes(&disk(None), &smart(vec![], false)), None);
}

#[test]
fn panel_state_machine() {
    let mut st = DiskHealthState::default();
    assert!(needs_auto_refresh(&st));
    assert!(matches!(disk_panel(&st), DiskPanel::NoData));
    assert!(begin_refresh(&mut st));
    assert!(!begin_refresh(&mut st));
    assert!(!needs_auto_refresh(&st));
    apply_worker_result(&mut st, Ok(DiskHealthRoot { smart_devices: vec![smart(vec![(9, 48)], true)], physical_disks: vec![disk(None)] }));
    assert!(!st.loading);
    match disk_panel(&st) {
        DiskPanel::Report(r) => {
            assert_eq!(r.model, "SSD X");
            assert_eq!(r.size_gb, 512);
            assert_eq!(r.performance, 0);
            assert_eq!(r.power_on, Some((48, 2, 0)));
        }
        _ => panic!("expected a report"),
    }
    apply_worker_result(&mut st, Err("boom".to_string()));
    assert!(matches!(disk_panel(&st), DiskPanel::Failed(e) if e == "boom"));
    let empty = DiskHealthState { loading: false, data: Some(DiskHealthRoot { smart_devices: vec![], physical_disks: vec![] }), error: None };
    assert!(matches!(disk_panel(&empty), DiskPanel::NoDisks));
}
