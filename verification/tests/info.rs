use eoliann_tools::info::{begin_collect, finish_collect, info_from_outputs, parse_number, pwsh_text, InfoState, RawInfo};

fn raw() -> RawInfo {
    RawInfo {
        hostname: " DESKTOP-1 \r\n".into(),
        edition: "Windows 11 Pro".into(),
        processor: "".into(),
        ram: "17 179 869 184".into(),
        storage: "n/a".into(),
        gpu: "NVIDIA RTX | 4293918720".into(),
        apps: "153".into(),
        processes: "201".into(),
        services: "97".into(),
        network: "Ethernet|192.168.1.10".into(),
    }
}

#[test]
fn info_collection_state() {
    let mut st = InfoState::new();
    assert!(st.data.is_none() && !st.loading);
    assert!(begin_collect(&mut st, false));
    assert!(!begin_collect(&mut st, true));
    let d = info_from_outputs(&raw());
    finish_collect(&mut st, d);
    assert!(!st.loading);
    assert!(!begin_collect(&mut st, false));
    assert!(begin_collect(&mut st, true));
}

#[test]
fn info_from_probe_outputs() {
    let d = info_from_outputs(&raw());
    assert_eq!(d.pc_name, "DESKTOP-1");
    assert_eq!(d.windows_edition, "Windows 11 Pro");
    assert_eq!(d.processor, "Unknown");
    assert_eq!(d.ram_total, 17179869184);
    assert_eq!(d.storage_total, 0);
    assert_eq!(d.gpu_name, "NVIDIA RTX");
    assert_eq!(d.gpu_ram, 4293918720);
    assert_eq!(d.installed_apps, 153);
    assert_eq!(d.network_iface, "Ethernet");
    assert_eq!(d.network_ip, "192.168.1.10");
    assert_eq!(parse_number(" 1,024 "), Some(1024));
    assert_eq!(parse_number("none"), None);
    assert_eq!(pwsh_text(true, " out \n", "err"), "out");
    assert_eq!(pwsh_text(false, "out", " err "), "err");
}
