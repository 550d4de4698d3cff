use eoliann_tools::registry::{
    feature_query, feature_rule, feature_writes, flag_from_value, numlock_from_values, parse_reg_query,
    reg_add_args, regedit_import_command, widgets_needs_elevation, widgets_reg_text, Feature, FlagRule,
};

#[test]
fn reg_query_values() {
    let out = "\r\nHKEY_CURRENT_USER\\Control Panel\\Mouse\r\n    MouseSpeed    REG_SZ    1\r\n\r\n";
    assert_eq!(parse_reg_query(true, out, "MouseSpeed"), Some("1".to_string()));
    assert_eq!(parse_reg_query(false, out, "MouseSpeed"), None);
    assert_eq!(parse_reg_query(true, out, "Other"), None);
}

#[test]
fn flags_from_values() {
    assert_eq!(flag_from_value(Some("1".to_string()), FlagRule::Positive), Some(true));
    assert_eq!(flag_from_value(Some("0".to_string()), FlagRule::Positive), Some(false));
    assert_eq!(flag_from_value(Some("-3".to_string()), FlagRule::NonZero), Some(true));
    assert_eq!(flag_from_value(Some("510".to_string()), FlagRule::Equals(510)), Some(true));
    assert_eq!(flag_from_value(Some("x".to_string()), FlagRule::NonZero), None);
    assert_eq!(flag_from_value(None, FlagRule::NonZero), None);
    assert_eq!(numlock_from_values(Some("2".to_string()), Some("0".to_string())), Some(true));
    assert_eq!(numlock_from_values(None, Some("0".to_string())), Some(false));
    assert_eq!(numlock_from_values(None, Some("2147483648".to_string())), Some(true));
    assert_eq!(numlock_from_values(None, None), None);
}

#[test]
fn feature_registry_writes() {
    let w = feature_writes(Feature::MouseAccel, true);
    assert_eq!(w.len(), 3);
    assert_eq!(
        reg_add_args(&w[0]),
        vec!["add", "HKCU\\Control Panel\\Mouse", "/v", "MouseSpeed", "/t", "REG_SZ", "/d", "1", "/f"]
    );
    let w = feature_writes(Feature::StickyKeys, false);
    assert_eq!(w[0].data, "58");
    let q = feature_query(Feature::NumLock);
    assert_eq!(q.len(), 2);
    let _ = feature_rule(Feature::StickyKeys);
    assert!(widgets_needs_elevation("ERROR: Access is denied."));
    assert!(!widgets_needs_elevation("ERROR: other"));
    assert!(widgets_reg_text(true).contains("TaskbarDa"));
    assert!(regedit_import_command("C:\\t.reg").contains("C:\\t.reg"));
}

#[test]
fn text_switches_read_back_as_set() {
    for enabled in [true, false] {
        for f in [Feature::MouseAccel, Feature::Snap, Feature::StickyKeys] {
            let w = feature_writes(f, enabled);
            let q = feature_query(f);
            assert_eq!((q[0].0.as_str(), q[0].1.as_str()), (w[0].path.as_str(), w[0].name.as_str()));
            assert_eq!(flag_from_value(Some(w[0].data.clone()), feature_rule(f)), Some(enabled));
        }
        let w = feature_writes(Feature::NumLock, enabled);
        assert_eq!(numlock_from_values(Some(w[0].data.clone()), Some(w[1].data.clone())), Some(enabled));
        assert_eq!(numlock_from_values(None, Some(w[1].data.clone())), Some(enabled));
    }
}
