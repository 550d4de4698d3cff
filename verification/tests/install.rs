use eoliann_tools::install::{
    catalog_by_category, install_finished_log, install_progress_done, install_step, picked_items, selection_header,
    stream_line, stream_prefix, winget_args, winget_list_args, winget_ready_log, Action, CatalogEntry, Selection,
};
use eoliann_tools::winapp::Progress;

fn entry(name: &str, id: &str, cat: &str) -> CatalogEntry {
    CatalogEntry { name: name.to_string(), winget_id: id.to_string(), category: cat.to_string() }
}

#[test]
fn selection_behaves_as_a_set() {
    let mut s = Selection::new();
    assert_eq!(s.len(), 0);
    s.insert("Brave.Brave");
    s.insert("VideoLAN.VLC");
    s.insert("Brave.Brave");
    assert_eq!(s.len(), 2);
    assert!(s.contains("Brave.Brave"));
    s.remove("Brave.Brave");
    assert!(!s.contains("Brave.Brave"));
    assert!(s.contains("VideoLAN.VLC"));
    assert_eq!(s.len(), 1);
    s.remove("Not.There");
    assert_eq!(s.len(), 1);
    s.clear();
    assert_eq!(s.len(), 0);
}

#[test]
fn picked_items_follow_catalog_order() {
    let catalog = vec![
        entry("Brave", "Brave.Brave", "Browsers"),
        entry("7-Zip", "7zip.7zip", "Utilities"),
        entry("VLC", "VideoLAN.VLC", "Multimedia Tools"),
    ];
    let mut s = Selection::new();
    s.insert("VideoLAN.VLC");
    s.insert("Brave.Brave");
    assert_eq!(
        picked_items(&catalog, &s),
        vec![("Brave".to_string(), "Brave.Brave".to_string()), ("VLC".to_string(), "VideoLAN.VLC".to_string())]
    );
}

#[test]
fn catalog_grouped_by_sorted_category() {
    let catalog = vec![
        entry("Brave", "Brave.Brave", "Browsers"),
        entry("7-Zip", "7zip.7zip", "Utilities"),
        entry("Chrome", "Google.Chrome", "Browsers"),
        entry("Steam", "Valve.Steam", "Games"),
    ];
    let g = catalog_by_category(&catalog);
    assert_eq!(
        g,
        vec![
            ("Browsers".to_string(), vec![0, 2]),
            ("Games".to_string(), vec![3]),
            ("Utilities".to_string(), vec![1]),
        ]
    );
}

#[test]
fn install_steps_skip_when_nothing_to_do() {
    assert_eq!(install_step(Action::Install, true, "Brave"), (false, "ℹ Brave already installed. Skipping.".to_string()));
    assert_eq!(install_step(Action::Install, false, "Brave"), (true, "⬇ Installing Brave...".to_string()));
    assert_eq!(install_step(Action::Uninstall, true, "Brave"), (true, "🗑 Uninstalling Brave...".to_string()));
    assert_eq!(install_step(Action::Uninstall, false, "Brave"), (false, "ℹ Brave not found. Skipping.".to_string()));
    assert_eq!(install_step(Action::Update, true, "Brave"), (true, "⤴ Updating Brave...".to_string()));
    assert_eq!(install_step(Action::Update, false, "Brave"), (false, "ℹ Brave not installed. Skipping update.".to_string()));
}

#[test]
fn winget_arguments() {
    assert_eq!(
        winget_args(Action::Install, "Brave.Brave"),
        vec!["install", "--id", "Brave.Brave", "-e", "--silent", "--accept-package-agreements", "--accept-source-agreements"]
    );
    assert_eq!(winget_args(Action::Uninstall, "X"), vec!["uninstall", "--id", "X", "-e", "--silent"]);
    assert_eq!(
        winget_args(Action::Update, "X"),
        vec!["upgrade", "--id", "X", "-e", "--silent", "--accept-package-agreements", "--accept-source-agreements"]
    );
    assert_eq!(winget_list_args("X"), vec!["list", "--id", "X", "-e"]);
    let args = winget_args(Action::Uninstall, "X");
    let prefix = stream_prefix("winget", &args);
    assert_eq!(prefix, "winget uninstall --id X -e --silent");
    assert_eq!(stream_line(false, &prefix, "ok"), "[OUT] [winget uninstall --id X -e --silent] ok");
    assert_eq!(stream_line(true, "p", "bad"), "[ERR] [p] bad");
    assert_eq!(stream_prefix("sfc", &vec![]), "sfc ");
}

#[test]
fn install_panel_texts() {
    assert_eq!(selection_header(3), "Selected: 3 apps");
    assert_eq!(selection_header(0), "Select apps then choose an action.");
    let mut log = String::new();
    winget_ready_log(&mut log, true);
    assert_eq!(log, "✅ winget available.\n");
    let mut log = String::new();
    winget_ready_log(&mut log, false);
    assert_eq!(
        log,
        "⚠ winget not found. Attempting to help you install 'App Installer' (Microsoft Store)...\nPlease install/update 'App Installer' from the Store, then retry.\n"
    );
    let mut p = Progress::default();
    p.total = 4;
    p.running = true;
    install_progress_done(&mut p);
    assert!(!p.running);
    assert_eq!(p.current, 4);
    assert_eq!(p.label, "Done");
    let mut log = String::from("x");
    install_finished_log(&mut log);
    assert_eq!(log, "x✅ Finished processing selection.\n");
}
