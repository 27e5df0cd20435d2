use rakuos_welcome::launch::{
    done_file, has_force_flag, is_force_flag, log_file_path, QML_LOG_FILE, WIZARD_LOG_FILE, should_show_welcome, strip_force_flags,
};
use rakuos_welcome::pages::{
    logo_path, page_name, page_view, script_command, script_for_page, setup_button_label,
    setup_page, setup_page_for, welcome_link, PageView, LAST_PAGE, SETUP_PAGE_COUNT, TOTAL_PAGES,
};

#[test]
fn page_counts() {
    assert_eq!(TOTAL_PAGES, 5);
    assert_eq!(SETUP_PAGE_COUNT, 3);
    assert_eq!(LAST_PAGE, TOTAL_PAGES - 1);
}

#[test]
fn setup_table_entries() {
    let g = setup_page(0).unwrap();
    assert_eq!(g.name, "gaming");
    assert_eq!(g.title, "Gaming Setup");
    assert_eq!(g.icon, "🎮");
    assert_eq!(g.script, "setup-gaming");
    assert!(g.description.starts_with("Install Steam and Lutris natively"));
    assert!(g.description.contains("performance. Native packages"));
    let v = setup_page(1).unwrap();
    assert_eq!(v.name, "virt");
    assert_eq!(v.title, "Virtualization");
    assert_eq!(v.script, "setup-virtualization");
    let o = setup_page(2).unwrap();
    assert_eq!(o.name, "ollama");
    assert_eq!(o.title, "Local AI with Ollama");
    assert_eq!(o.script, "setup-ollama");
    assert!(setup_page(3).is_none());
    assert!(setup_page(usize::MAX).is_none());
}

#[test]
fn setup_page_for_saturates_at_zero() {
    assert_eq!(setup_page_for(0).unwrap().script, "setup-gaming");
    assert_eq!(setup_page_for(1).unwrap().script, "setup-gaming");
    assert_eq!(setup_page_for(2).unwrap().script, "setup-virtualization");
    assert_eq!(setup_page_for(3).unwrap().script, "setup-ollama");
    assert!(setup_page_for(4).is_none());
}

#[test]
fn scripts_by_page_index() {
    assert_eq!(script_for_page(1), Some("setup-gaming"));
    assert_eq!(script_for_page(2), Some("setup-virtualization"));
    assert_eq!(script_for_page(3), Some("setup-ollama"));
    assert_eq!(script_for_page(0), None);
    assert_eq!(script_for_page(4), None);
    assert_eq!(script_for_page(-1), None);
    for p in 1..=3 {
        assert_eq!(script_for_page(p), Some(setup_page((p - 1) as usize).unwrap().script));
    }
}

#[test]
fn page_views_and_names() {
    assert_eq!(page_view(0), PageView::Welcome);
    assert_eq!(page_view(1), PageView::Setup(1));
    assert_eq!(page_view(3), PageView::Setup(3));
    assert_eq!(page_view(4), PageView::Done);
    assert_eq!(page_view(9), PageView::Done);
    let names: Vec<&str> = (0..TOTAL_PAGES).map(page_name).collect();
    assert_eq!(names, vec!["welcome", "gaming", "virt", "ollama", "done"]);
    for i in 1..=3 {
        assert_eq!(page_name(i), setup_page(i - 1).unwrap().name);
    }
}

#[test]
fn logos_and_links() {
    assert_eq!(logo_path(true), "/usr/share/pixmaps/fedora_whitelogo_med.png");
    assert_eq!(logo_path(false), "/usr/share/pixmaps/fedora_logo_med.png");
    assert_eq!(welcome_link(0).unwrap().url, "https://rakuos.org");
    assert_eq!(welcome_link(0).unwrap().text, "🌐 Website");
    assert_eq!(welcome_link(1).unwrap().url, "https://github.com/RakuOS");
    assert_eq!(welcome_link(2).unwrap().url, "https://sourceforge.net/projects/rakuos/");
    assert_eq!(welcome_link(2).unwrap().text, "📦 SourceForge");
    assert!(welcome_link(3).is_none());
}

#[test]
fn command_and_labels() {
    assert_eq!(script_command("setup-gaming"), "/usr/libexec/rakuos/setup-gaming");
    assert_eq!(setup_button_label("Virtualization"), "Set Up Virtualization");
}

#[test]
fn force_flags() {
    assert!(is_force_flag(&"--force".to_string()));
    assert!(is_force_flag(&"-f".to_string()));
    assert!(!is_force_flag(&"--forced".to_string()));
    assert!(!is_force_flag(&"".to_string()));
    let args = vec!["welcome".to_string(), "-f".to_string()];
    assert!(has_force_flag(&args));
    let args = vec!["welcome".to_string(), "--verbose".to_string()];
    assert!(!has_force_flag(&args));
    assert!(!has_force_flag(&Vec::new()));
}

#[test]
fn strip_keeps_other_arguments_in_order() {
    let args: Vec<String> = ["app", "--force", "x", "-f", "y", "--force"]
        .iter()
        .map(|s| s.to_string())
        .collect();
    assert_eq!(strip_force_flags(&args), vec!["app", "x", "y"]);
    assert!(strip_force_flags(&Vec::new()).is_empty());
}

#[test]
fn runs_once_unless_forced() {
    assert!(should_show_welcome(false, false));
    assert!(!should_show_welcome(true, false));
    assert!(should_show_welcome(true, true));
    assert!(should_show_welcome(false, true));
}

#[test]
fn done_file_locations() {
    assert_eq!(
        done_file(Some("/home/ann".to_string())),
        "/home/ann/.config/rakuos/welcome-done"
    );
    assert_eq!(
        done_file(Some("/home/ann/".to_string())),
        "/home/ann/.config/rakuos/welcome-done"
    );
    assert_eq!(done_file(None), "/root/.config/rakuos/welcome-done");
    assert_eq!(done_file(Some(String::new())), ".config/rakuos/welcome-done");
    let std_join = std::path::PathBuf::from("/home/ann").join(".config/rakuos/welcome-done");
    assert_eq!(std_join.to_str().unwrap(), done_file(Some("/home/ann".to_string())));
}

#[test]
fn log_file_locations() {
    assert_eq!(log_file_path("/tmp".to_string(), QML_LOG_FILE), "/tmp/rakuos-welcome-qt.log");
    assert_eq!(
        log_file_path("/var/tmp/".to_string(), WIZARD_LOG_FILE),
        "/var/tmp/rakuos-welcome-cosmic.log"
    );
    let std_join = std::path::PathBuf::from("/tmp").join(QML_LOG_FILE);
    assert_eq!(std_join.to_str().unwrap(), log_file_path("/tmp".to_string(), QML_LOG_FILE));
}
