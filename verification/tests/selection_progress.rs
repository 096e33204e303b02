use pika_installer::model::KBDMap;
use pika_installer::progress::{
    completion_page, status_file_stage, log_entry, stage_of_status, stage_percent, stage_text_key, InstallStage, StatusFileStage,
};
use pika_installer::selection::{
    is_default_keymap, locale_from_lang, localectl_lang_arg, search_matches, setxkbmap_args,
    should_preselect_locale, xkb_layout_id,
};

fn kbd(layout: &str, variant: &str) -> KBDMap {
    KBDMap { console: layout.to_string(), layout: layout.to_string(), variant: variant.to_string() }
}

#[test]
fn locale_codes() {
    assert_eq!(locale_from_lang("en_US.UTF-8"), "en_US");
    assert_eq!(locale_from_lang("de_DE.utf8.extra"), "de_DE");
    assert_eq!(locale_from_lang("C"), "C");
    assert_eq!(locale_from_lang(""), "");
    assert_eq!(localectl_lang_arg("fr_FR"), "LANG=fr_FR.UTF-8");
}

#[test]
fn current_locale_is_preselected() {
    assert!(should_preselect_locale("en_US", "en_US"));
    assert!(!should_preselect_locale("en_US", "en_GB"));
    assert!(!should_preselect_locale("C", "C"));
    assert!(!should_preselect_locale("POSIX", "POSIX"));
    assert!(!should_preselect_locale("C.UTF-8", "C.UTF-8"));
    assert!(!should_preselect_locale("C.utf8", "C.utf8"));
}

#[test]
fn keyboard_layouts() {
    assert_eq!(xkb_layout_id(&kbd("us", "")), "us");
    assert_eq!(xkb_layout_id(&kbd("de", "nodeadkeys")), "de+nodeadkeys");
    assert_eq!(setxkbmap_args(&kbd("us", "")), vec!["-layout".to_string(), "us".to_string()]);
    assert_eq!(
        setxkbmap_args(&kbd("de", "nodeadkeys")),
        vec!["-layout".to_string(), "de".to_string(), "-variant".to_string(), "nodeadkeys".to_string()]
    );
    assert!(is_default_keymap(&kbd("us", "")));
    assert!(!is_default_keymap(&kbd("us", "intl")));
    assert!(!is_default_keymap(&kbd("gb", "")));
}

#[test]
fn search_ignores_letter_case() {
    assert!(search_matches("BER", "Europe/Berlin", ""));
    assert!(search_matches("münchen", "", "MÜNCHEN"));
    assert!(search_matches("ger", "de", "German"));
    assert!(!search_matches("xyz", "Europe/Berlin", "Germany"));
}

#[test]
fn empty_search_shows_every_row() {
    assert!(search_matches("", "anything", ""));
    assert!(search_matches("", "", ""));
}

#[test]
fn status_messages_move_the_bar() {
    assert_eq!(stage_of_status("PARTING"), Some(InstallStage::Parting));
    assert_eq!(stage_of_status("  IMAGE\n"), Some(InstallStage::Image));
    assert_eq!(stage_of_status("GEN_FSTAB"), Some(InstallStage::GenFstab));
    assert_eq!(stage_of_status("UNBIND"), Some(InstallStage::Unbind));
    assert_eq!(stage_of_status("parting"), None);
    assert_eq!(stage_of_status("MOUNTING"), None);
    assert_eq!(stage_of_status(""), None);
    assert_eq!(stage_percent(InstallStage::Parting), 15);
    assert_eq!(stage_percent(InstallStage::Image), 50);
    assert_eq!(stage_percent(InstallStage::Unbind), 99);
    assert_eq!(stage_text_key(InstallStage::Parting), "installation_progress_bar_text_parting");
    assert_eq!(stage_text_key(InstallStage::ArchCopy), "installation_progress_bar_text_arch_copy");
    assert_eq!(stage_text_key(InstallStage::BasicUser), "installation_progress_bar_text_basic_user");
}

#[test]
fn bar_only_moves_forward() {
    let order = [
        InstallStage::Parting,
        InstallStage::Image,
        InstallStage::Flag,
        InstallStage::Bind,
        InstallStage::ArchCopy,
        InstallStage::Encryption,
        InstallStage::Swap,
        InstallStage::GenFstab,
        InstallStage::Locale,
        InstallStage::Bootloader,
        InstallStage::LiveRemove,
        InstallStage::BasicUser,
        InstallStage::Unbind,
    ];
    for w in order.windows(2) {
        assert!(stage_percent(w[0]) < stage_percent(w[1]));
    }
    for s in order {
        assert!(0 < stage_percent(s) && stage_percent(s) < 100);
    }
}

#[test]
fn status_files() {
    assert_eq!(
        status_file_stage(StatusFileStage::Parting),
        ("/tmp/pika-installer-gtk4-status-parting.txt", 20, "parting_status_text")
    );
    assert_eq!(status_file_stage(StatusFileStage::Crypt), ("/tmp/pika-installer-gtk4-status-crypt.txt", 75, "crypt_status_text"));
    assert_eq!(status_file_stage(StatusFileStage::Boot), ("/tmp/pika-installer-gtk4-status-boot.txt", 85, "boot_status_status_text"));
    assert_eq!(status_file_stage(StatusFileStage::Post), ("/tmp/pika-installer-gtk4-status-post.txt", 90, "post_status_text"));
}

#[test]
fn last_page() {
    assert_eq!(
        completion_page(true),
        ("emblem-ok-symbolic", "installation_complete_page_title_success", "installation_complete_page_subtitle_success")
    );
    assert_eq!(
        completion_page(false),
        ("dialog-error-symbolic", "installation_complete_page_title_failed", "installation_complete_page_subtitle_failed")
    );
}

#[test]
fn log_lines() {
    assert_eq!(log_entry("2024/05/01_12:30", "PARTING"), "[2024/05/01_12:30] PARTING");
    assert_eq!(log_entry("", ""), "[] ");
}
