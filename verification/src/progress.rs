//! The progress bar of the installation: which stage a status message from
//! the installer names, how far the bar is then, and the stages an
//! installer announced through status files.
use vstd::prelude::*;

use crate::text::{str_eq, trim, trimmed};

verus! {

/// The stages the installer reports on its status socket, in order.
#[derive(Clone, Copy, Debug, PartialEq, Eq, Structural)]
pub enum InstallStage {
    Parting,
    Image,
    Flag,
    Bind,
    ArchCopy,
    Encryption,
    Swap,
    GenFstab,
    Locale,
    Bootloader,
    LiveRemove,
    BasicUser,
    Unbind,
}

/// The message naming each stage.
pub open spec fn stage_message(s: InstallStage) -> Seq<char> {
    match s {
        InstallStage::Parting => "PARTING"@,
        InstallStage::Image => "IMAGE"@,
        InstallStage::Flag => "FLAG"@,
        InstallStage::Bind => "BIND"@,
        InstallStage::ArchCopy => "ARCH_COPY"@,
        InstallStage::Encryption => "ENCRYPTION"@,
        InstallStage::Swap => "SWAP"@,
        InstallStage::GenFstab => "GEN_FSTAB"@,
        InstallStage::Locale => "LOCALE"@,
        InstallStage::Bootloader => "BOOTLOADER"@,
        InstallStage::LiveRemove => "LIVE_REMOVE"@,
        InstallStage::BasicUser => "BASIC_USER"@,
        InstallStage::Unbind => "UNBIND"@,
    }
}

/// The position of each stage in the order of installation.
pub open spec fn stage_rank(s: InstallStage) -> int {
    match s {
        InstallStage::Parting => 0,
        InstallStage::Image => 1,
        InstallStage::Flag => 2,
        InstallStage::Bind => 3,
        InstallStage::ArchCopy => 4,
        InstallStage::Encryption => 5,
        InstallStage::Swap => 6,
        InstallStage::GenFstab => 7,
        InstallStage::Locale => 8,
        InstallStage::Bootloader => 9,
        InstallStage::LiveRemove => 10,
        InstallStage::BasicUser => 11,
        InstallStage::Unbind => 12,
    }
}

/// How far the bar is, in percent, once a stage has begun.
pub open spec fn spec_stage_percent(s: InstallStage) -> u32 {
    match s {
        InstallStage::Parting => 15,
        InstallStage::Image => 50,
        InstallStage::Flag => 55,
        InstallStage::Bind => 60,
        InstallStage::ArchCopy => 65,
        InstallStage::Encryption => 70,
        InstallStage::Swap => 75,
        InstallStage::GenFstab => 80,
        InstallStage::Locale => 85,
        InstallStage::Bootloader => 90,
        InstallStage::LiveRemove => 95,
        InstallStage::BasicUser => 98,
        InstallStage::Unbind => 99,
    }
}

/// How far the bar is, in percent, once `stage` has begun.
pub fn stage_percent(stage: InstallStage) -> (r: u32)
    ensures
        r == spec_stage_percent(stage),
{
    match stage {
        InstallStage::Parting => 15,
        InstallStage::Image => 50,
        InstallStage::Flag => 55,
        InstallStage::Bind => 60,
        InstallStage::ArchCopy => 65,
        InstallStage::Encryption => 70,
        InstallStage::Swap => 75,
        InstallStage::GenFstab => 80,
        InstallStage::Locale => 85,
        InstallStage::Bootloader => 90,
        InstallStage::LiveRemove => 95,
        InstallStage::BasicUser => 98,
        InstallStage::Unbind => 99,
    }
}

/// The message key of the text the bar shows during a stage.
pub open spec fn spec_stage_text_key(s: InstallStage) -> Seq<char> {
    match s {
        InstallStage::Parting => "installation_progress_bar_text_parting"@,
        InstallStage::Image => "installation_progress_bar_text_image"@,
        InstallStage::Flag => "installation_progress_bar_text_flag"@,
        InstallStage::Bind => "installation_progress_bar_text_bind"@,
        InstallStage::ArchCopy => "installation_progress_bar_text_arch_copy"@,
        InstallStage::Encryption => "installation_progress_bar_text_encryption"@,
        InstallStage::Swap => "installation_progress_bar_text_swap"@,
        InstallStage::GenFstab => "installation_progress_bar_text_gen_fstab"@,
        InstallStage::Locale => "installation_progress_bar_text_locale"@,
        InstallStage::Bootloader => "installation_progress_bar_text_bootloader"@,
        InstallStage::LiveRemove => "installation_progress_bar_text_live_remove"@,
        InstallStage::BasicUser => "installation_progress_bar_text_basic_user"@,
        InstallStage::Unbind => "installation_progress_bar_text_unbind"@,
    }
}

/// The message key of the bar's text during `stage`.
pub fn stage_text_key(stage: InstallStage) -> (r: &'static str)
    ensures
        r@ == spec_stage_text_key(stage),
{
    match stage {
        InstallStage::Parting => "installation_progress_bar_text_parting",
        InstallStage::Image => "installation_progress_bar_text_image",
        InstallStage::Flag => "installation_progress_bar_text_flag",
        InstallStage::Bind => "installation_progress_bar_text_bind",
        InstallStage::ArchCopy => "installation_progress_bar_text_arch_copy",
        InstallStage::Encryption => "installation_progress_bar_text_encryption",
        InstallStage::Swap => "installation_progress_bar_text_swap",
        InstallStage::GenFstab => "installation_progress_bar_text_gen_fstab",
        InstallStage::Locale => "installation_progress_bar_text_locale",
        InstallStage::Bootloader => "installation_progress_bar_text_bootloader",
        InstallStage::LiveRemove => "installation_progress_bar_text_live_remove",
        InstallStage::BasicUser => "installation_progress_bar_text_basic_user",
        InstallStage::Unbind => "installation_progress_bar_text_unbind",
    }
}

/// `s` with its ASCII capitals made small.
pub open spec fn ascii_lowercase(s: Seq<char>) -> Seq<char> {
    s.map_values(|c: char| if 'A' <= c <= 'Z' { ((c as u32) + 32) as char } else { c })
}

/// Law: the bar's text key during a stage names that stage: it is
/// `installation_progress_bar_text_` followed by the stage's status message
/// in small letters.
pub proof fn lemma_stage_text_key_names_stage(s: InstallStage)
    ensures
        spec_stage_text_key(s) == "installation_progress_bar_text_"@ + ascii_lowercase(stage_message(s)),
{
    reveal_strlit("installation_progress_bar_text_");
    match s {
        InstallStage::Parting => {
            reveal_strlit("PARTING");
            reveal_strlit("installation_progress_bar_text_parting");
        },
        InstallStage::Image => {
            reveal_strlit("IMAGE");
            reveal_strlit("installation_progress_bar_text_image");
        },
        InstallStage::Flag => {
            reveal_strlit("FLAG");
            reveal_strlit("installation_progress_bar_text_flag");
        },
        InstallStage::Bind => {
            reveal_strlit("BIND");
            reveal_strlit("installation_progress_bar_text_bind");
        },
        InstallStage::ArchCopy => {
            reveal_strlit("ARCH_COPY");
            reveal_strlit("installation_progress_bar_text_arch_copy");
        },
        InstallStage::Encryption => {
            reveal_strlit("ENCRYPTION");
            reveal_strlit("installation_progress_bar_text_encryption");
        },
        InstallStage::Swap => {
            reveal_strlit("SWAP");
            reveal_strlit("installation_progress_bar_text_swap");
        },
        InstallStage::GenFstab => {
            reveal_strlit("GEN_FSTAB");
            reveal_strlit("installation_progress_bar_text_gen_fstab");
        },
        InstallStage::Locale => {
            reveal_strlit("LOCALE");
            reveal_strlit("installation_progress_bar_text_locale");
        },
        InstallStage::Bootloader => {
            reveal_strlit("BOOTLOADER");
            reveal_strlit("installation_progress_bar_text_bootloader");
        },
        InstallStage::LiveRemove => {
            reveal_strlit("LIVE_REMOVE");
            reveal_strlit("installation_progress_bar_text_live_remove");
        },
        InstallStage::BasicUser => {
            reveal_strlit("BASIC_USER");
            reveal_strlit("installation_progress_bar_text_basic_user");
        },
        InstallStage::Unbind => {
            reveal_strlit("UNBIND");
            reveal_strlit("installation_progress_bar_text_unbind");
        },
    }
    assert(spec_stage_text_key(s) =~= "installation_progress_bar_text_"@ + ascii_lowercase(stage_message(s)));
}

/// The stage whose message is `m`, if any.
pub open spec fn stage_named(m: Seq<char>) -> Option<InstallStage> {
    if m == "PARTING"@ { Some(InstallStage::Parting) }
    else if m == "IMAGE"@ { Some(InstallStage::Image) }
    else if m == "FLAG"@ { Some(InstallStage::Flag) }
    else if m == "BIND"@ { Some(InstallStage::Bind) }
    else if m == "ARCH_COPY"@ { Some(InstallStage::ArchCopy) }
    else if m == "ENCRYPTION"@ { Some(InstallStage::Encryption) }
    else if m == "SWAP"@ { Some(InstallStage::Swap) }
    else if m == "GEN_FSTAB"@ { Some(InstallStage::GenFstab) }
    else if m == "LOCALE"@ { Some(InstallStage::Locale) }
    else if m == "BOOTLOADER"@ { Some(InstallStage::Bootloader) }
    else if m == "LIVE_REMOVE"@ { Some(InstallStage::LiveRemove) }
    else if m == "BASIC_USER"@ { Some(InstallStage::BasicUser) }
    else if m == "UNBIND"@ { Some(InstallStage::Unbind) }
    else { None }
}

/// Law: a message names a stage exactly when it is that stage's message.
pub proof fn lemma_stage_named(m: Seq<char>)
    ensures
        stage_named(m) matches Some(s) ==> stage_message(s) == m,
        stage_named(m) is None ==> forall|s: InstallStage| stage_message(s) != m,
{
}

/// The stage a status message names once surrounding whitespace is dropped;
/// other messages name none and leave the bar as it is.
pub fn stage_of_status(message: &str) -> (r: Option<InstallStage>)
    ensures
        r == stage_named(trimmed(message@)),
{
    let t = trim(message);
    let m = t.as_str();
    if str_eq(m, "PARTING") {
        Some(InstallStage::Parting)
    } else if str_eq(m, "IMAGE") {
        Some(InstallStage::Image)
    } else if str_eq(m, "FLAG") {
        Some(InstallStage::Flag)
    } else if str_eq(m, "BIND") {
        Some(InstallStage::Bind)
    } else if str_eq(m, "ARCH_COPY") {
        Some(InstallStage::ArchCopy)
    } else if str_eq(m, "ENCRYPTION") {
        Some(InstallStage::Encryption)
    } else if str_eq(m, "SWAP") {
        Some(InstallStage::Swap)
    } else if str_eq(m, "GEN_FSTAB") {
        Some(InstallStage::GenFstab)
    } else if str_eq(m, "LOCALE") {
        Some(InstallStage::Locale)
    } else if str_eq(m, "BOOTLOADER") {
        Some(InstallStage::Bootloader)
    } else if str_eq(m, "LIVE_REMOVE") {
        Some(InstallStage::LiveRemove)
    } else if str_eq(m, "BASIC_USER") {
        Some(InstallStage::BasicUser)
    } else if str_eq(m, "UNBIND") {
        Some(InstallStage::Unbind)
    } else {
        None
    }
}

/// Law: the bar only moves forward as the installation goes through its
/// stages in order, and never reaches 100% before the installer is done.
pub proof fn lemma_progress_monotone(a: InstallStage, b: InstallStage)
    ensures
        stage_rank(a) < stage_rank(b) ==> spec_stage_percent(a) < spec_stage_percent(b),
        0 < spec_stage_percent(a) < 100,
{
}

/// The stages an installer script announces by creating status files.
#[derive(Clone, Copy, Debug, PartialEq, Eq, Structural)]
pub enum StatusFileStage {
    Parting,
    Image,
    Flag1,
    Flag2,
    Crypt,
    Lang,
    Boot,
    Post,
}

/// The status file announcing a stage of the installer script, how far its
/// bar then is, in percent, and the message key of the bar's text.
pub open spec fn spec_status_file_stage(s: StatusFileStage) -> (Seq<char>, u32, Seq<char>) {
    match s {
        StatusFileStage::Parting => ("/tmp/pika-installer-gtk4-status-parting.txt"@, 20, "parting_status_text"@),
        StatusFileStage::Image => ("/tmp/pika-installer-gtk4-status-image.txt"@, 60, "image_status_text"@),
        StatusFileStage::Flag1 => ("/tmp/pika-installer-gtk4-status-flag1.txt"@, 65, "flag1_status_text"@),
        StatusFileStage::Flag2 => ("/tmp/pika-installer-gtk4-status-flag2.txt"@, 70, "flag2_status_text"@),
        StatusFileStage::Crypt => ("/tmp/pika-installer-gtk4-status-crypt.txt"@, 75, "crypt_status_text"@),
        StatusFileStage::Lang => ("/tmp/pika-installer-gtk4-status-lang.txt"@, 80, "lang_status_text"@),
        StatusFileStage::Boot => ("/tmp/pika-installer-gtk4-status-boot.txt"@, 85, "boot_status_status_text"@),
        StatusFileStage::Post => ("/tmp/pika-installer-gtk4-status-post.txt"@, 90, "post_status_text"@),
    }
}

/// The status file, the bar position and the text key of a stage of the
/// installer script that announces its stages by status files.
pub fn status_file_stage(stage: StatusFileStage) -> (r: (&'static str, u32, &'static str))
    ensures
        (r.0@, r.1, r.2@) == spec_status_file_stage(stage),
{
    match stage {
        StatusFileStage::Parting => ("/tmp/pika-installer-gtk4-status-parting.txt", 20, "parting_status_text"),
        StatusFileStage::Image => ("/tmp/pika-installer-gtk4-status-image.txt", 60, "image_status_text"),
        StatusFileStage::Flag1 => ("/tmp/pika-installer-gtk4-status-flag1.txt", 65, "flag1_status_text"),
        StatusFileStage::Flag2 => ("/tmp/pika-installer-gtk4-status-flag2.txt", 70, "flag2_status_text"),
        StatusFileStage::Crypt => ("/tmp/pika-installer-gtk4-status-crypt.txt", 75, "crypt_status_text"),
        StatusFileStage::Lang => ("/tmp/pika-installer-gtk4-status-lang.txt", 80, "lang_status_text"),
        StatusFileStage::Boot => ("/tmp/pika-installer-gtk4-status-boot.txt", 85, "boot_status_status_text"),
        StatusFileStage::Post => ("/tmp/pika-installer-gtk4-status-post.txt", 90, "post_status_text"),
    }
}

/// What the last page shows once the installer has finished: the icon and
/// the message keys of its title and subtitle.
pub open spec fn spec_completion_page(success: bool) -> (Seq<char>, Seq<char>, Seq<char>) {
    if success {
        (
            "emblem-ok-symbolic"@,
            "installation_complete_page_title_success"@,
            "installation_complete_page_subtitle_success"@,
        )
    } else {
        (
            "dialog-error-symbolic"@,
            "installation_complete_page_title_failed"@,
            "installation_complete_page_subtitle_failed"@,
        )
    }
}

/// The icon, title key and subtitle key of the last page after an
/// installation that succeeded or failed.
pub fn completion_page(success: bool) -> (r: (&'static str, &'static str, &'static str))
    ensures
        (r.0@, r.1@, r.2@) == spec_completion_page(success),
{
    if success {
        (
            "emblem-ok-symbolic",
            "installation_complete_page_title_success",
            "installation_complete_page_subtitle_success",
        )
    } else {
        (
            "dialog-error-symbolic",
            "installation_complete_page_title_failed",
            "installation_complete_page_subtitle_failed",
        )
    }
}

/// A line of the installer's output as it is written to the log: the time
/// stamp in brackets, a space, and the line.
pub fn log_entry(stamp: &str, line: &str) -> (r: String)
    ensures
        r@ == "["@ + stamp@ + "] "@ + line@,
{
    let mut r = "[".to_owned();
    r.append(stamp);
    r.append("] ");
    r.append(line);
    r
}

} // verus!
