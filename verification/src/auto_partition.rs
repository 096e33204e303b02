//! The checks of the automatic partitioning page: a disk must be chosen and
//! be large enough, and an encryption passphrase must be given and confirmed;
//! and the default split of the disk between root and home.
use vstd::prelude::*;

use crate::model::{MINIMUM_BOOT_BYTE_SIZE, MINIMUM_EFI_BYTE_SIZE, MINIMUM_ROOT_BYTE_SIZE};
use crate::script::{AutoFilesystem, HomeSeparation};

verus! {

/// Whether a disk of `block_size` bytes is too small to install onto.
pub fn disk_check(block_size: u64) -> (too_small: bool)
    ensures
        too_small == (block_size < MINIMUM_ROOT_BYTE_SIZE),
{
    !(block_size >= MINIMUM_ROOT_BYTE_SIZE)
}

/// Which passphrase errors to show: `(mismatch, empty)`. Without encryption
/// neither is shown.
pub fn luks_check(luks_enabled: bool, password: &String, confirm: &String) -> (r: (bool, bool))
    ensures
        r.0 == (luks_enabled && password@ != confirm@),
        r.1 == (luks_enabled && password@.len() == 0),
{
    if luks_enabled {
        let mismatch = !(*password == *confirm);
        let empty = password.as_str().unicode_len() == 0;
        (mismatch, empty)
    } else {
        (false, false)
    }
}

/// Whether no error message is shown.
pub fn check_for_errors(error_visible: &[bool]) -> (ok: bool)
    ensures
        ok == (forall|i: int| 0 <= i < error_visible@.len() ==> !error_visible@[i]),
{
    let mut i: usize = 0;
    while i < error_visible.len()
        invariant
            i <= error_visible@.len(),
            forall|j: int| 0 <= j < i ==> !error_visible@[j],
        decreases error_visible@.len() - i,
    {
        if error_visible[i] {
            return false;
        }
        i = i + 1;
    }
    true
}

/// The title of the disk chooser once a disk is chosen: model, name and size.
pub fn chosen_disk_title(model: &str, name: &str, size_pretty: &str) -> (r: String)
    ensures
        r@ == model@ + ": "@ + name@ + " "@ + size_pretty@,
{
    let mut r = model.to_owned();
    r.append(": ");
    r.append(name);
    r.append(" ");
    r.append(size_pretty);
    r
}

/// The line under a disk in the chooser: name and size.
pub fn disk_row_subtitle(name: &str, size_pretty: &str) -> (r: String)
    ensures
        r@ == name@ + " "@ + size_pretty@,
{
    let mut r = name.to_owned();
    r.append(" ");
    r.append(size_pretty);
    r
}

/// The state of the automatic partitioning page.
pub struct AutoPartitionChecks {
    /// The size of the disk last chosen, if any.
    pub chosen_size: Option<u64>,
    pub nodisk_error: bool,
    pub small_error: bool,
    pub luks_enabled: bool,
    pub password: String,
    pub confirm: String,
    pub luks_empty_error: bool,
    pub luks_mismatch_error: bool,
}

/// The error messages agree with what the page holds.
pub open spec fn checks_consistent(s: AutoPartitionChecks) -> bool {
    &&& s.nodisk_error == (s.chosen_size is None)
    &&& s.small_error == (s.chosen_size matches Some(z) && z < MINIMUM_ROOT_BYTE_SIZE)
    &&& s.luks_empty_error == (s.luks_enabled && s.password@.len() == 0)
    &&& s.luks_mismatch_error == (s.luks_enabled && s.password@ != s.confirm@)
}

/// The page is ready: a disk large enough is chosen and, with encryption, a
/// non-empty passphrase was confirmed.
pub open spec fn installable(s: AutoPartitionChecks) -> bool {
    &&& s.chosen_size matches Some(z) && z >= MINIMUM_ROOT_BYTE_SIZE
    &&& s.luks_enabled ==> s.password@.len() > 0 && s.password@ == s.confirm@
}

/// The state of the page as plain values.
pub struct AutoChecksView {
    pub chosen_size: Option<u64>,
    pub nodisk_error: bool,
    pub small_error: bool,
    pub luks_enabled: bool,
    pub password: Seq<char>,
    pub confirm: Seq<char>,
    pub luks_empty_error: bool,
    pub luks_mismatch_error: bool,
}

/// The page's state as plain values.
pub open spec fn auto_view(s: AutoPartitionChecks) -> AutoChecksView {
    AutoChecksView {
        chosen_size: s.chosen_size,
        nodisk_error: s.nodisk_error,
        small_error: s.small_error,
        luks_enabled: s.luks_enabled,
        password: s.password@,
        confirm: s.confirm@,
        luks_empty_error: s.luks_empty_error,
        luks_mismatch_error: s.luks_mismatch_error,
    }
}

/// What happens on the page.
pub enum AutoEvent {
    /// A disk's button was activated or deactivated.
    DeviceToggled { active: bool, block_size: u64 },
    /// The encryption box was toggled.
    LuksToggled { active: bool },
    /// The passphrase or its confirmation was edited.
    PasswordChanged { password: Seq<char>, confirm: Seq<char> },
}

/// The page as it opens.
pub open spec fn auto_initial() -> AutoChecksView {
    AutoChecksView {
        chosen_size: None,
        nodisk_error: true,
        small_error: false,
        luks_enabled: false,
        password: Seq::<char>::empty(),
        confirm: Seq::<char>::empty(),
        luks_empty_error: false,
        luks_mismatch_error: false,
    }
}

/// The page after event `e`.
pub open spec fn auto_step(v: AutoChecksView, e: AutoEvent) -> AutoChecksView {
    match e {
        AutoEvent::DeviceToggled { active, block_size } => AutoChecksView {
            chosen_size: if active { Some(block_size) } else { v.chosen_size },
            small_error: if active { block_size < MINIMUM_ROOT_BYTE_SIZE } else { v.small_error },
            nodisk_error: false,
            ..v
        },
        AutoEvent::LuksToggled { active } => AutoChecksView {
            luks_enabled: active,
            luks_mismatch_error: active && v.password != v.confirm,
            luks_empty_error: active && v.password.len() == 0,
            ..v
        },
        AutoEvent::PasswordChanged { password, confirm } => AutoChecksView {
            password,
            confirm,
            luks_mismatch_error: v.luks_enabled && password != confirm,
            luks_empty_error: v.luks_enabled && password.len() == 0,
            ..v
        },
    }
}

/// The page after the events `es`, from the moment it opens.
pub open spec fn auto_run(es: Seq<AutoEvent>) -> AutoChecksView
    decreases es.len(),
{
    if es.len() == 0 {
        auto_initial()
    } else {
        auto_step(auto_run(es.drop_last()), es.last())
    }
}

/// Whether "next" is enabled: no error message is shown.
pub open spec fn view_next(v: AutoChecksView) -> bool {
    !v.nodisk_error && !v.small_error && !v.luks_empty_error && !v.luks_mismatch_error
}

/// The events can happen on the page: a disk's button is deactivated only
/// after some disk was chosen (the buttons form one group, so a button goes
/// off only when another goes on).
pub open spec fn events_possible(es: Seq<AutoEvent>) -> bool {
    forall|i: int|
        0 <= i < es.len() ==> (#[trigger] es[i] matches AutoEvent::DeviceToggled { active, .. } && !active
            ==> auto_run(es.take(i)).chosen_size is Some)
}

impl AutoPartitionChecks {
    /// The page as it opens: no disk chosen, no encryption.
    pub fn new() -> (r: Self)
        ensures
            r.chosen_size is None,
            r.nodisk_error,
            !r.small_error,
            !r.luks_enabled,
            r.password@.len() == 0,
            r.confirm@.len() == 0,
            !r.luks_empty_error,
            !r.luks_mismatch_error,
            auto_view(r) == auto_initial(),
    {
        AutoPartitionChecks {
            chosen_size: None,
            nodisk_error: true,
            small_error: false,
            luks_enabled: false,
            password: String::new(),
            confirm: String::new(),
            luks_empty_error: false,
            luks_mismatch_error: false,
        }
    }

    /// A disk's button was toggled: an activated disk becomes the chosen one
    /// and decides the size error; either way the "no disk" error goes.
    pub fn on_device_toggled(&mut self, active: bool, block_size: u64)
        ensures
            final(self).chosen_size == (if active {
                Some(block_size)
            } else {
                old(self).chosen_size
            }),
            final(self).small_error == (if active {
                block_size < MINIMUM_ROOT_BYTE_SIZE
            } else {
                old(self).small_error
            }),
            !final(self).nodisk_error,
            final(self).luks_enabled == old(self).luks_enabled,
            final(self).password == old(self).password,
            final(self).confirm == old(self).confirm,
            final(self).luks_empty_error == old(self).luks_empty_error,
            final(self).luks_mismatch_error == old(self).luks_mismatch_error,
            auto_view(*final(self)) == auto_step(
                auto_view(*old(self)),
                AutoEvent::DeviceToggled { active, block_size },
            ),
    {
        if active {
            self.chosen_size = Some(block_size);
            self.small_error = disk_check(block_size);
        }
        self.nodisk_error = false;
    }

    /// The encryption check box was toggled.
    pub fn on_luks_toggled(&mut self, active: bool)
        ensures
            final(self).luks_enabled == active,
            final(self).luks_mismatch_error == (active && old(self).password@ != old(self).confirm@),
            final(self).luks_empty_error == (active && old(self).password@.len() == 0),
            final(self).chosen_size == old(self).chosen_size,
            final(self).nodisk_error == old(self).nodisk_error,
            final(self).small_error == old(self).small_error,
            final(self).password == old(self).password,
            final(self).confirm == old(self).confirm,
            auto_view(*final(self)) == auto_step(auto_view(*old(self)), AutoEvent::LuksToggled { active }),
    {
        self.luks_enabled = active;
        let (mismatch, empty) = luks_check(active, &self.password, &self.confirm);
        self.luks_mismatch_error = mismatch;
        self.luks_empty_error = empty;
    }

    /// The passphrase or its confirmation was edited.
    pub fn on_luks_password_changed(&mut self, password: String, confirm: String)
        ensures
            final(self).password == password,
            final(self).confirm == confirm,
            final(self).luks_mismatch_error == (old(self).luks_enabled && password@ != confirm@),
            final(self).luks_empty_error == (old(self).luks_enabled && password@.len() == 0),
            final(self).luks_enabled == old(self).luks_enabled,
            final(self).chosen_size == old(self).chosen_size,
            final(self).nodisk_error == old(self).nodisk_error,
            final(self).small_error == old(self).small_error,
            auto_view(*final(self)) == auto_step(
                auto_view(*old(self)),
                AutoEvent::PasswordChanged { password: password@, confirm: confirm@ },
            ),
    {
        self.password = password;
        self.confirm = confirm;
        let (mismatch, empty) = luks_check(self.luks_enabled, &self.password, &self.confirm);
        self.luks_mismatch_error = mismatch;
        self.luks_empty_error = empty;
    }

    /// Whether the "next" button is enabled: no error message is shown.
    pub fn next_sensitive(&self) -> (r: bool)
        ensures
            r == (!self.nodisk_error && !self.small_error && !self.luks_empty_error
                && !self.luks_mismatch_error),
            r == view_next(auto_view(*self)),
    {
        let errors = [self.nodisk_error, self.small_error, self.luks_empty_error, self.luks_mismatch_error];
        let ok = check_for_errors(&errors);
        assert(ok ==> !errors@[0] && !errors@[1] && !errors@[2] && !errors@[3]);
        ok
    }
}

/// Law: the page opens consistent, each event keeps its error messages in
/// agreement with the chosen disk and passphrases (a disk can only be
/// deactivated after one was chosen), and then "next" is enabled exactly
/// when the page is installable.
pub proof fn lemma_auto_checks_invariant(
    s: AutoPartitionChecks,
    active: bool,
    block_size: u64,
    after_device: AutoPartitionChecks,
    after_luks: AutoPartitionChecks,
    after_password: AutoPartitionChecks,
    password: String,
    confirm: String,
)
    requires
        checks_consistent(s),
        active || s.chosen_size is Some,
        after_device.chosen_size == (if active { Some(block_size) } else { s.chosen_size }),
        after_device.small_error == (if active {
            block_size < MINIMUM_ROOT_BYTE_SIZE
        } else {
            s.small_error
        }),
        !after_device.nodisk_error,
        after_device.luks_enabled == s.luks_enabled,
        after_device.password == s.password,
        after_device.confirm == s.confirm,
        after_device.luks_empty_error == s.luks_empty_error,
        after_device.luks_mismatch_error == s.luks_mismatch_error,
        after_luks.luks_enabled == active,
        after_luks.luks_mismatch_error == (active && s.password@ != s.confirm@),
        after_luks.luks_empty_error == (active && s.password@.len() == 0),
        after_luks.chosen_size == s.chosen_size,
        after_luks.nodisk_error == s.nodisk_error,
        after_luks.small_error == s.small_error,
        after_luks.password == s.password,
        after_luks.confirm == s.confirm,
        after_password.password == password,
        after_password.confirm == confirm,
        after_password.luks_mismatch_error == (s.luks_enabled && password@ != confirm@),
        after_password.luks_empty_error == (s.luks_enabled && password@.len() == 0),
        after_password.luks_enabled == s.luks_enabled,
        after_password.chosen_size == s.chosen_size,
        after_password.nodisk_error == s.nodisk_error,
        after_password.small_error == s.small_error,
    ensures
        checks_consistent(after_device),
        checks_consistent(after_luks),
        checks_consistent(after_password),
        (!s.nodisk_error && !s.small_error && !s.luks_empty_error && !s.luks_mismatch_error)
            <==> installable(s),
{
}

/// The error messages agree with what the page holds (as plain values).
pub open spec fn view_consistent(v: AutoChecksView) -> bool {
    &&& v.nodisk_error == (v.chosen_size is None)
    &&& v.small_error == (v.chosen_size matches Some(z) && z < MINIMUM_ROOT_BYTE_SIZE)
    &&& v.luks_empty_error == (v.luks_enabled && v.password.len() == 0)
    &&& v.luks_mismatch_error == (v.luks_enabled && v.password != v.confirm)
}

/// Law: over any events the page can see from the moment it opens, the
/// error messages agree with what it holds, and "next" stays disabled until
/// a disk of at least `MINIMUM_ROOT_BYTE_SIZE` bytes has been chosen: while
/// it is enabled, the disk chosen last is that large, and with encryption a
/// non-empty passphrase was confirmed.
pub proof fn lemma_next_needs_large_disk(es: Seq<AutoEvent>)
    requires
        events_possible(es),
    ensures
        view_consistent(auto_run(es)),
        auto_run(es).chosen_size matches Some(z) ==> exists|i: int|
            0 <= i < es.len() && es[i] == (AutoEvent::DeviceToggled { active: true, block_size: z }),
        view_next(auto_run(es)) ==> (auto_run(es).chosen_size matches Some(z) && z >= MINIMUM_ROOT_BYTE_SIZE),
        view_next(auto_run(es)) && auto_run(es).luks_enabled ==> auto_run(es).password.len() > 0
            && auto_run(es).password == auto_run(es).confirm,
    decreases es.len(),
{
    if es.len() > 0 {
        let t = es.drop_last();
        let n = es.len() - 1;
        assert(t =~= es.take(n));
        assert forall|i: int|
            0 <= i < t.len() && (#[trigger] t[i] matches AutoEvent::DeviceToggled { active, .. } && !active) implies auto_run(
            t.take(i),
        ).chosen_size is Some by {
            assert(t[i] == es[i]);
            assert(t.take(i) =~= es.take(i));
        }
        lemma_next_needs_large_disk(t);
        assert(es[n] == es.last());
        let v = auto_run(t);
        match es.last() {
            AutoEvent::DeviceToggled { active, block_size } => {
                if active {
                    assert(es[n] == (AutoEvent::DeviceToggled { active: true, block_size }));
                } else {
                    assert(v.chosen_size is Some);
                    if let Some(z) = v.chosen_size {
                        let i = choose|i: int|
                            0 <= i < t.len() && t[i] == (AutoEvent::DeviceToggled { active: true, block_size: z });
                        assert(es[i] == t[i]);
                    }
                }
            },
            _ => {
                if let Some(z) = v.chosen_size {
                    let i = choose|i: int|
                        0 <= i < t.len() && t[i] == (AutoEvent::DeviceToggled { active: true, block_size: z });
                    assert(es[i] == t[i]);
                }
            },
        }
    }
}

/// The bytes of a disk left for root and home once the EFI and boot
/// partitions are made.
pub open spec fn usable_space(block_size: u64) -> int {
    block_size - (MINIMUM_EFI_BYTE_SIZE + MINIMUM_BOOT_BYTE_SIZE)
}

/// The root size first proposed: 40% of the usable space, but at least
/// `MINIMUM_ROOT_BYTE_SIZE` and at most 100 GB; whole bytes, rounded down.
pub open spec fn spec_default_root_size(block_size: u64) -> int {
    let u = usable_space(block_size);
    if u * 40 > 100000000000 * 100 {
        100000000000
    } else if u * 40 < MINIMUM_ROOT_BYTE_SIZE * 100 {
        MINIMUM_ROOT_BYTE_SIZE as int
    } else {
        (u * 40) / 100
    }
}

/// The root size first proposed for a disk of `block_size` bytes.
pub fn default_root_size(block_size: u64) -> (r: u64)
    ensures
        r == spec_default_root_size(block_size),
        MINIMUM_ROOT_BYTE_SIZE <= r <= 100000000000,
{
    let reserved: u64 = MINIMUM_EFI_BYTE_SIZE + MINIMUM_BOOT_BYTE_SIZE;
    if block_size < reserved {
        return MINIMUM_ROOT_BYTE_SIZE;
    }
    let u: u64 = block_size - reserved;
    if u > 250000000000 {
        100000000000
    } else if u * 40 < MINIMUM_ROOT_BYTE_SIZE * 100 {
        MINIMUM_ROOT_BYTE_SIZE
    } else {
        u * 40 / 100
    }
}

/// The range of root sizes the slider offers: from `MINIMUM_ROOT_BYTE_SIZE`
/// to the usable space less 10 GB (which may lie below the lower end).
pub fn root_size_range(block_size: u64) -> (r: (i64, i64))
    requires
        block_size <= i64::MAX,
    ensures
        r.0 == MINIMUM_ROOT_BYTE_SIZE,
        r.1 == usable_space(block_size) - 10000000000,
{
    let b = block_size as i64;
    (MINIMUM_ROOT_BYTE_SIZE as i64, b - 1500000000 - 10000000000)
}

/// Where `/home` goes once the filesystem `fs` is chosen while `sep` was
/// selected: only btrfs can keep `/home` on a subvolume, so with another
/// filesystem that choice moves to a partition of its own; the subvolume
/// choice is offered only while btrfs is chosen.
pub fn separation_after_filesystem_choice(fs: AutoFilesystem, sep: HomeSeparation) -> (r: HomeSeparation)
    ensures
        r == (if fs != AutoFilesystem::Btrfs && sep == HomeSeparation::Subvol {
            HomeSeparation::Partition
        } else {
            sep
        }),
        r == HomeSeparation::Subvol ==> fs == AutoFilesystem::Btrfs,
{
    match (fs, sep) {
        (AutoFilesystem::Btrfs, _) => sep,
        (_, HomeSeparation::Subvol) => HomeSeparation::Partition,
        _ => sep,
    }
}

/// What the automatic partitioning page has chosen for the filesystem and
/// for `/home`.
#[derive(Clone, Copy, Debug, PartialEq, Eq, Structural)]
pub struct LayoutChoice {
    pub filesystem: AutoFilesystem,
    pub separation: HomeSeparation,
}

/// A click on one of the filesystem or `/home` buttons.
#[derive(Clone, Copy, Debug, PartialEq, Eq, Structural)]
pub enum LayoutEvent {
    FilesystemChosen(AutoFilesystem),
    SeparationChosen(HomeSeparation),
}

/// The page opens with btrfs and `/home` on a subvolume.
pub open spec fn layout_initial() -> LayoutChoice {
    LayoutChoice { filesystem: AutoFilesystem::Btrfs, separation: HomeSeparation::Subvol }
}

/// The subvolume button can be clicked only while btrfs is chosen.
pub open spec fn subvol_offered(fs: AutoFilesystem) -> bool {
    fs == AutoFilesystem::Btrfs
}

/// The choice after one click.
pub open spec fn layout_step(c: LayoutChoice, e: LayoutEvent) -> LayoutChoice {
    match e {
        LayoutEvent::FilesystemChosen(fs) => LayoutChoice {
            filesystem: fs,
            separation: if fs != AutoFilesystem::Btrfs && c.separation == HomeSeparation::Subvol {
                HomeSeparation::Partition
            } else {
                c.separation
            },
        },
        LayoutEvent::SeparationChosen(sep) => if sep == HomeSeparation::Subvol && !subvol_offered(
            c.filesystem,
        ) {
            c
        } else {
            LayoutChoice { separation: sep, ..c }
        },
    }
}

/// The choice after the clicks `es`, from the moment the page opens.
pub open spec fn layout_run(es: Seq<LayoutEvent>) -> LayoutChoice
    decreases es.len(),
{
    if es.len() == 0 {
        layout_initial()
    } else {
        layout_step(layout_run(es.drop_last()), es.last())
    }
}

/// Only btrfs keeps `/home` on a subvolume.
pub open spec fn choice_supported(c: LayoutChoice) -> bool {
    c.separation == HomeSeparation::Subvol ==> c.filesystem == AutoFilesystem::Btrfs
}

impl LayoutChoice {
    /// The choice as the page opens.
    pub fn new() -> (r: Self)
        ensures
            r == layout_initial(),
            r.filesystem == AutoFilesystem::Btrfs,
            r.separation == HomeSeparation::Subvol,
    {
        LayoutChoice { filesystem: AutoFilesystem::Btrfs, separation: HomeSeparation::Subvol }
    }

    /// A filesystem button is clicked.
    pub fn choose_filesystem(&mut self, fs: AutoFilesystem)
        ensures
            *final(self) == layout_step(*old(self), LayoutEvent::FilesystemChosen(fs)),
    {
        self.separation = separation_after_filesystem_choice(fs, self.separation);
        self.filesystem = fs;
    }

    /// A `/home` button is clicked; the subvolume button does nothing while
    /// it is not offered.
    pub fn choose_separation(&mut self, sep: HomeSeparation)
        ensures
            *final(self) == layout_step(*old(self), LayoutEvent::SeparationChosen(sep)),
    {
        let offered = self.subvol_sensitive();
        match sep {
            HomeSeparation::Subvol => {
                if offered {
                    self.separation = sep;
                }
            },
            _ => {
                self.separation = sep;
            },
        }
    }

    /// Whether the subvolume button can be clicked.
    pub fn subvol_sensitive(&self) -> (r: bool)
        ensures
            r == subvol_offered(self.filesystem),
    {
        match self.filesystem {
            AutoFilesystem::Btrfs => true,
            _ => false,
        }
    }
}

/// Law: whatever buttons are clicked after the page opens, `/home` is on a
/// subvolume only while btrfs is chosen.
pub proof fn lemma_layout_choice_supported(es: Seq<LayoutEvent>)
    ensures
        choice_supported(layout_run(es)),
    decreases es.len(),
{
    if es.len() > 0 {
        lemma_layout_choice_supported(es.drop_last());
    }
}

} // verus!
