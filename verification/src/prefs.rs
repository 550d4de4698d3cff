//! Saved preferences and the BitLocker volume list of the preferences panel.
use vstd::prelude::*;

use crate::assoc::{assoc_get, assoc_put, lookup, pairs_view, unique_keys};
use crate::order::{seq_order, sort_idx, stable_order};
use crate::text::{
    ascii_lowered, occurs_at, chars_of, concat2, concat3, contains, eq_ascii_ci, eq_ignore_ascii_case, first_word, lit, first_word_of, has_prefix, has_sub, lines, lowercase, ltrim, rtrim,
    split_lines, starts_with, string_of, strip_all_prefix, to_lowercase, trim, trim_chars, trim_end,
    trim_start, trim_start_matches, views,
};

verus! {

/// A volume as `manage-bde -status` reports it.
pub struct BitlockerVolume {
    /// The drive, such as `"C:"`.
    pub mount: String,
    /// The protection status that `manage-bde` reported, if it reported one.
    pub protection_on: Option<bool>,
    /// The protection status the user asks for.
    pub desired_on: Option<bool>,
}

/// A volume as plain values: drive, reported status, wanted status.
pub type VolumeModel = (Seq<char>, Option<bool>, Option<bool>);

/// The plain values of a volume.
pub open spec fn vol_view(v: BitlockerVolume) -> VolumeModel {
    (v.mount@, v.protection_on, v.desired_on)
}

/// The plain values of a list of volumes.
pub open spec fn vols_view(vs: Seq<BitlockerVolume>) -> Seq<VolumeModel> {
    vs.map_values(|v: BitlockerVolume| vol_view(v))
}

/// A copy of `v`.
pub fn copy_volume(v: &BitlockerVolume) -> (r: BitlockerVolume)
    ensures
        vol_view(r) == vol_view(*v),
{
    BitlockerVolume { mount: v.mount.clone(), protection_on: v.protection_on, desired_on: v.desired_on }
}

/// `"Volume "`, which starts the section of each volume.
pub open spec fn volume_label() -> Seq<char> {
    seq!['V', 'o', 'l', 'u', 'm', 'e', ' ']
}

/// `"Protection Status:"`, which starts the status line of a volume.
pub open spec fn status_label() -> Seq<char> {
    seq!['P', 'r', 'o', 't', 'e', 'c', 't', 'i', 'o', 'n', ' ', 'S', 't', 'a', 't', 'u', 's', ':']
}

/// Whether `c` is an ASCII letter.
pub open spec fn is_ascii_alpha(c: char) -> bool {
    ('A' <= c && c <= 'Z') || ('a' <= c && c <= 'z')
}

/// Whether `m` names a drive: a letter and a colon, such as `"C:"`.
pub open spec fn is_mount(m: Seq<char>) -> bool {
    m.len() == 2 && is_ascii_alpha(m[0]) && m[1] == ':'
}

/// The drive named on a `Volume` line `t` (already trimmed at the start): the first
/// word after the repeated label, or nothing.
pub open spec fn mount_of(t: Seq<char>) -> Seq<char> {
    match first_word(trim(strip_all_prefix(t, volume_label()))) {
        Some(w) => trim(w),
        None => seq![],
    }
}

/// The volumes found so far and the volume whose section is being read.
pub type BdeState = (Seq<VolumeModel>, Option<VolumeModel>);

/// How one line of `manage-bde -status` output changes the parse state. A status
/// line is tested for `off` first: every such line holds `on` (in "Protection"),
/// so only a line that does not say `off` reads as on.
pub open spec fn bde_line(st: BdeState, raw: Seq<char>) -> BdeState {
    let t = ltrim(rtrim(raw));
    if has_prefix(t, volume_label()) {
        let done = match st.1 {
            Some(v) => st.0.push(v),
            None => st.0,
        };
        let m = mount_of(t);
        (done, if is_mount(m) { Some((m, None, None)) } else { None })
    } else {
        match st.1 {
            Some(v) => if has_prefix(t, status_label()) {
                let low = lowercase(t);
                if has_sub(low, seq!['o', 'f', 'f']) {
                    (st.0, Some((v.0, Some(false), v.2)))
                } else if has_sub(low, seq!['o', 'n']) {
                    (st.0, Some((v.0, Some(true), v.2)))
                } else {
                    st
                }
            } else {
                st
            },
            None => st,
        }
    }
}

/// The parse state after the lines `ls`.
pub open spec fn bde_fold(ls: Seq<Seq<char>>) -> BdeState
    decreases ls.len(),
{
    if ls.len() == 0 {
        (seq![], None)
    } else {
        bde_line(bde_fold(ls.drop_last()), ls.last())
    }
}

/// The volumes of the output, in the order in which their sections appear.
pub open spec fn bde_volumes_unsorted(out: Seq<char>) -> Seq<VolumeModel> {
    let st = bde_fold(lines(out));
    match st.1 {
        Some(v) => st.0.push(v),
        None => st.0,
    }
}

/// The volumes of the output ordered by drive, volumes of the same drive in the
/// order of their sections (a stable sort by `mount`).
pub open spec fn bde_volumes(out: Seq<char>) -> Seq<VolumeModel> {
    let vs = bde_volumes_unsorted(out);
    sort_idx(vs.map_values(|v: VolumeModel| v.0), vs.len() as int).map_values(|j: int| vs[j])
}

fn is_mount_exec(m: &Vec<char>) -> (r: bool)
    ensures
        r == is_mount(m@),
{
    m.len() == 2 && (('A' <= m[0] && m[0] <= 'Z') || ('a' <= m[0] && m[0] <= 'z')) && m[1] == ':'
}

fn bde_step(
    vols: &mut Vec<BitlockerVolume>,
    current: Option<BitlockerVolume>,
    raw: &Vec<char>,
) -> (next: Option<BitlockerVolume>)
    ensures
        ({
            let st = bde_line(
                (vols_view(old(vols)@), match current {
                    Some(v) => Some(vol_view(v)),
                    None => None,
                }),
                raw@,
            );
            &&& vols_view(final(vols)@) == st.0
            &&& st.1 == match next {
                Some(v) => Some(vol_view(v)),
                None => None,
            }
        }),
{
    let line = trim_end(raw);
    let t = trim_start(&line);
    let label: Vec<char> = vec!['V', 'o', 'l', 'u', 'm', 'e', ' '];
    let status: Vec<char> = vec!['P', 'r', 'o', 't', 'e', 'c', 't', 'i', 'o', 'n', ' ', 'S', 't', 'a', 't', 'u', 's', ':'];
    proof {
        assert(label@ =~= volume_label());
        assert(status@ =~= status_label());
    }
    if starts_with(&t, &label) {
        match current {
            Some(v) => {
                let ghost before = vols@;
                vols.push(v);
                assert(vols_view(vols@) =~= vols_view(before).push(vol_view(v)));
            },
            None => {},
        }
        let rest = trim_chars(&trim_start_matches(&t, &label));
        let mount = match first_word_of(&rest) {
            Some(w) => trim_chars(&w),
            None => Vec::new(),
        };
        proof {
            if first_word(rest@) is None {
                assert(mount@ =~= Seq::<char>::empty());
            }
        }
        if is_mount_exec(&mount) {
            Some(BitlockerVolume { mount: string_of(&mount), protection_on: None, desired_on: None })
        } else {
            None
        }
    } else {
        match current {
            Some(v) => {
                if starts_with(&t, &status) {
                    let low = chars_of(to_lowercase(string_of(&t).as_str()).as_str());
                    let on: Vec<char> = vec!['o', 'n'];
                    let off: Vec<char> = vec!['o', 'f', 'f'];
                    proof {
                        assert(on@ =~= seq!['o', 'n']);
                        assert(off@ =~= seq!['o', 'f', 'f']);
                    }
                    if contains(&low, &off) {
                        Some(BitlockerVolume { mount: v.mount, protection_on: Some(false), desired_on: v.desired_on })
                    } else if contains(&low, &on) {
                        Some(BitlockerVolume { mount: v.mount, protection_on: Some(true), desired_on: v.desired_on })
                    } else {
                        Some(v)
                    }
                } else {
                    Some(v)
                }
            },
            None => None,
        }
    }
}

/// Reads the volumes and their protection status out of `manage-bde -status`
/// output: a line starting with `Volume ` opens the section of the drive it names
/// (a section is kept only when that name is a letter and a colon), and a
/// `Protection Status:` line in a section sets that volume's status (the last
/// such line deciding): off when the line, lower-cased, contains `off`
/// (`Protection Off`), else on when it contains `on` (`Protection On`). The
/// volumes come out ordered by drive.
pub fn parse_manage_bde_status(stdout: &str) -> (r: Vec<BitlockerVolume>)
    ensures
        vols_view(r@) == bde_volumes(stdout@),
{
    let s = chars_of(stdout);
    let ls = split_lines(&s);
    let mut vols: Vec<BitlockerVolume> = Vec::new();
    let mut current: Option<BitlockerVolume> = None;
    let mut i: usize = 0;
    while i < ls.len()
        invariant
            i <= ls.len(),
            views(ls@) == lines(s@),
            s@ == stdout@,
            bde_fold(views(ls@).subrange(0, i as int)) == (vols_view(vols@), match current {
                Some(v) => Some(vol_view(v)),
                None => None,
            }),
        decreases ls.len() - i,
    {
        proof {
            let pre = views(ls@).subrange(0, i + 1);
            assert(pre.drop_last() =~= views(ls@).subrange(0, i as int));
            assert(pre.last() == ls@[i as int]@);
        }
        current = bde_step(&mut vols, current, &ls[i]);
        i = i + 1;
    }
    proof {
        assert(views(ls@).subrange(0, ls.len() as int) =~= views(ls@));
    }
    match current {
        Some(v) => {
            let ghost before = vols@;
            vols.push(v);
            assert(vols_view(vols@) =~= vols_view(before).push(vol_view(v)));
        },
        None => {},
    }
    let ghost vs = vols_view(vols@);
    assert(vs == bde_volumes_unsorted(stdout@));
    let mut keys: Vec<Vec<char>> = Vec::new();
    let mut k: usize = 0;
    while k < vols.len()
        invariant
            k <= vols.len(),
            vs == vols_view(vols@),
            keys.len() == k,
            forall|j: int| 0 <= j < k ==> #[trigger] keys@[j]@ == vs[j].0,
        decreases vols.len() - k,
    {
        keys.push(chars_of(vols[k].mount.as_str()));
        k = k + 1;
    }
    let order = stable_order(&keys);
    proof {
        assert(keys@.map_values(|x: Vec<char>| x@) =~= vs.map_values(|v: VolumeModel| v.0));
    }
    let ghost ord = order@.map_values(|j: usize| j as int);
    let mut r: Vec<BitlockerVolume> = Vec::new();
    let mut q: usize = 0;
    while q < order.len()
        invariant
            q <= order.len(),
            vs == vols_view(vols@),
            ord == order@.map_values(|j: usize| j as int),
            ord == sort_idx(vs.map_values(|v: VolumeModel| v.0), vs.len() as int),
            forall|j: int| 0 <= j < order.len() ==> order@[j] < vols.len(),
            vols_view(r@) == ord.subrange(0, q as int).map_values(|j: int| vs[j]),
        decreases order.len() - q,
    {
        let ghost before = r@;
        r.push(copy_volume(&vols[order[q]]));
        proof {
            assert(vols_view(r@) =~= vols_view(before).push(vs[ord[q as int]]));
            assert(ord.subrange(0, q + 1).map_values(|j: int| vs[j]) =~= ord.subrange(
                0,
                q as int,
            ).map_values(|j: int| vs[j]).push(vs[ord[q as int]]));
        }
        q = q + 1;
    }
    proof {
        assert(ord.subrange(0, order.len() as int) =~= ord);
    }
    r
}

} // verus!

verus! {

/// The preferences file: the general and feature settings, the drive C:
/// protection flag kept for older files, and the wanted protection per drive.
pub struct PrefsFile {
    pub enable_tooltips: bool,
    pub auto_check_updates: bool,
    pub mouse_accel_enabled: bool,
    pub numlock_enabled: bool,
    pub taskbar_search_enabled: bool,
    pub taskbar_widgets_enabled: bool,
    pub snap_enabled: bool,
    pub sticky_enabled: bool,
    pub taskview_enabled: bool,
    pub verbose_logon_enabled: bool,
    pub bitlocker_protection_on: bool,
    /// Wanted protection per drive (such as `"C:"`); no drive occurs twice.
    pub bitlocker_volumes: Vec<(String, bool)>,
}

impl PrefsFile {
    /// Whether no drive occurs twice among the targets.
    pub open spec fn wf(&self) -> bool {
        unique_keys(pairs_view(self.bitlocker_volumes@))
    }

    /// The wanted protection per drive, as plain values.
    pub open spec fn targets(&self) -> Seq<(Seq<char>, bool)> {
        pairs_view(self.bitlocker_volumes@)
    }
}

impl Default for PrefsFile {
    /// Tooltips and update checks on, every tweak off, no drive targets.
    fn default() -> (r: Self)
        ensures
            r.enable_tooltips,
            r.auto_check_updates,
            !r.mouse_accel_enabled,
            !r.numlock_enabled,
            !r.taskbar_search_enabled,
            !r.taskbar_widgets_enabled,
            !r.snap_enabled,
            !r.sticky_enabled,
            !r.taskview_enabled,
            !r.verbose_logon_enabled,
            !r.bitlocker_protection_on,
            r.bitlocker_volumes@.len() == 0,
            r.wf(),
    {
        PrefsFile {
            enable_tooltips: true,
            auto_check_updates: true,
            mouse_accel_enabled: false,
            numlock_enabled: false,
            taskbar_search_enabled: false,
            taskbar_widgets_enabled: false,
            snap_enabled: false,
            sticky_enabled: false,
            taskview_enabled: false,
            verbose_logon_enabled: false,
            bitlocker_protection_on: false,
            bitlocker_volumes: Vec::new(),
        }
    }
}

/// The settings the preferences panel edits: the general and feature flags and
/// the drive C: protection flag.
#[derive(Clone, Copy)]
pub struct PrefFlags {
    pub enable_tooltips: bool,
    pub auto_check_updates: bool,
    pub mouse_accel_enabled: bool,
    pub numlock_enabled: bool,
    pub taskbar_search_enabled: bool,
    pub taskbar_widgets_enabled: bool,
    pub snap_enabled: bool,
    pub sticky_enabled: bool,
    pub taskview_enabled: bool,
    pub verbose_logon_enabled: bool,
    pub bitlocker_protection_on: bool,
}

/// The flags that a preferences file holds.
pub open spec fn flags_of(p: PrefsFile) -> PrefFlags {
    PrefFlags {
        enable_tooltips: p.enable_tooltips,
        auto_check_updates: p.auto_check_updates,
        mouse_accel_enabled: p.mouse_accel_enabled,
        numlock_enabled: p.numlock_enabled,
        taskbar_search_enabled: p.taskbar_search_enabled,
        taskbar_widgets_enabled: p.taskbar_widgets_enabled,
        snap_enabled: p.snap_enabled,
        sticky_enabled: p.sticky_enabled,
        taskview_enabled: p.taskview_enabled,
        verbose_logon_enabled: p.verbose_logon_enabled,
        bitlocker_protection_on: p.bitlocker_protection_on,
    }
}

/// Takes the panel's settings from a loaded preferences file.
pub fn load_flags(flags: &mut PrefFlags, p: &PrefsFile)
    ensures
        *final(flags) == flags_of(*p),
{
    flags.enable_tooltips = p.enable_tooltips;
    flags.auto_check_updates = p.auto_check_updates;
    flags.mouse_accel_enabled = p.mouse_accel_enabled;
    flags.numlock_enabled = p.numlock_enabled;
    flags.taskbar_search_enabled = p.taskbar_search_enabled;
    flags.taskbar_widgets_enabled = p.taskbar_widgets_enabled;
    flags.snap_enabled = p.snap_enabled;
    flags.sticky_enabled = p.sticky_enabled;
    flags.taskview_enabled = p.taskview_enabled;
    flags.verbose_logon_enabled = p.verbose_logon_enabled;
    flags.bitlocker_protection_on = p.bitlocker_protection_on;
}

/// Resets the general settings (not yet saved): tooltips and update checks on.
pub fn reset_general(flags: &mut PrefFlags)
    ensures
        *final(flags) == (PrefFlags { enable_tooltips: true, auto_check_updates: true, ..*old(flags) }),
{
    flags.enable_tooltips = true;
    flags.auto_check_updates = true;
}

/// The wanted protection of drive `k`: that of the last volume of drive `k` that
/// has a wanted status.
pub open spec fn desired_target(vs: Seq<VolumeModel>, k: Seq<char>) -> Option<bool>
    decreases vs.len(),
{
    if vs.len() == 0 {
        None
    } else if vs.last().0 == k && vs.last().2 is Some {
        vs.last().2
    } else {
        desired_target(vs.drop_last(), k)
    }
}

/// The wanted protection per drive that the volumes give, for the preferences file.
pub fn targets_from_volumes(vols: &Vec<BitlockerVolume>) -> (r: Vec<(String, bool)>)
    ensures
        unique_keys(pairs_view(r@)),
        forall|k: Seq<char>| #[trigger] lookup(pairs_view(r@), k) == desired_target(vols_view(vols@), k),
{
    let ghost vv = vols_view(vols@);
    let mut r: Vec<(String, bool)> = Vec::new();
    let mut i: usize = 0;
    while i < vols.len()
        invariant
            i <= vols.len(),
            vv == vols_view(vols@),
            unique_keys(pairs_view(r@)),
            forall|k: Seq<char>| #[trigger] lookup(pairs_view(r@), k) == desired_target(vv.subrange(0, i as int), k),
        decreases vols.len() - i,
    {
        proof {
            assert(vv.subrange(0, i + 1).drop_last() =~= vv.subrange(0, i as int));
        }
        match vols[i].desired_on {
            Some(des) => {
                assoc_put(&mut r, vols[i].mount.clone(), des);
            },
            None => {},
        }
        i = i + 1;
    }
    assert(vv.subrange(0, vols.len() as int) =~= vv);
    r
}

/// `"C:"`.
pub open spec fn drive_c() -> Seq<char> {
    seq!['C', ':']
}

/// The preferences file to save: the panel's settings, the wanted protection per
/// drive from the volumes, and as the drive C: flag the wanted protection of
/// `"C:"` when there is one, else the flag as it was.
pub fn prefs_to_save(flags: &PrefFlags, vols: &Vec<BitlockerVolume>) -> (r: PrefsFile)
    ensures
        r.wf(),
        forall|k: Seq<char>| #[trigger] lookup(r.targets(), k) == desired_target(vols_view(vols@), k),
        flags_of(r) == (PrefFlags {
            bitlocker_protection_on: match desired_target(vols_view(vols@), drive_c()) {
                Some(b) => b,
                None => flags.bitlocker_protection_on,
            },
            ..*flags
        }),
{
    let map = targets_from_volumes(vols);
    let c = string_of(&vec!['C', ':']);
    assert(c@ =~= drive_c());
    let legacy_c = match assoc_get(&map, &c) {
        Some(b) => b,
        None => flags.bitlocker_protection_on,
    };
    PrefsFile {
        enable_tooltips: flags.enable_tooltips,
        auto_check_updates: flags.auto_check_updates,
        mouse_accel_enabled: flags.mouse_accel_enabled,
        numlock_enabled: flags.numlock_enabled,
        taskbar_search_enabled: flags.taskbar_search_enabled,
        taskbar_widgets_enabled: flags.taskbar_widgets_enabled,
        snap_enabled: flags.snap_enabled,
        sticky_enabled: flags.sticky_enabled,
        taskview_enabled: flags.taskview_enabled,
        verbose_logon_enabled: flags.verbose_logon_enabled,
        bitlocker_protection_on: legacy_c,
        bitlocker_volumes: map,
    }
}

/// Sets each volume's wanted protection from the saved targets, falling back to
/// its reported status when the file names no target for its drive.
pub fn apply_saved_targets(vols: &mut Vec<BitlockerVolume>, p: &PrefsFile)
    ensures
        final(vols)@.len() == old(vols)@.len(),
        forall|i: int| 0 <= i < final(vols)@.len() ==> {
            &&& #[trigger] final(vols)@[i].mount@ == old(vols)@[i].mount@
            &&& final(vols)@[i].protection_on == old(vols)@[i].protection_on
            &&& final(vols)@[i].desired_on == match lookup(p.targets(), old(vols)@[i].mount@) {
                Some(b) => Some(b),
                None => old(vols)@[i].protection_on,
            }
        },
{
    let mut i: usize = 0;
    while i < vols.len()
        invariant
            i <= vols.len(),
            vols@.len() == old(vols)@.len(),
            forall|j: int| i <= j < vols@.len() ==> #[trigger] vols@[j] == old(vols)@[j],
            forall|j: int| 0 <= j < i ==> {
                &&& (#[trigger] vols@[j]).mount@ == old(vols)@[j].mount@
                &&& vols@[j].protection_on == old(vols)@[j].protection_on
                &&& vols@[j].desired_on == match lookup(p.targets(), old(vols)@[j].mount@) {
                    Some(b) => Some(b),
                    None => old(vols)@[j].protection_on,
                }
            },
        decreases vols.len() - i,
    {
        let target = assoc_get(&p.bitlocker_volumes, &vols[i].mount);
        let des = match target {
            Some(b) => Some(b),
            None => vols[i].protection_on,
        };
        let ghost oi = old(vols)@[i as int];
        let ghost prev = vols@;
        assert(vols@[i as int] == oi);
        let v = BitlockerVolume { mount: vols[i].mount.clone(), protection_on: vols[i].protection_on, desired_on: des };
        assert(v.mount@ == oi.mount@);
        vols.set(i, v);
        assert(vols@[i as int].desired_on == match lookup(p.targets(), oi.mount@) {
            Some(b) => Some(b),
            None => oi.protection_on,
        });
        assert forall|j: int| 0 <= j < i implies vols@[j] == prev[j] by {}
        i = i + 1;
    }
}

} // verus!

verus! {

/// The reported status of the first volume whose drive is `C:` (in any case),
/// if there is such a volume.
pub open spec fn first_c_status(vs: Seq<VolumeModel>) -> Option<Option<bool>>
    decreases vs.len(),
{
    if vs.len() == 0 {
        None
    } else if eq_ascii_ci(vs[0].0, drive_c()) {
        Some(vs[0].1)
    } else {
        first_c_status(vs.drop_first())
    }
}

/// The drive C: flag after a volume list is read: the reported status of the
/// first volume of drive `C:` when it has one, else `current`.
pub fn legacy_c_status(vols: &Vec<BitlockerVolume>, current: bool) -> (r: bool)
    ensures
        r == match first_c_status(vols_view(vols@)) {
            Some(Some(st)) => st,
            _ => current,
        },
{
    let ghost vv = vols_view(vols@);
    let c: Vec<char> = vec!['C', ':'];
    assert(c@ =~= drive_c());
    let mut i: usize = 0;
    assert(vv.subrange(0, vv.len() as int) =~= vv);
    while i < vols.len()
        invariant
            i <= vols.len(),
            vv == vols_view(vols@),
            c@ == drive_c(),
            first_c_status(vv) == first_c_status(vv.subrange(i as int, vv.len() as int)),
        decreases vols.len() - i,
    {
        let m = chars_of(vols[i].mount.as_str());
        let ghost rest = vv.subrange(i as int, vv.len() as int);
        assert(rest[0] == vv[i as int]);
        if eq_ignore_ascii_case(&m, &c) {
            return match vols[i].protection_on {
                Some(st) => st,
                None => current,
            };
        }
        assert(rest.drop_first() =~= vv.subrange(i + 1, vv.len() as int));
        i = i + 1;
    }
    current
}

/// Gives every volume without a wanted status its reported status, or off when
/// none was reported.
pub fn fill_desired(vols: &mut Vec<BitlockerVolume>)
    ensures
        final(vols)@.len() == old(vols)@.len(),
        forall|i: int| 0 <= i < final(vols)@.len() ==> {
            &&& (#[trigger] final(vols)@[i]).mount@ == old(vols)@[i].mount@
            &&& final(vols)@[i].protection_on == old(vols)@[i].protection_on
            &&& final(vols)@[i].desired_on == match old(vols)@[i].desired_on {
                Some(d) => Some(d),
                None => match old(vols)@[i].protection_on {
                    Some(p) => Some(p),
                    None => Some(false),
                },
            }
        },
{
    let mut i: usize = 0;
    while i < vols.len()
        invariant
            i <= vols.len(),
            vols@.len() == old(vols)@.len(),
            forall|j: int| i <= j < vols@.len() ==> #[trigger] vols@[j] == old(vols)@[j],
            forall|j: int| 0 <= j < i ==> {
                &&& (#[trigger] vols@[j]).mount@ == old(vols)@[j].mount@
                &&& vols@[j].protection_on == old(vols)@[j].protection_on
                &&& vols@[j].desired_on == match old(vols)@[j].desired_on {
                    Some(d) => Some(d),
                    None => match old(vols)@[j].protection_on {
                        Some(p) => Some(p),
                        None => Some(false),
                    },
                }
            },
        decreases vols.len() - i,
    {
        let ghost prev = vols@;
        if vols[i].desired_on.is_none() {
            let des = match vols[i].protection_on {
                Some(p) => Some(p),
                None => Some(false),
            };
            let v = BitlockerVolume { mount: vols[i].mount.clone(), protection_on: vols[i].protection_on, desired_on: des };
            vols.set(i, v);
        }
        assert forall|j: int| 0 <= j < i implies vols@[j] == prev[j] by {}
        i = i + 1;
    }
}

/// The protection changes to make: for each volume, in order, whose reported and
/// wanted status are both known and differ, its drive and the wanted status.
pub open spec fn changes(vs: Seq<VolumeModel>) -> Seq<(Seq<char>, bool)>
    decreases vs.len(),
{
    if vs.len() == 0 {
        seq![]
    } else {
        let v = vs.last();
        changes(vs.drop_last()) + match (v.1, v.2) {
            (Some(cur), Some(des)) => if cur != des {
                seq![(v.0, des)]
            } else {
                seq![]
            },
            _ => seq![],
        }
    }
}

/// Whether volume `v` is to be changed: its reported and wanted status are both
/// known and differ.
pub open spec fn needs_change(v: VolumeModel) -> bool {
    v.1 is Some && v.2 is Some && v.1 != v.2
}

/// Every volume whose reported and wanted status are known and differ gets a
/// change to its wanted status, in either direction, and each change is the drive
/// and wanted status of such a volume; the changes follow the volumes' order.
pub proof fn lemma_changes_exact(vs: Seq<VolumeModel>)
    ensures
        forall|i: int| 0 <= i < vs.len() && needs_change(#[trigger] vs[i]) ==> changes(vs).contains((vs[i].0, vs[i].2->0)),
        forall|k: int| #![trigger changes(vs)[k]] 0 <= k < changes(vs).len() ==> exists|i: int| 0 <= i < vs.len() && needs_change(#[trigger] vs[i])
            && changes(vs)[k] == (vs[i].0, vs[i].2->0),
        changes(vs).len() <= vs.len(),
        (forall|i: int| 0 <= i < vs.len() ==> !needs_change(#[trigger] vs[i])) ==> changes(vs).len() == 0,
    decreases vs.len(),
{
    if vs.len() > 0 {
        let p = vs.drop_last();
        lemma_changes_exact(p);
        let c = changes(vs);
        let cp = changes(p);
        let v = vs.last();
        let tail: Seq<(Seq<char>, bool)> = match (v.1, v.2) {
            (Some(cur), Some(des)) => if cur != des {
                seq![(v.0, des)]
            } else {
                seq![]
            },
            _ => seq![],
        };
        assert(c == cp + tail);
        assert forall|i: int| 0 <= i < vs.len() && needs_change(#[trigger] vs[i]) implies c.contains(
            (vs[i].0, vs[i].2->0),
        ) by {
            if i < vs.len() - 1 {
                assert(p[i] == vs[i]);
                let j = choose|j: int| 0 <= j < cp.len() && cp[j] == (p[i].0, p[i].2->0);
                assert(c[j] == cp[j]);
            } else {
                assert(c[cp.len() as int] == tail[0]);
            }
        }
        assert forall|k: int| #![trigger c[k]] 0 <= k < c.len() implies exists|i: int| 0 <= i < vs.len() && needs_change(#[trigger] vs[i])
            && c[k] == (vs[i].0, vs[i].2->0) by {
            if k < cp.len() {
                assert(c[k] == cp[k]);
                let i = choose|i: int| 0 <= i < p.len() && needs_change(#[trigger] p[i]) && cp[k] == (p[i].0, p[i].2->0);
                assert(vs[i] == p[i]);
            } else {
                assert(c[k] == tail[k - cp.len()]);
                assert(needs_change(vs[vs.len() - 1]));
            }
        }
        if forall|i: int| 0 <= i < vs.len() ==> !needs_change(#[trigger] vs[i]) {
            assert forall|i: int| 0 <= i < p.len() implies !needs_change(#[trigger] p[i]) by {
                assert(vs[i] == p[i]);
            }
            assert(!needs_change(vs[vs.len() - 1]));
        }
    }
}

/// The protection changes that applying the panel makes (`manage-bde -protectors`
/// is run for each, in order).
pub fn protection_changes(vols: &Vec<BitlockerVolume>) -> (r: Vec<(String, bool)>)
    ensures
        pairs_view(r@) == changes(vols_view(vols@)),
        forall|i: int| 0 <= i < vols@.len() && needs_change(#[trigger] vols_view(vols@)[i]) ==> pairs_view(r@).contains(
            (vols@[i].mount@, vols@[i].desired_on->0),
        ),
        forall|k: int| #![trigger pairs_view(r@)[k]] 0 <= k < r@.len() ==> exists|i: int| 0 <= i < vols@.len() && needs_change(
            #[trigger] vols_view(vols@)[i],
        ) && pairs_view(r@)[k] == (vols@[i].mount@, vols@[i].desired_on->0),
{
    proof {
        lemma_changes_exact(vols_view(vols@));
    }
    let ghost vv = vols_view(vols@);
    let mut r: Vec<(String, bool)> = Vec::new();
    let mut i: usize = 0;
    while i < vols.len()
        invariant
            i <= vols.len(),
            vv == vols_view(vols@),
            pairs_view(r@) == changes(vv.subrange(0, i as int)),
        decreases vols.len() - i,
    {
        proof {
            assert(vv.subrange(0, i + 1).drop_last() =~= vv.subrange(0, i as int));
        }
        let ghost before = pairs_view(r@);
        match (vols[i].protection_on, vols[i].desired_on) {
            (Some(cur), Some(des)) => {
                if cur != des {
                    r.push((vols[i].mount.clone(), des));
                    assert(pairs_view(r@) =~= before + seq![(vv[i as int].0, des)]);
                } else {
                    assert(before + Seq::<(Seq<char>, bool)>::empty() =~= before);
                }
            },
            _ => {
                assert(before + Seq::<(Seq<char>, bool)>::empty() =~= before);
            },
        }
        i = i + 1;
    }
    assert(vv.subrange(0, vols.len() as int) =~= vv);
    r
}

/// The wanted status of the last volume of drive `k`, if there is such a volume.
pub open spec fn last_desired(vs: Seq<VolumeModel>, k: Seq<char>) -> Option<Option<bool>>
    decreases vs.len(),
{
    if vs.len() == 0 {
        None
    } else if vs.last().0 == k {
        Some(vs.last().2)
    } else {
        last_desired(vs.drop_last(), k)
    }
}

/// After the volume list is read again, keeps what the user wanted: each volume
/// takes the wanted status of the last earlier volume of its drive, or its
/// reported status when there was none.
pub fn keep_desired(refreshed: &mut Vec<BitlockerVolume>, previous: &Vec<BitlockerVolume>)
    ensures
        final(refreshed)@.len() == old(refreshed)@.len(),
        forall|i: int| 0 <= i < final(refreshed)@.len() ==> {
            &&& (#[trigger] final(refreshed)@[i]).mount@ == old(refreshed)@[i].mount@
            &&& final(refreshed)@[i].protection_on == old(refreshed)@[i].protection_on
            &&& final(refreshed)@[i].desired_on == match last_desired(
                vols_view(previous@),
                old(refreshed)@[i].mount@,
            ) {
                Some(d) => d,
                None => old(refreshed)@[i].protection_on,
            }
        },
{
    let ghost pv = vols_view(previous@);
    let mut map: Vec<(String, Option<bool>)> = Vec::new();
    let mut i: usize = 0;
    while i < previous.len()
        invariant
            i <= previous.len(),
            pv == vols_view(previous@),
            unique_keys(pairs_view(map@)),
            forall|k: Seq<char>| #[trigger] lookup(pairs_view(map@), k) == last_desired(pv.subrange(0, i as int), k),
        decreases previous.len() - i,
    {
        proof {
            assert(pv.subrange(0, i + 1).drop_last() =~= pv.subrange(0, i as int));
        }
        assoc_put(&mut map, previous[i].mount.clone(), previous[i].desired_on);
        i = i + 1;
    }
    assert(pv.subrange(0, previous.len() as int) =~= pv);
    let mut j: usize = 0;
    while j < refreshed.len()
        invariant
            j <= refreshed.len(),
            refreshed@.len() == old(refreshed)@.len(),
            forall|k: Seq<char>| #[trigger] lookup(pairs_view(map@), k) == last_desired(pv, k),
            pv == vols_view(previous@),
            forall|q: int| j <= q < refreshed@.len() ==> #[trigger] refreshed@[q] == old(refreshed)@[q],
            forall|q: int| 0 <= q < j ==> {
                &&& (#[trigger] refreshed@[q]).mount@ == old(refreshed)@[q].mount@
                &&& refreshed@[q].protection_on == old(refreshed)@[q].protection_on
                &&& refreshed@[q].desired_on == match last_desired(pv, old(refreshed)@[q].mount@) {
                    Some(d) => d,
                    None => old(refreshed)@[q].protection_on,
                }
            },
        decreases refreshed.len() - j,
    {
        let ghost prev = refreshed@;
        let des = match assoc_get(&map, &refreshed[j].mount) {
            Some(d) => d,
            None => refreshed[j].protection_on,
        };
        let v = BitlockerVolume { mount: refreshed[j].mount.clone(), protection_on: refreshed[j].protection_on, desired_on: des };
        refreshed.set(j, v);
        assert forall|q: int| 0 <= q < j implies refreshed@[q] == prev[q] by {}
        j = j + 1;
    }
}

} // verus!

verus! {

/// The name of the scheduled task that checks for Windows updates daily.
pub open spec fn update_task_name() -> Seq<char> {
    "Eoliann_EWT_CheckWindowsUpdate"@
}

/// The views of a list of strings.
pub open spec fn strs_view(v: Seq<String>) -> Seq<Seq<char>> {
    v.map_values(|s: String| s@)
}

/// The `schtasks` arguments that turn the daily update check on (create the task,
/// run as SYSTEM with highest rights) or off (delete it).
pub fn update_task_args(enabled: bool) -> (r: Vec<String>)
    ensures
        enabled ==> strs_view(r@) == seq!["/Create"@, "/SC"@, "DAILY"@, "/TN"@, update_task_name(), "/TR"@,
            "cmd /c UsoClient StartScan"@, "/RL"@, "HIGHEST"@, "/RU"@, "SYSTEM"@, "/F"@],
        !enabled ==> strs_view(r@) == seq!["/Delete"@, "/TN"@, update_task_name(), "/F"@],
{
    let task = "Eoliann_EWT_CheckWindowsUpdate";
    let r = if enabled {
        vec![lit("/Create"), lit("/SC"), lit("DAILY"), lit("/TN"), lit(task), lit("/TR"),
            lit("cmd /c UsoClient StartScan"), lit("/RL"), lit("HIGHEST"), lit("/RU"), lit("SYSTEM"), lit("/F")]
    } else {
        vec![lit("/Delete"), lit("/TN"), lit(task), lit("/F")]
    };
    proof {
        if enabled {
            assert(strs_view(r@) =~= seq!["/Create"@, "/SC"@, "DAILY"@, "/TN"@, update_task_name(), "/TR"@,
                "cmd /c UsoClient StartScan"@, "/RL"@, "HIGHEST"@, "/RU"@, "SYSTEM"@, "/F"@]);
        } else {
            assert(strs_view(r@) =~= seq!["/Delete"@, "/TN"@, update_task_name(), "/F"@]);
        }
    }
    r
}

/// What turning the daily update check on or off reports, from how `schtasks`
/// went. Deleting a task that does not exist (its error output, lower-cased,
/// says the system cannot find it) counts as success.
pub fn update_task_outcome(enabled: bool, success: bool, stderr: &str) -> (r: Result<String, String>)
    ensures
        enabled && success ==> (r matches Ok(m) && m@ == "Scheduled task created: "@ + update_task_name()),
        enabled && !success ==> (r matches Err(e) && e@ == "schtasks create failed: "@ + stderr@),
        !enabled && success ==> (r matches Ok(m) && m@ == "Scheduled task removed: "@ + update_task_name()),
        !enabled && !success && has_sub(lowercase(stderr@), "the system cannot find"@) ==> (r matches Ok(m)
            && m@ == "Scheduled task not present (nothing to delete)"@),
        !enabled && !success && !has_sub(lowercase(stderr@), "the system cannot find"@) ==> (r matches Err(e)
            && e@ == "schtasks delete failed: "@ + stderr@),
{
    let task = "Eoliann_EWT_CheckWindowsUpdate";
    if enabled {
        if !success {
            return Err(concat2("schtasks create failed: ", stderr));
        }
        Ok(concat2("Scheduled task created: ", task))
    } else {
        if !success {
            let low = to_lowercase(stderr);
            if contains(&chars_of(low.as_str()), &chars_of("the system cannot find")) {
                return Ok(lit("Scheduled task not present (nothing to delete)"));
            }
            return Err(concat2("schtasks delete failed: ", stderr));
        }
        Ok(concat2("Scheduled task removed: ", task))
    }
}

/// The `manage-bde` arguments that resume (`enable`) or suspend the protectors
/// of drive `mount`.
pub fn protector_args(mount: &str, enable: bool) -> (r: Vec<String>)
    ensures
        strs_view(r@) == seq!["-protectors"@, if enable { "-enable"@ } else { "-disable"@ }, mount@],
{
    let r = if enable {
        vec![lit("-protectors"), lit("-enable"), lit(mount)]
    } else {
        vec![lit("-protectors"), lit("-disable"), lit(mount)]
    };
    assert(strs_view(r@) =~= seq!["-protectors"@, if enable { "-enable"@ } else { "-disable"@ }, mount@]);
    r
}

/// The volume list from a run of `manage-bde -status`: its volumes when it
/// succeeded, else its error output as the error.
pub fn bitlocker_list_outcome(success: bool, stdout: &str, stderr: &str) -> (r: Result<Vec<BitlockerVolume>, String>)
    ensures
        success ==> (r matches Ok(v) && vols_view(v@) == bde_volumes(stdout@)),
        !success ==> (r matches Err(e) && e@ == stderr@),
{
    if success {
        Ok(parse_manage_bde_status(stdout))
    } else {
        Err(lit(stderr))
    }
}

/// What changing the protection of one drive adds to the log.
pub fn protection_change_line(mount: &str, desired: bool, ok: bool, detail: &str) -> (r: String)
    ensures
        r@ == "BitLocker "@ + mount@ + " -> "@ + (if desired { "ON"@ } else { "OFF"@ }) + (if ok {
            " OK: "@
        } else {
            " FAILED: "@
        }) + detail@,
{
    let state = if desired { "ON" } else { "OFF" };
    let verdict = if ok { " OK: " } else { " FAILED: " };
    let mut r = concat3("BitLocker ", mount, " -> ");
    r.append(state);
    r.append(verdict);
    r.append(detail);
    r
}

/// Each drive is listed once.
pub open spec fn distinct_mounts(vs: Seq<VolumeModel>) -> bool {
    forall|i: int, j: int| 0 <= i < j < vs.len() ==> vs[i].0 != vs[j].0
}

/// Saving the BitLocker targets and restoring them gives each volume back the
/// target chosen for it, when each drive is listed once: what was saved for a
/// drive (`saved`, as `prefs_to_save` makes it) is that volume's wanted status.
pub proof fn lemma_targets_round_trip(vols: Seq<VolumeModel>, saved: Seq<(Seq<char>, bool)>, i: int)
    requires
        forall|k: Seq<char>| #[trigger] lookup(saved, k) == desired_target(vols, k),
        distinct_mounts(vols),
        0 <= i < vols.len(),
        vols[i].2 is Some,
    ensures
        lookup(saved, vols[i].0) == vols[i].2,
{
    lemma_desired_target_at(vols, i);
}

proof fn lemma_desired_target_at(vs: Seq<VolumeModel>, i: int)
    requires
        distinct_mounts(vs),
        0 <= i < vs.len(),
        vs[i].2 is Some,
    ensures
        desired_target(vs, vs[i].0) == vs[i].2,
    decreases vs.len(),
{
    if i < vs.len() - 1 {
        let rest = vs.drop_last();
        assert(vs.last().0 != vs[i].0);
        assert forall|a: int, b: int| 0 <= a < b < rest.len() implies rest[a].0 != rest[b].0 by {
            assert(rest[a] == vs[a]);
            assert(rest[b] == vs[b]);
        }
        assert(rest[i] == vs[i]);
        lemma_desired_target_at(rest, i);
    }
}

/// Saving the preferences keeps the general settings as they are.
pub proof fn lemma_saved_flags_kept(flags: PrefFlags, p: PrefsFile, c: Option<bool>)
    requires
        flags_of(p) == (PrefFlags {
            bitlocker_protection_on: match c {
                Some(b) => b,
                None => flags.bitlocker_protection_on,
            },
            ..flags
        }),
    ensures
        p.enable_tooltips == flags.enable_tooltips,
        p.auto_check_updates == flags.auto_check_updates,
        p.mouse_accel_enabled == flags.mouse_accel_enabled,
        p.numlock_enabled == flags.numlock_enabled,
        p.taskbar_search_enabled == flags.taskbar_search_enabled,
        p.taskbar_widgets_enabled == flags.taskbar_widgets_enabled,
        p.snap_enabled == flags.snap_enabled,
        p.sticky_enabled == flags.sticky_enabled,
        p.taskview_enabled == flags.taskview_enabled,
        p.verbose_logon_enabled == flags.verbose_logon_enabled,
        c is None ==> p.bitlocker_protection_on == flags.bitlocker_protection_on,
{
}

/// `"Protection On"`, the value of a status line of a protected volume.
pub open spec fn protection_on_word() -> Seq<char> {
    seq!['P', 'r', 'o', 't', 'e', 'c', 't', 'i', 'o', 'n', ' ', 'O', 'n']
}

/// `"Protection Off"`, the value of a status line of an unprotected volume.
pub open spec fn protection_off_word() -> Seq<char> {
    seq!['P', 'r', 'o', 't', 'e', 'c', 't', 'i', 'o', 'n', ' ', 'O', 'f', 'f']
}

/// A status line `Protection Status:` followed by spaces and its value decides
/// the status of the volume being read: `Protection Off` reads as off and
/// `Protection On` as on. The line's lower-cased form is what `str::to_lowercase`
/// makes of ASCII text (capitals to small letters, the rest kept).
pub proof fn lemma_status_value_decides(st: BdeState, raw: Seq<char>, pad: Seq<char>, on: bool)
    requires
        st.1 is Some,
        forall|i: int| 0 <= i < pad.len() ==> #[trigger] pad[i] == ' ',
        ltrim(rtrim(raw)) == status_label() + pad + (if on { protection_on_word() } else { protection_off_word() }),
        ascii_lowered(ltrim(rtrim(raw)), lowercase(ltrim(rtrim(raw)))),
    ensures
        bde_line(st, raw) == (st.0, Some(((st.1->0).0, Some(on), (st.1->0).2))),
{
    let t = ltrim(rtrim(raw));
    let w = if on { protection_on_word() } else { protection_off_word() };
    let low = lowercase(t);
    let b: int = 18 + pad.len() as int;
    assert(t.len() == b + w.len());
    assert(t[0] == 'P');
    assert(!has_prefix(t, volume_label())) by {
        if has_prefix(t, volume_label()) {
            assert(t.subrange(0, 7)[0] == volume_label()[0]);
        }
    }
    assert(t.subrange(0, 18) =~= status_label());
    // No `f` in the line, but for the last two letters of `Protection Off`.
    assert forall|i: int| 0 <= i < t.len() && (on || i < b + 12) implies #[trigger] t[i] != 'f' && t[i] != 'F' by {
        if i < 18 {
            assert(t[i] == status_label()[i]);
        } else if i < b {
            assert(t[i] == pad[i - 18]);
        } else {
            assert(t[i] == w[i - b]);
        }
    }
    // "on" of the value "Protection On" / "Protection Off" (the letters at 11, 12).
    assert(t[b + 11] == 'O');
    assert(t[b + 12] == if on { 'n' } else { 'f' });
    if on {
        assert(low[b + 11] as int == 'o' as int);
        assert(low[b + 12] as int == 'n' as int);
        assert(occurs_at(low, seq!['o', 'n'], b + 11)) by {
            assert(low.subrange(b + 11, b + 13) =~= seq!['o', 'n']);
        }
        assert(!has_sub(low, seq!['o', 'f', 'f'])) by {
            if has_sub(low, seq!['o', 'f', 'f']) {
                let k = choose|k: int| occurs_at(low, seq!['o', 'f', 'f'], k);
                assert(low.subrange(k, k + 3)[1] == 'f');
                assert(low[k + 1] == 'f');
                assert(t[k + 1] != 'f' && t[k + 1] != 'F');
            }
        }
    } else {
        assert(t[b + 13] == 'f');
        assert(low[b + 11] as int == 'o' as int);
        assert(low[b + 12] as int == 'f' as int);
        assert(low[b + 13] as int == 'f' as int);
        assert(occurs_at(low, seq!['o', 'f', 'f'], b + 11)) by {
            assert(low.subrange(b + 11, b + 14) =~= seq!['o', 'f', 'f']);
        }
    }
}

/// The volumes read from `manage-bde -status` are in order of their drives, and
/// they are the volumes read, none lost or added.
pub proof fn lemma_bde_volumes_sorted(out: Seq<char>)
    ensures
        forall|a: int, b: int| 0 <= a < b < bde_volumes(out).len() ==> seq_order(
            (#[trigger] bde_volumes(out)[a]).0,
            (#[trigger] bde_volumes(out)[b]).0,
        ) <= 0,
        bde_volumes(out).len() == bde_volumes_unsorted(out).len(),
        forall|v: VolumeModel| bde_volumes(out).contains(v) <==> bde_volumes_unsorted(out).contains(v),
{
    let vs = bde_volumes_unsorted(out);
    let ks = vs.map_values(|v: VolumeModel| v.0);
    let o = sort_idx(ks, vs.len() as int);
    crate::order::lemma_sort_idx_sorted(ks, vs.len() as int);
    let r = bde_volumes(out);
    assert(r == o.map_values(|j: int| vs[j]));
    assert forall|a: int, b: int| 0 <= a < b < r.len() implies seq_order((#[trigger] r[a]).0, (#[trigger] r[b]).0) <= 0 by {
        assert(o.contains(o[a]));
        assert(o.contains(o[b]));
        assert(ks[o[a]] == vs[o[a]].0);
        assert(ks[o[b]] == vs[o[b]].0);
    }
    assert forall|v: VolumeModel| r.contains(v) <==> vs.contains(v) by {
        if r.contains(v) {
            let k = choose|k: int| 0 <= k < r.len() && r[k] == v;
            assert(o.contains(o[k]));
        }
        if vs.contains(v) {
            let j = choose|j: int| 0 <= j < vs.len() && vs[j] == v;
            assert(o.contains(j));
            let k = choose|k: int| 0 <= k < o.len() && o[k] == j;
            assert(r[k] == v);
        }
    }
}

} // verus!
