//! Block devices as `lsblk` reports them, and the decisions taken on them:
//! which disks to offer, whether a disk already holds an installation, and
//! what to warn about before erasing it.
use vstd::prelude::*;
use vstd::string::*;

use crate::text::{
    has_prefix, lowercase, owned, str_eq, starts_with, trim_str, trimmed,
};
use crate::types::{Disk, DiskView};

verus! {

/// One entry of `lsblk -J` output; absent columns are `None`.
#[derive(Debug, PartialEq, Eq)]
pub struct BlockDevice {
    pub path: Option<String>,
    pub size: Option<String>,
    pub model: Option<String>,
    pub dev_type: Option<String>,
    pub rm: Option<bool>,
    pub ro: Option<bool>,
    pub partlabel: Option<String>,
    pub mountpoints: Option<Vec<Option<String>>>,
    pub children: Option<Vec<BlockDevice>>,
}

/// A yes/no column of `lsblk` JSON, which may be written as a JSON boolean,
/// a number or a string.
#[derive(Clone, Debug, PartialEq, Eq)]
pub enum JsonFlag {
    Absent,
    Null,
    Bool(bool),
    /// A number, with its value when it is a non-negative integer.
    Number(Option<u64>),
    Text(String),
    /// An array or object.
    Other,
}

/// The flag a [`JsonFlag`] stands for: no value for an absent or null column;
/// numbers other than zero, and the words `1`, `true`, `yes` (any case,
/// surrounding whitespace ignored) are yes; everything else is no.
pub open spec fn flag_value(f: JsonFlag) -> Option<bool> {
    match f {
        JsonFlag::Absent => None,
        JsonFlag::Null => None,
        JsonFlag::Bool(b) => Some(b),
        JsonFlag::Number(n) => Some(
            match n {
                Some(v) => v != 0,
                None => false,
            },
        ),
        JsonFlag::Text(s) => {
            let w = lowercase(trimmed(s@));
            Some(w == "1"@ || w == "true"@ || w == "yes"@)
        },
        JsonFlag::Other => Some(false),
    }
}

/// Reads a yes/no column of `lsblk` JSON.
pub fn interpret_boolish(f: &JsonFlag) -> (r: Option<bool>)
    ensures
        r == flag_value(*f),
{
    match f {
        JsonFlag::Absent => None,
        JsonFlag::Null => None,
        JsonFlag::Bool(b) => Some(*b),
        JsonFlag::Number(n) => Some(
            match n {
                Some(v) => *v != 0,
                None => false,
            },
        ),
        JsonFlag::Text(s) => {
            let w = crate::text::ascii_lowercase(trim_str(s.as_str()));
            Some(str_eq(w.as_str(), "1") || str_eq(w.as_str(), "true") || str_eq(w.as_str(), "yes"))
        },
        JsonFlag::Other => Some(false),
    }
}

/// The text of an optional column, empty when absent.
pub open spec fn text_or_empty(s: Option<String>) -> Seq<char> {
    match s {
        Some(v) => v@,
        None => Seq::empty(),
    }
}

/// A device is offered for installation when it is a whole disk that is
/// neither read-only nor removable and has a path.
pub open spec fn offered(d: BlockDevice) -> bool {
    &&& text_or_empty(d.dev_type) == "disk"@
    &&& !(d.ro == Some(true))
    &&& !(d.rm == Some(true))
    &&& text_or_empty(d.path).len() > 0
}

/// How an offered device is shown: `?` for an unknown size and
/// `(unknown model)` for a blank model.
pub open spec fn disk_entry(d: BlockDevice) -> DiskView {
    DiskView {
        path: text_or_empty(d.path),
        size: if text_or_empty(d.size).len() == 0 {
            "?"@
        } else {
            text_or_empty(d.size)
        },
        model: if trimmed(text_or_empty(d.model)).len() == 0 {
            "(unknown model)"@
        } else {
            trimmed(text_or_empty(d.model))
        },
    }
}

/// The disks offered among `ds`, in order.
pub open spec fn offered_disks(ds: Seq<BlockDevice>) -> Seq<DiskView>
    decreases ds.len(),
{
    if ds.len() == 0 {
        Seq::empty()
    } else {
        offered_disks(ds.drop_last()) + if offered(ds.last()) {
            seq![disk_entry(ds.last())]
        } else {
            Seq::empty()
        }
    }
}

/// The views of a list of disks.
pub open spec fn disk_views(ds: Seq<Disk>) -> Seq<DiskView> {
    ds.map_values(|d: Disk| d@)
}

fn opt_text(s: &Option<String>) -> (r: &str)
    ensures
        r@ == text_or_empty(*s),
{
    match s {
        Some(v) => v.as_str(),
        None => {
            proof {
                reveal_strlit("");
            }
            ""
        },
    }
}

/// The disks to offer among the devices `lsblk -d` listed.
pub fn load_disks(devices: &Vec<BlockDevice>) -> (r: Vec<Disk>)
    ensures
        disk_views(r@) == offered_disks(devices@),
{
    let mut out: Vec<Disk> = Vec::new();
    let mut i: usize = 0;
    while i < devices.len()
        invariant
            i <= devices@.len(),
            disk_views(out@) == offered_disks(devices@.take(i as int)),
        decreases devices@.len() - i,
    {
        let d = &devices[i];
        assert(devices@.take(i + 1).drop_last() =~= devices@.take(i as int));
        assert(devices@.take(i + 1).last() == *d);
        let is_disk = str_eq(opt_text(&d.dev_type), "disk");
        let ro = match d.ro {
            Some(b) => b,
            None => false,
        };
        let rm = match d.rm {
            Some(b) => b,
            None => false,
        };
        let path = opt_text(&d.path);
        if is_disk && !ro && !rm && path.unicode_len() > 0 {
            let size_text = opt_text(&d.size);
            let size = if size_text.unicode_len() == 0 {
                owned("?")
            } else {
                owned(size_text)
            };
            let model_text = trim_str(opt_text(&d.model));
            let model = if model_text.unicode_len() == 0 {
                owned("(unknown model)")
            } else {
                owned(model_text)
            };
            let disk = Disk { path: owned(path), size, model };
            let ghost before = out@;
            out.push(disk);
            assert(disk_views(out@) =~= disk_views(before) + seq![disk_entry(*d)]);
        } else {
            assert(!offered(*d));
            assert(offered_disks(devices@.take(i + 1)) =~= offered_disks(devices@.take(i as int)));
        }
        i = i + 1;
    }
    assert(devices@.take(devices@.len() as int) =~= devices@);
    out
}


/// The partition labels of a device and its descendants, the device's own
/// label first, then its children's in order.
pub open spec fn device_labels(d: BlockDevice) -> Seq<Seq<char>>
    decreases d,
{
    (match d.partlabel {
        Some(l) => seq![l@],
        None => Seq::empty(),
    }) + match d.children {
        Some(c) => labels_in(c@),
        None => Seq::empty(),
    }
}

/// The partition labels of a list of devices and their descendants, in
/// depth-first order.
pub open spec fn labels_in(ds: Seq<BlockDevice>) -> Seq<Seq<char>>
    decreases ds,
{
    if ds.len() == 0 {
        Seq::empty()
    } else {
        labels_in(ds.drop_last()) + device_labels(ds.last())
    }
}

/// The texts of a list of strings.
pub open spec fn text_views(v: Seq<String>) -> Seq<Seq<char>> {
    v.map_values(|s: String| s@)
}

/// Appends to `labels` the partition labels found under `devs`, depth first.
pub fn flatten_labels(devs: &Vec<BlockDevice>, labels: &mut Vec<String>)
    ensures
        text_views(final(labels)@) == text_views(old(labels)@) + labels_in(devs@),
    decreases devs@,
{
    let mut i: usize = 0;
    while i < devs.len()
        invariant
            i <= devs@.len(),
            text_views(labels@) == text_views(old(labels)@) + labels_in(devs@.take(i as int)),
        decreases devs@.len() - i,
    {
        let d = &devs[i];
        let ghost before = text_views(labels@);
        if let Some(label) = &d.partlabel {
            labels.push(label.clone());
            assert(text_views(labels@) =~= before + seq![label@]);
        }
        let ghost mid = text_views(labels@);
        if let Some(children) = &d.children {
            assert(decreases_to!(devs@ => devs@[i as int]));
            flatten_labels(children, labels);
        }
        proof {
            assert(devs@.take(i + 1).drop_last() =~= devs@.take(i as int));
            assert(devs@.take(i + 1).last() == *d);
            assert(text_views(labels@) =~= before + device_labels(*d));
        }
        i = i + 1;
    }
    assert(devs@.take(devs@.len() as int) =~= devs@);
}


/// Some mount point in the list is a non-empty path.
pub open spec fn has_mountpoint(mps: Seq<Option<String>>) -> bool {
    exists|j: int| 0 <= j < mps.len() && (#[trigger] mps[j] matches Some(v) && v@.len() > 0)
}

/// The device or one of its descendants is mounted.
pub open spec fn device_mounted(d: BlockDevice) -> bool
    decreases d,
{
    (d.mountpoints matches Some(m) && has_mountpoint(m@)) || (d.children matches Some(c)
        && any_mounted(c@))
}

/// One of the devices, or one of their descendants, is mounted.
pub open spec fn any_mounted(ds: Seq<BlockDevice>) -> bool
    decreases ds,
{
    ds.len() > 0 && (any_mounted(ds.drop_last()) || device_mounted(ds.last()))
}

proof fn lemma_any_mounted_prefix(ds: Seq<BlockDevice>, i: int)
    requires
        0 <= i <= ds.len(),
        any_mounted(ds.take(i)),
    ensures
        any_mounted(ds),
    decreases ds.len() - i,
{
    if i < ds.len() {
        assert(ds.take(i + 1).drop_last() =~= ds.take(i));
        lemma_any_mounted_prefix(ds, i + 1);
    } else {
        assert(ds.take(i) =~= ds);
    }
}

fn mountpoints_used(mps: &Vec<Option<String>>) -> (r: bool)
    ensures
        r == has_mountpoint(mps@),
{
    let mut j: usize = 0;
    while j < mps.len()
        invariant
            j <= mps@.len(),
            forall|k: int| 0 <= k < j ==> !(#[trigger] mps@[k] matches Some(v) && v@.len() > 0),
        decreases mps@.len() - j,
    {
        if let Some(v) = &mps[j] {
            if v.as_str().unicode_len() > 0 {
                return true;
            }
        }
        j = j + 1;
    }
    false
}

/// Sets `has_mounts` when some device under `devs` is mounted; never clears it.
pub fn flatten_mount_flags(devs: &Vec<BlockDevice>, has_mounts: &mut bool)
    ensures
        *final(has_mounts) == (*old(has_mounts) || any_mounted(devs@)),
    decreases devs@,
{
    let mut i: usize = 0;
    while i < devs.len()
        invariant
            i <= devs@.len(),
            *has_mounts == (*old(has_mounts) || any_mounted(devs@.take(i as int))),
        decreases devs@.len() - i,
    {
        let d = &devs[i];
        proof {
            assert(devs@.take(i + 1).drop_last() =~= devs@.take(i as int));
            assert(devs@.take(i + 1).last() == *d);
            assert(any_mounted(devs@.take(i + 1)) == (any_mounted(devs@.take(i as int))
                || device_mounted(*d)));
        }
        if let Some(mps) = &d.mountpoints {
            if mountpoints_used(mps) {
                *has_mounts = true;
                proof {
                    lemma_any_mounted_prefix(devs@, i + 1);
                }
                return;
            }
        }
        if let Some(children) = &d.children {
            assert(decreases_to!(devs@ => devs@[i as int]));
            flatten_mount_flags(children, has_mounts);
            if *has_mounts {
                proof {
                    if !*old(has_mounts) {
                        lemma_any_mounted_prefix(devs@, i + 1);
                    }
                }
                return;
            }
        }
        i = i + 1;
    }
    assert(devs@.take(devs@.len() as int) =~= devs@);
}


/// The pieces of `s` between newline characters; there is always at least one.
pub open spec fn segments(s: Seq<char>) -> Seq<Seq<char>>
    decreases s.len(),
{
    if s.len() == 0 {
        seq![Seq::empty()]
    } else if s.last() == '\n' {
        segments(s.drop_last()).push(Seq::empty())
    } else {
        let p = segments(s.drop_last());
        p.update(p.len() - 1, p.last().push(s.last()))
    }
}

/// A line without the carriage return that may end it.
pub open spec fn strip_cr(l: Seq<char>) -> Seq<char> {
    if l.len() > 0 && l.last() == '\r' {
        l.drop_last()
    } else {
        l
    }
}

/// The lines of `s` as `str::lines` yields them: split at newlines, without a
/// last empty piece, each without a final carriage return.
pub open spec fn text_lines(s: Seq<char>) -> Seq<Seq<char>> {
    let g = segments(s);
    let kept = if g.last().len() == 0 {
        g.drop_last()
    } else {
        g
    };
    kept.map_values(|l: Seq<char>| strip_cr(l))
}

/// A line of `zpool status` names the disk, or one of its partitions with a
/// `p` suffix, once surrounding whitespace is removed.
pub open spec fn names_disk(line: Seq<char>, disk: Seq<char>) -> bool {
    has_prefix(trimmed(line), disk) || has_prefix(trimmed(line), disk + "p"@)
}

/// Some line of the `zpool status` output names the disk.
pub open spec fn zpool_mentions(status: Seq<char>, disk: Seq<char>) -> bool {
    exists|k: int| 0 <= k < text_lines(status).len() && names_disk(#[trigger] text_lines(status)[k], disk)
}

proof fn lemma_segments_nonempty(s: Seq<char>)
    ensures
        segments(s).len() >= 1,
    decreases s.len(),
{
    if s.len() > 0 {
        lemma_segments_nonempty(s.drop_last());
    }
}

proof fn lemma_trim_start_push_ws(m: Seq<char>, c: char)
    requires
        crate::text::is_ws(c),
    ensures
        crate::text::trim_start(m.push(c)) == if crate::text::trim_start(m).len() == 0 {
            Seq::<char>::empty()
        } else {
            crate::text::trim_start(m).push(c)
        },
    decreases m.len(),
{
    if m.len() == 0 {
        assert(m.push(c).drop_first() =~= Seq::<char>::empty());
        assert(crate::text::trim_start(Seq::<char>::empty()) == Seq::<char>::empty());
        assert(m.push(c)[0] == c);
    } else {
        assert(m.push(c)[0] == m[0]);
        if crate::text::is_ws(m[0]) {
            assert(m.push(c).drop_first() =~= m.drop_first().push(c));
            lemma_trim_start_push_ws(m.drop_first(), c);
        } else {
            assert(crate::text::trim_start(m) == m);
            assert(crate::text::trim_start(m.push(c)) == m.push(c));
        }
    }
}

proof fn lemma_strip_cr_trim(l: Seq<char>)
    ensures
        trimmed(strip_cr(l)) == trimmed(l),
{
    if l.len() > 0 && l.last() == '\r' {
        let m = l.drop_last();
        assert(l =~= m.push('\r'));
        lemma_trim_start_push_ws(m, '\r');
        let t = crate::text::trim_start(m);
        if t.len() > 0 {
            assert(t.push('\r').drop_last() =~= t);
        }
    }
}

/// Whether the `zpool status` output names the disk (a line starting with
/// the disk path, or with the path and `p`, as NVMe partitions do).
pub fn zpool_uses_disk(zpool_status: &str, disk: &str) -> (r: bool)
    ensures
        r == zpool_mentions(zpool_status@, disk@),
{
    let mut disk_nvme = owned(disk);
    disk_nvme.append("p");
    let n = zpool_status.unicode_len();
    let ghost s = zpool_status@;
    let mut found = false;
    let mut cur: usize = 0;
    let mut i: usize = 0;
    assert(s.take(0) =~= Seq::<char>::empty());
    assert(s.subrange(0, 0) =~= Seq::<char>::empty());
    while i < n
        invariant
            n == s.len(),
            s == zpool_status@,
            disk_nvme@ == disk@ + "p"@,
            cur <= i <= n,
            segments(s.take(i as int)).len() >= 1,
            segments(s.take(i as int)).last() == s.subrange(cur as int, i as int),
            found == exists|k: int|
                0 <= k < segments(s.take(i as int)).len() - 1 && names_disk(
                    #[trigger] segments(s.take(i as int))[k],
                    disk@,
                ),
        decreases n - i,
    {
        let c = zpool_status.get_char(i);
        let ghost g = segments(s.take(i as int));
        assert(s.take(i + 1).drop_last() =~= s.take(i as int));
        assert(s.take(i + 1).last() == c);
        if c == '\n' {
            let line = trim_str(zpool_status.substring_char(cur, i));
            let hit = starts_with(line, disk) || starts_with(line, disk_nvme.as_str());
            let ghost g2 = segments(s.take(i + 1));
            assert(g2 == g.push(Seq::<char>::empty()));
            assert(hit == names_disk(g[g.len() - 1], disk@));
            assert(found || hit <==> exists|k: int|
                0 <= k < g2.len() - 1 && names_disk(#[trigger] g2[k], disk@)) by {
                if found || hit {
                    if !hit {
                        let k = choose|k: int| 0 <= k < g.len() - 1 && names_disk(#[trigger] g[k], disk@);
                        assert(g2[k] == g[k]);
                    } else {
                        assert(g2[g.len() - 1] == g[g.len() - 1]);
                    }
                }
                if exists|k: int| 0 <= k < g2.len() - 1 && names_disk(#[trigger] g2[k], disk@) {
                    let k = choose|k: int| 0 <= k < g2.len() - 1 && names_disk(#[trigger] g2[k], disk@);
                    assert(g2[k] == g[k]);
                }
            }
            found = found || hit;
            cur = i + 1;
            assert(s.subrange(cur as int, cur as int) =~= Seq::<char>::empty());
        } else {
            let ghost g2 = segments(s.take(i + 1));
            assert(g2 == g.update(g.len() - 1, g.last().push(c)));
            assert(s.subrange(cur as int, i + 1) =~= s.subrange(cur as int, i as int).push(c));
            assert forall|k: int| 0 <= k < g2.len() - 1 implies #[trigger] g2[k] == g[k] by {}
            assert(found == exists|k: int|
                0 <= k < g2.len() - 1 && names_disk(#[trigger] g2[k], disk@)) by {
                if found {
                    let k = choose|k: int| 0 <= k < g.len() - 1 && names_disk(#[trigger] g[k], disk@);
                    assert(g2[k] == g[k]);
                }
            }
        }
        i = i + 1;
    }
    assert(s.take(n as int) =~= s);
    let ghost g = segments(s);
    let mut result = found;
    if cur < n {
        let line = trim_str(zpool_status.substring_char(cur, n));
        let hit = starts_with(line, disk) || starts_with(line, disk_nvme.as_str());
        result = found || hit;
        assert(hit == names_disk(g.last(), disk@));
    }
    proof {
        let lines = text_lines(s);
        let kept = if g.last().len() == 0 {
            g.drop_last()
        } else {
            g
        };
        assert(lines == kept.map_values(|l: Seq<char>| strip_cr(l)));
        assert forall|k: int| 0 <= k < kept.len() implies names_disk(#[trigger] lines[k], disk@)
            == names_disk(kept[k], disk@) by {
            lemma_strip_cr_trim(kept[k]);
        }
        if result {
            if found {
                let k = choose|k: int| 0 <= k < g.len() - 1 && names_disk(#[trigger] g[k], disk@);
                assert(kept[k] == g[k]);
                assert(names_disk(lines[k], disk@));
            } else {
                assert(kept.len() == g.len());
                assert(names_disk(lines[g.len() - 1], disk@));
            }
        }
        if exists|k: int| 0 <= k < lines.len() && names_disk(#[trigger] lines[k], disk@) {
            let k = choose|k: int| 0 <= k < lines.len() && names_disk(#[trigger] lines[k], disk@);
            assert(names_disk(kept[k], disk@));
            if k < g.len() - 1 {
                assert(kept[k] == g[k]);
            } else {
                assert(g.last().len() > 0);
                assert(cur < n);
            }
        }
    }
    result
}


/// Some label is one the installer gives its partitions.
pub open spec fn has_install_label(labels: Seq<Seq<char>>) -> bool {
    labels.contains("NIXROOT"@) || labels.contains("NIXBOOT"@) || labels.contains("NIXSWAP"@)
}

/// A disk already holds an installation when a partition under it carries one
/// of the installer's labels, or when the `zroot` pool status (if the query
/// succeeded) names the disk.
pub open spec fn existing_configuration(
    devices: Seq<BlockDevice>,
    zpool_status: Option<Seq<char>>,
    disk: Seq<char>,
) -> bool {
    has_install_label(labels_in(devices)) || (zpool_status matches Some(t) && zpool_mentions(
        t,
        disk,
    ))
}

/// Whether the disk shows markers of an earlier installation. `devices` is
/// the `lsblk` tree of the disk; `zpool_status` the output of
/// `zpool status -P zroot` when that command succeeded.
pub fn has_existing_configuration(
    devices: &Vec<BlockDevice>,
    zpool_status: Option<&str>,
    disk: &str,
) -> (r: bool)
    ensures
        r == existing_configuration(
            devices@,
            match zpool_status {
                Some(t) => Some(t@),
                None => None,
            },
            disk@,
        ),
{
    let mut labels: Vec<String> = Vec::new();
    flatten_labels(devices, &mut labels);
    assert(text_views(labels@) =~= labels_in(devices@));
    let mut j: usize = 0;
    while j < labels.len()
        invariant
            j <= labels@.len(),
            text_views(labels@) == labels_in(devices@),
            forall|k: int|
                0 <= k < j ==> #[trigger] labels@[k]@ != "NIXROOT"@ && labels@[k]@ != "NIXBOOT"@
                    && labels@[k]@ != "NIXSWAP"@,
        decreases labels@.len() - j,
    {
        let l = labels[j].as_str();
        if str_eq(l, "NIXROOT") || str_eq(l, "NIXBOOT") || str_eq(l, "NIXSWAP") {
            assert(labels_in(devices@)[j as int] == labels@[j as int]@);
            return true;
        }
        j = j + 1;
    }
    assert(!has_install_label(labels_in(devices@))) by {
        let ls = labels_in(devices@);
        if ls.contains("NIXROOT"@) || ls.contains("NIXBOOT"@) || ls.contains("NIXSWAP"@) {
            let k = choose|k: int|
                0 <= k < ls.len() && (ls[k] == "NIXROOT"@ || ls[k] == "NIXBOOT"@ || ls[k]
                    == "NIXSWAP"@);
            assert(ls[k] == labels@[k]@);
        }
    }
    match zpool_status {
        Some(t) => zpool_uses_disk(t, disk),
        None => false,
    }
}

/// Whether the `zroot` pool must be asked about to tell if the disk holds an
/// earlier installation: only when no partition label has told already.
pub fn pool_status_needed(devices: &Vec<BlockDevice>) -> (r: bool)
    ensures
        r == !has_install_label(labels_in(devices@)),
        !r ==> forall|status: Option<Seq<char>>, disk: Seq<char>|
            #[trigger] existing_configuration(devices@, status, disk),
{
    !has_existing_configuration(devices, None, "")
}

/// The warnings shown before a disk is erased: that something on it is
/// mounted, and that it holds the running root file system.
pub open spec fn disk_warnings(devices: Seq<BlockDevice>, system_disk: bool) -> Seq<Seq<char>> {
    (if any_mounted(devices) {
        seq!["One or more partitions on this disk are mounted right now."@]
    } else {
        Seq::empty()
    }) + if system_disk {
        seq!["Selected disk appears to back the currently mounted root filesystem."@]
    } else {
        Seq::empty()
    }
}

/// The warnings for a disk, given its `lsblk` tree (with mount points) and
/// whether it backs the running root file system.
pub fn collect_disk_warnings(devices: &Vec<BlockDevice>, system_disk: bool) -> (r: Vec<String>)
    ensures
        text_views(r@) == disk_warnings(devices@, system_disk),
{
    let mut warnings: Vec<String> = Vec::new();
    let mut has_mounts = false;
    flatten_mount_flags(devices, &mut has_mounts);
    if has_mounts {
        warnings.push(owned("One or more partitions on this disk are mounted right now."));
    }
    if system_disk {
        warnings.push(owned("Selected disk appears to back the currently mounted root filesystem."));
    }
    assert(text_views(warnings@) =~= disk_warnings(devices@, system_disk));
    warnings
}

/// The source of the root mount from `findmnt -n -o SOURCE /`, when there is one.
pub fn root_source(findmnt_output: &str) -> (r: Option<String>)
    ensures
        match r {
            Some(s) => s@ == trimmed(findmnt_output@) && s@.len() > 0,
            None => trimmed(findmnt_output@).len() == 0,
        },
{
    let t = trim_str(findmnt_output);
    if t.unicode_len() == 0 {
        None
    } else {
        Some(owned(t))
    }
}

/// The disk backs the root file system when `lsblk -no PKNAME` of the root
/// source (if that command succeeded) names it: `/dev/` and the parent name.
pub open spec fn system_disk(parent_output: Option<Seq<char>>, disk: Seq<char>) -> bool {
    match parent_output {
        Some(p) => trimmed(p).len() > 0 && "/dev/"@ + trimmed(p) == disk,
        None => false,
    }
}

/// Whether the disk backs the running root file system, from the parent
/// device name `lsblk` gave for the root source.
pub fn is_probable_system_disk(parent_output: Option<&str>, disk: &str) -> (r: bool)
    ensures
        r == system_disk(
            match parent_output {
                Some(t) => Some(t@),
                None => None,
            },
            disk@,
        ),
{
    match parent_output {
        None => false,
        Some(p) => {
            let pk = trim_str(p);
            if pk.unicode_len() == 0 {
                return false;
            }
            let mut root_disk = owned("/dev/");
            root_disk.append(pk);
            str_eq(root_disk.as_str(), disk)
        },
    }
}

proof fn lemma_segments_join(a: Seq<char>, b: Seq<char>)
    ensures
        segments(a + seq!['\n'] + b) == segments(a) + segments(b),
    decreases b.len(),
{
    lemma_segments_nonempty(a);
    lemma_segments_nonempty(b);
    if b.len() == 0 {
        assert(a + seq!['\n'] + b =~= a.push('\n'));
        assert(a.push('\n').drop_last() =~= a);
        assert(segments(a) + segments(b) =~= segments(a).push(Seq::empty()));
    } else {
        let b2 = b.drop_last();
        let c = b.last();
        let x = a + seq!['\n'] + b2;
        lemma_segments_join(a, b2);
        lemma_segments_nonempty(b2);
        assert(a + seq!['\n'] + b =~= x.push(c));
        assert(x.push(c).drop_last() =~= x);
        if c == '\n' {
            assert(segments(a) + segments(b) =~= (segments(a) + segments(b2)).push(Seq::empty()));
        } else {
            let p = segments(b2);
            assert(segments(b) == p.update(p.len() - 1, p.last().push(c)));
            let q = segments(a) + p;
            assert(q.last() == p.last());
            assert(segments(a) + segments(b) =~= q.update(q.len() - 1, q.last().push(c)));
        }
    }
}

proof fn lemma_lines_from_segments(s: Seq<char>, k: int)
    requires
        0 <= k < text_lines(s).len(),
    ensures
        text_lines(s)[k] == strip_cr(segments(s)[k]),
        k < segments(s).len(),
        segments(s).last().len() == 0 ==> k < segments(s).len() - 1,
{
    lemma_segments_nonempty(s);
}

/// Text added before or after a `zpool status` output, on lines of its own,
/// never hides a line that names the disk; and an empty output names no disk.
pub proof fn lemma_zpool_lines_added(a: Seq<char>, b: Seq<char>, disk: Seq<char>)
    ensures
        zpool_mentions(a, disk) ==> zpool_mentions(a + "\n"@ + b, disk),
        zpool_mentions(a, disk) ==> zpool_mentions(b + "\n"@ + a, disk),
        !zpool_mentions(""@, disk),
{
    reveal_strlit("\n");
    reveal_strlit("");
    assert("\n"@ =~= seq!['\n']);
    assert(segments(Seq::<char>::empty()) == seq![Seq::<char>::empty()]);
    assert(text_lines(""@).len() == 0);
    if zpool_mentions(a, disk) {
        let k = choose|k: int| 0 <= k < text_lines(a).len() && names_disk(#[trigger] text_lines(a)[k], disk);
        lemma_lines_from_segments(a, k);
        lemma_segments_nonempty(a);
        lemma_segments_nonempty(b);
        lemma_segments_join(a, b);
        lemma_segments_join(b, a);
        let ab = a + "\n"@ + b;
        let ba = b + "\n"@ + a;
        assert(ab =~= a + seq!['\n'] + b);
        assert(ba =~= b + seq!['\n'] + a);
        let ga = segments(a);
        let gb = segments(b);
        assert(segments(ab)[k] == ga[k]);
        assert(k < text_lines(ab).len());
        assert(text_lines(ab)[k] == strip_cr(ga[k]));
        assert(names_disk(text_lines(ab)[k], disk));
        let j = gb.len() + k;
        assert(segments(ba)[j] == ga[k]);
        assert(segments(ba).last() == ga.last());
        assert(j < text_lines(ba).len());
        assert(text_lines(ba)[j] == strip_cr(ga[k]));
        assert(names_disk(text_lines(ba)[j], disk));
    }
}

} // verus!
