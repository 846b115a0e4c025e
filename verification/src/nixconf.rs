//! The NixOS configuration files the installer writes, and the escaping that
//! keeps user-entered values inside Nix string literals.
use vstd::prelude::*;
use vstd::string::*;

use crate::text::{owned, push_char};
use crate::types::InstallConfig;

verus! {

/// How one character is written inside a Nix double-quoted string.
pub open spec fn escape_char(c: char) -> Seq<char> {
    if c == '\\' {
        seq!['\\', '\\']
    } else if c == '"' {
        seq!['\\', '"']
    } else {
        seq![c]
    }
}

/// `s` with every backslash doubled and every double quote preceded by a backslash.
pub open spec fn nix_escaped(s: Seq<char>) -> Seq<char>
    decreases s.len(),
{
    if s.len() == 0 {
        Seq::empty()
    } else {
        escape_char(s[0]) + nix_escaped(s.drop_first())
    }
}

/// The character a Nix string escape `\c` stands for.
pub open spec fn unescape_char(c: char) -> char {
    if c == 'n' {
        '\n'
    } else if c == 'r' {
        '\r'
    } else if c == 't' {
        '\t'
    } else {
        c
    }
}

/// The text a Nix double-quoted string with body `t` denotes, or `None` where
/// `t` would end the string early (a bare `"`), start an interpolation (`${`),
/// or end inside an escape.
pub open spec fn nix_string_value(t: Seq<char>) -> Option<Seq<char>>
    decreases t.len(),
{
    if t.len() == 0 {
        Some(Seq::empty())
    } else if t[0] == '"' {
        None
    } else if t[0] == '\\' {
        if t.len() < 2 {
            None
        } else {
            match nix_string_value(t.skip(2)) {
                Some(rest) => Some(seq![unescape_char(t[1])] + rest),
                None => None,
            }
        }
    } else if t[0] == '$' && t.len() >= 2 && t[1] == '{' {
        None
    } else {
        match nix_string_value(t.drop_first()) {
            Some(rest) => Some(seq![t[0]] + rest),
            None => None,
        }
    }
}

/// `s` holds `$` directly followed by `{`.
pub open spec fn has_interpolation_start(s: Seq<char>) -> bool {
    exists|i: int| 0 <= i < s.len() - 1 && #[trigger] s[i] == '$' && s[i + 1] == '{'
}

proof fn lemma_escaped_concat(a: Seq<char>, b: Seq<char>)
    ensures
        nix_escaped(a + b) == nix_escaped(a) + nix_escaped(b),
    decreases a.len(),
{
    if a.len() == 0 {
        assert(a + b =~= b);
        assert(nix_escaped(a) + nix_escaped(b) =~= nix_escaped(b));
    } else {
        assert((a + b).drop_first() =~= a.drop_first() + b);
        lemma_escaped_concat(a.drop_first(), b);
        assert(nix_escaped(a + b) =~= escape_char(a[0]) + (nix_escaped(a.drop_first())
            + nix_escaped(b)));
    }
}

proof fn lemma_escaped_single(c: char)
    ensures
        nix_escaped(seq![c]) == escape_char(c),
{
    assert(seq![c].drop_first() =~= Seq::<char>::empty());
    assert(nix_escaped(Seq::<char>::empty()) == Seq::<char>::empty());
    assert(escape_char(c) + Seq::<char>::empty() =~= escape_char(c));
}

/// Reading an escaped value back as the body of a Nix string gives the value,
/// for every value without a `${` in it.
pub proof fn lemma_nix_escape_round_trip(s: Seq<char>)
    requires
        !has_interpolation_start(s),
    ensures
        nix_string_value(nix_escaped(s)) == Some(s),
    decreases s.len(),
{
    if s.len() == 0 {
        assert(nix_escaped(s) =~= Seq::<char>::empty());
    } else {
        let c = s[0];
        let rest = s.drop_first();
        assert(!has_interpolation_start(rest)) by {
            if has_interpolation_start(rest) {
                let i = choose|i: int| 0 <= i < rest.len() - 1 && #[trigger] rest[i] == '$' && rest[i + 1] == '{';
                assert(s[i + 1] == '$' && s[i + 2] == '{');
            }
        }
        lemma_nix_escape_round_trip(rest);
        let er = nix_escaped(rest);
        let t = nix_escaped(s);
        assert(t == escape_char(c) + er);
        if c == '\\' || c == '"' {
            assert(t.skip(2) =~= er);
            assert(t[0] == '\\');
            assert(seq![unescape_char(t[1])] + rest =~= s);
        } else {
            assert(t.drop_first() =~= er);
            if c == '$' && t.len() >= 2 {
                assert(t[1] == er[0]);
                assert(rest.len() > 0) by {
                    if rest.len() == 0 {
                        assert(er =~= Seq::<char>::empty());
                    }
                }
                assert(er[0] == escape_char(rest[0])[0]) by {
                    assert(er == escape_char(rest[0]) + nix_escaped(rest.drop_first()));
                }
                assert(s[0] == '$' && s[1] == rest[0]);
                assert(rest[0] != '{');
            }
            assert(seq![t[0]] + rest =~= s);
        }
    }
}

/// `value` prepared for a Nix double-quoted string: backslashes doubled and
/// double quotes escaped.
pub fn nix_escape(value: &str) -> (r: String)
    ensures
        r@ == nix_escaped(value@),
{
    let n = value.unicode_len();
    let mut out = String::new();
    let mut i: usize = 0;
    while i < n
        invariant
            n == value@.len(),
            i <= n,
            out@ == nix_escaped(value@.take(i as int)),
        decreases n - i,
    {
        let c = value.get_char(i);
        if c == '\\' {
            push_char(&mut out, '\\');
            push_char(&mut out, '\\');
        } else if c == '"' {
            push_char(&mut out, '\\');
            push_char(&mut out, '"');
        } else {
            push_char(&mut out, c);
        }
        proof {
            assert(value@.take(i + 1) =~= value@.take(i as int) + seq![c]);
            lemma_escaped_concat(value@.take(i as int), seq![c]);
            lemma_escaped_single(c);
            assert(out@ =~= nix_escaped(value@.take(i as int)) + escape_char(c));
        }
        i = i + 1;
    }
    assert(value@.take(n as int) =~= value@);
    out
}


/// The text of a yes/no option in Nix.
pub open spec fn nix_bool(b: bool) -> Seq<char> {
    if b {
        "true"@
    } else {
        "false"@
    }
}

/// The flakes line of the system module, empty when flakes stay off.
pub open spec fn flakes_line(enable: bool) -> Seq<char> {
    if enable {
        "  nix.settings.experimental-features = [ \"nix-command\" \"flakes\" ];\n"@
    } else {
        ""@
    }
}

/// The SSH line of the system module, empty when the SSH server stays off.
pub open spec fn ssh_line(enable: bool) -> Seq<char> {
    if enable {
        "  services.openssh.enable = true;\n"@
    } else {
        ""@
    }
}

/// The supplementary groups of the initial user: `wheel` when it may use sudo.
pub open spec fn user_groups(sudo: bool) -> Seq<char> {
    if sudo {
        "[ \"wheel\" ]"@
    } else {
        "[ ]"@
    }
}

/// The text of `zfs.nix`: boot loader, host id, ZFS support and the swap
/// partition with random encryption.
pub open spec fn zfs_module(host_id: Seq<char>, swap_partuuid: Seq<char>) -> Seq<char> {
    "{ config, pkgs, ... }:\n\n{\n  boot.loader.systemd-boot.enable = true;\n  boot.loader.efi.canTouchEfiVariables = true;\n  boot.loader.grub.enable = pkgs.lib.mkForce false;\n\n  networking.hostId = \""@
        + host_id
        + "\";\n  boot.supportedFilesystems = [ \"zfs\" ];\n  boot.zfs.devNodes = \"/dev/disk/by-partlabel\";\n\n  swapDevices = pkgs.lib.mkForce [ {\n    device = \"/dev/disk/by-partuuid/"@
        + swap_partuuid + "\";\n    randomEncryption.enable = true;\n  } ];\n}\n"@
}

/// The text of `system-setup.nix` for the given answers; every user-entered
/// value is escaped.
pub open spec fn setup_module(
    hostname: Seq<char>,
    timezone: Seq<char>,
    keyboard_layout: Seq<char>,
    username: Seq<char>,
    user_password: Seq<char>,
    root_password: Seq<char>,
    enable_flakes: bool,
    enable_sudo: bool,
    networkmanager: bool,
    git: bool,
    ssh: bool,
) -> Seq<char> {
    "{ config, pkgs, ... }:\n\n{\n  networking.hostName = \""@ + nix_escaped(hostname)
        + "\";\n  time.timeZone = \""@ + nix_escaped(timezone)
        + "\";\n  services.xserver.xkb.layout = \""@ + nix_escaped(keyboard_layout)
        + "\";\n  console.keyMap = \""@ + nix_escaped(keyboard_layout) + "\";\n"@
        + flakes_line(enable_flakes) + "  networking.networkmanager.enable = "@ + nix_bool(
        networkmanager,
    ) + ";\n  programs.git.enable = "@ + nix_bool(git) + ";\n"@ + ssh_line(ssh)
        + "\n  users.users.\""@ + nix_escaped(
        username,
    ) + "\" = {\n    isNormalUser = true;\n    extraGroups = "@ + user_groups(enable_sudo)
        + ";\n    initialPassword = \""@ + nix_escaped(user_password)
        + "\";\n  };\n\n  users.users.root.initialPassword = \""@ + nix_escaped(root_password)
        + "\";\n}\n"@
}

/// The text of `zfs.nix` for a host id and the swap partition's PARTUUID.
pub fn zfs_module_text(host_id: &str, swap_partuuid: &str) -> (r: String)
    ensures
        r@ == zfs_module(host_id@, swap_partuuid@),
{
    let mut s = owned(
        "{ config, pkgs, ... }:\n\n{\n  boot.loader.systemd-boot.enable = true;\n  boot.loader.efi.canTouchEfiVariables = true;\n  boot.loader.grub.enable = pkgs.lib.mkForce false;\n\n  networking.hostId = \"",
    );
    s.append(host_id);
    s.append(
        "\";\n  boot.supportedFilesystems = [ \"zfs\" ];\n  boot.zfs.devNodes = \"/dev/disk/by-partlabel\";\n\n  swapDevices = pkgs.lib.mkForce [ {\n    device = \"/dev/disk/by-partuuid/",
    );
    s.append(swap_partuuid);
    s.append("\";\n    randomEncryption.enable = true;\n  } ];\n}\n");
    s
}

fn bool_text(b: bool) -> (r: &'static str)
    ensures
        r@ == nix_bool(b),
{
    if b {
        "true"
    } else {
        "false"
    }
}

/// The text of `system-setup.nix` for a configuration.
pub fn setup_module_text(cfg: &InstallConfig) -> (r: String)
    ensures
        r@ == setup_module(
            cfg.hostname@,
            cfg.timezone@,
            cfg.keyboard_layout@,
            cfg.username@,
            cfg.user_password@,
            cfg.root_password@,
            cfg.enable_flakes,
            cfg.enable_sudo,
            cfg.install_networkmanager,
            cfg.enable_git,
            cfg.enable_ssh,
        ),
{
    let hostname = nix_escape(cfg.hostname.as_str());
    let timezone = nix_escape(cfg.timezone.as_str());
    let layout = nix_escape(cfg.keyboard_layout.as_str());
    let username = nix_escape(cfg.username.as_str());
    let user_password = nix_escape(cfg.user_password.as_str());
    let root_password = nix_escape(cfg.root_password.as_str());
    let flakes: &str = if cfg.enable_flakes {
        "  nix.settings.experimental-features = [ \"nix-command\" \"flakes\" ];\n"
    } else {
        ""
    };
    let groups: &str = if cfg.enable_sudo {
        "[ \"wheel\" ]"
    } else {
        "[ ]"
    };
    let mut s = owned("{ config, pkgs, ... }:\n\n{\n  networking.hostName = \"");
    s.append(hostname.as_str());
    s.append("\";\n  time.timeZone = \"");
    s.append(timezone.as_str());
    s.append("\";\n  services.xserver.xkb.layout = \"");
    s.append(layout.as_str());
    s.append("\";\n  console.keyMap = \"");
    s.append(layout.as_str());
    s.append("\";\n");
    s.append(flakes);
    s.append("  networking.networkmanager.enable = ");
    s.append(bool_text(cfg.install_networkmanager));
    s.append(";\n  programs.git.enable = ");
    s.append(bool_text(cfg.enable_git));
    s.append(";\n");
    if cfg.enable_ssh {
        s.append("  services.openssh.enable = true;\n");
    } else {
        proof {
            reveal_strlit("");
        }
    }
    s.append("\n  users.users.\"");
    s.append(username.as_str());
    s.append("\" = {\n    isNormalUser = true;\n    extraGroups = ");
    s.append(groups);
    s.append(";\n    initialPassword = \"");
    s.append(user_password.as_str());
    s.append("\";\n  };\n\n  users.users.root.initialPassword = \"");
    s.append(root_password.as_str());
    s.append("\";\n}\n");
    s
}


/// `p` occurs in `t` starting at index `i`.
pub open spec fn occurs_at(t: Seq<char>, p: Seq<char>, i: int) -> bool {
    0 <= i && i + p.len() <= t.len() && t.subrange(i, i + p.len()) == p
}

/// The first index at or after `i` where `p` occurs in `t`.
pub open spec fn find_from(t: Seq<char>, p: Seq<char>, i: nat) -> Option<nat>
    decreases t.len() + 1 - i,
{
    if i + p.len() > t.len() {
        None
    } else if occurs_at(t, p, i as int) {
        Some(i)
    } else {
        find_from(t, p, i + 1)
    }
}

/// Where `p` first occurs in `t`.
pub open spec fn first_occurrence(t: Seq<char>, p: Seq<char>) -> Option<nat> {
    find_from(t, p, 0)
}

/// The import the generated `configuration.nix` holds, after which the
/// installer's own modules are added.
pub open spec fn import_marker() -> Seq<char> {
    "./hardware-configuration.nix"@
}

/// What replaces the first occurrence of the import marker.
pub open spec fn import_replacement() -> Seq<char> {
    "./hardware-configuration.nix ./zfs.nix ./system-setup.nix"@
}

/// `configuration.nix` with the installer's modules added to its first import
/// of the hardware configuration; `None` when it has no such import.
pub open spec fn patched_configuration(t: Seq<char>) -> Option<Seq<char>> {
    match first_occurrence(t, import_marker()) {
        Some(k) => Some(t.take(k as int) + import_replacement() + t.skip((k + import_marker().len()) as int)),
        None => None,
    }
}

fn matches_at(t: &str, p: &str, i: usize) -> (r: bool)
    requires
        i + p@.len() <= t@.len(),
    ensures
        r == occurs_at(t@, p@, i as int),
{
    let n = t.unicode_len();
    let m = p.unicode_len();
    let mut k: usize = 0;
    while k < m
        invariant
            n == t@.len(),
            m == p@.len(),
            i + m <= n,
            k <= m,
            forall|j: int| 0 <= j < k ==> t@[i + j] == p@[j],
        decreases m - k,
    {
        if t.get_char(i + k) != p.get_char(k) {
            assert(t@.subrange(i as int, i + m)[k as int] != p@[k as int]);
            return false;
        }
        k = k + 1;
    }
    assert(t@.subrange(i as int, i + m) =~= p@);
    true
}

proof fn lemma_find_from_occurs(t: Seq<char>, p: Seq<char>, i: nat)
    ensures
        find_from(t, p, i) matches Some(k) ==> i <= k && occurs_at(t, p, k as int),
    decreases t.len() + 1 - i,
{
    if i + p.len() <= t.len() && !occurs_at(t, p, i as int) {
        lemma_find_from_occurs(t, p, i + 1);
    }
}

/// The index of the first occurrence of `p` in `t`.
pub fn find(t: &str, p: &str) -> (r: Option<usize>)
    ensures
        match r {
            Some(k) => first_occurrence(t@, p@) == Some(k as nat),
            None => first_occurrence(t@, p@) is None,
        },
{
    let n = t.unicode_len();
    let m = p.unicode_len();
    if m > n {
        return None;
    }
    if m == 0 {
        assert(t@.subrange(0, 0) =~= p@);
        return Some(0);
    }
    let mut i: usize = 0;
    while i <= n - m
        invariant
            n == t@.len(),
            m == p@.len(),
            0 < m <= n,
            i <= n - m + 1,
            first_occurrence(t@, p@) == find_from(t@, p@, i as nat),
        decreases n - i,
    {
        if matches_at(t, p, i) {
            return Some(i);
        }
        i = i + 1;
    }
    None
}

/// Adds `./zfs.nix` and `./system-setup.nix` to the first import of
/// `./hardware-configuration.nix`; `None` when there is no such import.
pub fn patch_configuration(text: &str) -> (r: Option<String>)
    ensures
        match r {
            Some(s) => patched_configuration(text@) == Some(s@),
            None => patched_configuration(text@) is None,
        },
{
    let marker = "./hardware-configuration.nix";
    match find(text, marker) {
        None => None,
        Some(k) => {
            let n = text.unicode_len();
            let m = marker.unicode_len();
            proof {
                lemma_find_from_occurs(text@, marker@, 0);
            }
            assert(k + m <= n);
            let mut s = owned(text.substring_char(0, k));
            s.append("./hardware-configuration.nix ./zfs.nix ./system-setup.nix");
            s.append(text.substring_char(k + m, n));
            assert(text@.subrange(0, k as int) =~= text@.take(k as int));
            assert(text@.subrange((k + m) as int, n as int) =~= text@.skip((k + m) as int));
            Some(s)
        },
    }
}

/// The hexadecimal digit, lower case, for a value below 16.
pub open spec fn hex_digit(n: int) -> char {
    if n < 10 {
        ('0' as int + n) as char
    } else {
        ('a' as int + n - 10) as char
    }
}

/// The bytes as lower-case hexadecimal, two digits per byte.
pub open spec fn hex_text(bytes: Seq<u8>) -> Seq<char>
    decreases bytes.len(),
{
    if bytes.len() == 0 {
        Seq::empty()
    } else {
        hex_text(bytes.drop_last()) + seq![
            hex_digit(bytes.last() as int / 16),
            hex_digit(bytes.last() as int % 16),
        ]
    }
}

/// A NixOS `networking.hostId`: eight lower-case hexadecimal digits.
pub open spec fn is_host_id(s: Seq<char>) -> bool {
    s.len() == 8 && forall|i: int|
        0 <= i < 8 ==> ('0' <= #[trigger] s[i] <= '9') || ('a' <= s[i] <= 'f')
}

fn hex_char(n: u8) -> (r: char)
    requires
        n < 16,
    ensures
        r == hex_digit(n as int),
{
    if n < 10 {
        (48u8 + n) as char
    } else {
        (97u8 + n - 10) as char
    }
}

proof fn lemma_hex_text_len(bytes: Seq<u8>)
    ensures
        hex_text(bytes).len() == 2 * bytes.len(),
        forall|i: int|
            0 <= i < hex_text(bytes).len() ==> ('0' <= #[trigger] hex_text(bytes)[i] <= '9') || (
            'a' <= hex_text(bytes)[i] <= 'f'),
    decreases bytes.len(),
{
    if bytes.len() > 0 {
        lemma_hex_text_len(bytes.drop_last());
    }
}

/// The host id spelled by four bytes.
pub fn host_id_from_bytes(bytes: [u8; 4]) -> (r: String)
    ensures
        r@ == hex_text(bytes@),
        is_host_id(r@),
{
    let mut s = String::new();
    let mut i: usize = 0;
    while i < 4
        invariant
            i <= 4,
            bytes@.len() == 4,
            s@ == hex_text(bytes@.take(i as int)),
        decreases 4 - i,
    {
        let b = bytes[i];
        push_char(&mut s, hex_char(b / 16));
        push_char(&mut s, hex_char(b % 16));
        assert(bytes@.take(i + 1).drop_last() =~= bytes@.take(i as int));
        i = i + 1;
    }
    assert(bytes@.take(4) =~= bytes@);
    proof {
        lemma_hex_text_len(bytes@);
    }
    s
}

/// Four bytes from `rand::rng()` (the thread-local generator) via `Rng::fill`.
/// Nothing is promised of their values.
#[verifier::external_body]
fn random_bytes() -> [u8; 4] {
    let mut bytes = [0u8; 4];
    rand::Rng::fill(&mut rand::rng(), &mut bytes);
    bytes
}

/// A fresh random host id.
pub fn random_host_id() -> (r: String)
    ensures
        is_host_id(r@),
{
    host_id_from_bytes(random_bytes())
}

/// The SSH answer decides the system module: with SSH the module enables
/// the OpenSSH server, and without it the text is otherwise the same but
/// lacks that line.
pub proof fn lemma_ssh_answer_configured(
    hostname: Seq<char>,
    timezone: Seq<char>,
    keyboard_layout: Seq<char>,
    username: Seq<char>,
    user_password: Seq<char>,
    root_password: Seq<char>,
    enable_flakes: bool,
    enable_sudo: bool,
    networkmanager: bool,
    git: bool,
)
    ensures
        setup_module(
            hostname,
            timezone,
            keyboard_layout,
            username,
            user_password,
            root_password,
            enable_flakes,
            enable_sudo,
            networkmanager,
            git,
            true,
        ).len() == setup_module(
            hostname,
            timezone,
            keyboard_layout,
            username,
            user_password,
            root_password,
            enable_flakes,
            enable_sudo,
            networkmanager,
            git,
            false,
        ).len() + "  services.openssh.enable = true;\n"@.len(),
        "  services.openssh.enable = true;\n"@.len() > 0,
{
    reveal_strlit("  services.openssh.enable = true;\n");
    reveal_strlit("");
}

/// `p` appears somewhere in `t`.
pub open spec fn contains_text(t: Seq<char>, p: Seq<char>) -> bool {
    exists|i: int| #[trigger] occurs_at(t, p, i)
}

proof fn lemma_contains_middle(a: Seq<char>, p: Seq<char>, b: Seq<char>)
    ensures
        contains_text(a + p + b, p),
{
    assert((a + p + b).subrange(a.len() as int, (a.len() + p.len()) as int) =~= p);
    assert(occurs_at(a + p + b, p, a.len() as int));
}

proof fn lemma_contains_extend(a: Seq<char>, b: Seq<char>, p: Seq<char>)
    requires
        contains_text(a, p),
    ensures
        contains_text(a + b, p),
{
    let i = choose|i: int| occurs_at(a, p, i);
    assert((a + b).subrange(i, i + p.len()) =~= a.subrange(i, i + p.len()));
    assert(occurs_at(a + b, p, i));
}

proof fn lemma_setup_flakes(
    hostname: Seq<char>,
    timezone: Seq<char>,
    keyboard_layout: Seq<char>,
    username: Seq<char>,
    user_password: Seq<char>,
    root_password: Seq<char>,
    enable_flakes: bool,
    enable_sudo: bool,
    networkmanager: bool,
    git: bool,
    ssh: bool,
)
    requires
        enable_flakes,
    ensures
        contains_text(setup_module(hostname, timezone, keyboard_layout, username, user_password, root_password, enable_flakes, enable_sudo, networkmanager, git, ssh), "  nix.settings.experimental-features = [ \"nix-command\" \"flakes\" ];\n"@),
{
    let t0 = "{ config, pkgs, ... }:\n\n{\n  networking.hostName = \""@;
    let t1 = t0 + nix_escaped(hostname);
    let t2 = t1 + "\";\n  time.timeZone = \""@;
    let t3 = t2 + nix_escaped(timezone);
    let t4 = t3 + "\";\n  services.xserver.xkb.layout = \""@;
    let t5 = t4 + nix_escaped(keyboard_layout);
    let t6 = t5 + "\";\n  console.keyMap = \""@;
    let t7 = t6 + nix_escaped(keyboard_layout);
    let t8 = t7 + "\";\n"@;
    let t9 = t8 + flakes_line(enable_flakes);
    let t10 = t9 + "  networking.networkmanager.enable = "@;
    let t11 = t10 + nix_bool(networkmanager);
    let t12 = t11 + ";\n  programs.git.enable = "@;
    let t13 = t12 + nix_bool(git);
    let t14 = t13 + ";\n"@;
    let t15 = t14 + ssh_line(ssh);
    let t16 = t15 + "\n  users.users.\""@;
    let t17 = t16 + nix_escaped(username);
    let t18 = t17 + "\" = {\n    isNormalUser = true;\n    extraGroups = "@;
    let t19 = t18 + user_groups(enable_sudo);
    let t20 = t19 + ";\n    initialPassword = \""@;
    let t21 = t20 + nix_escaped(user_password);
    let t22 = t21 + "\";\n  };\n\n  users.users.root.initialPassword = \""@;
    let t23 = t22 + nix_escaped(root_password);
    let t24 = t23 + "\";\n}\n"@;
    assert(t24 == setup_module(hostname, timezone, keyboard_layout, username, user_password, root_password, enable_flakes, enable_sudo, networkmanager, git, ssh));
    reveal_strlit("  nix.settings.experimental-features = [ \"nix-command\" \"flakes\" ];\n");
    reveal_strlit("");
    reveal_strlit("[ \"wheel\" ]");
    reveal_strlit("[ ]");
    reveal_strlit("false");
    reveal_strlit("true");
    assert(t9 =~= t8 + ("  nix.settings.experimental-features = [ \"nix-command\" \"flakes\" ];\n"@) + ""@);
    lemma_contains_middle(t8, "  nix.settings.experimental-features = [ \"nix-command\" \"flakes\" ];\n"@, ""@);
    lemma_contains_extend(t9, "  networking.networkmanager.enable = "@, "  nix.settings.experimental-features = [ \"nix-command\" \"flakes\" ];\n"@);
    lemma_contains_extend(t10, nix_bool(networkmanager), "  nix.settings.experimental-features = [ \"nix-command\" \"flakes\" ];\n"@);
    lemma_contains_extend(t11, ";\n  programs.git.enable = "@, "  nix.settings.experimental-features = [ \"nix-command\" \"flakes\" ];\n"@);
    lemma_contains_extend(t12, nix_bool(git), "  nix.settings.experimental-features = [ \"nix-command\" \"flakes\" ];\n"@);
    lemma_contains_extend(t13, ";\n"@, "  nix.settings.experimental-features = [ \"nix-command\" \"flakes\" ];\n"@);
    lemma_contains_extend(t14, ssh_line(ssh), "  nix.settings.experimental-features = [ \"nix-command\" \"flakes\" ];\n"@);
    lemma_contains_extend(t15, "\n  users.users.\""@, "  nix.settings.experimental-features = [ \"nix-command\" \"flakes\" ];\n"@);
    lemma_contains_extend(t16, nix_escaped(username), "  nix.settings.experimental-features = [ \"nix-command\" \"flakes\" ];\n"@);
    lemma_contains_extend(t17, "\" = {\n    isNormalUser = true;\n    extraGroups = "@, "  nix.settings.experimental-features = [ \"nix-command\" \"flakes\" ];\n"@);
    lemma_contains_extend(t18, user_groups(enable_sudo), "  nix.settings.experimental-features = [ \"nix-command\" \"flakes\" ];\n"@);
    lemma_contains_extend(t19, ";\n    initialPassword = \""@, "  nix.settings.experimental-features = [ \"nix-command\" \"flakes\" ];\n"@);
    lemma_contains_extend(t20, nix_escaped(user_password), "  nix.settings.experimental-features = [ \"nix-command\" \"flakes\" ];\n"@);
    lemma_contains_extend(t21, "\";\n  };\n\n  users.users.root.initialPassword = \""@, "  nix.settings.experimental-features = [ \"nix-command\" \"flakes\" ];\n"@);
    lemma_contains_extend(t22, nix_escaped(root_password), "  nix.settings.experimental-features = [ \"nix-command\" \"flakes\" ];\n"@);
    lemma_contains_extend(t23, "\";\n}\n"@, "  nix.settings.experimental-features = [ \"nix-command\" \"flakes\" ];\n"@);
}

proof fn lemma_setup_nm_on(
    hostname: Seq<char>,
    timezone: Seq<char>,
    keyboard_layout: Seq<char>,
    username: Seq<char>,
    user_password: Seq<char>,
    root_password: Seq<char>,
    enable_flakes: bool,
    enable_sudo: bool,
    networkmanager: bool,
    git: bool,
    ssh: bool,
)
    requires
        networkmanager,
    ensures
        contains_text(setup_module(hostname, timezone, keyboard_layout, username, user_password, root_password, enable_flakes, enable_sudo, networkmanager, git, ssh), "  networking.networkmanager.enable = true;\n"@),
{
    let t0 = "{ config, pkgs, ... }:\n\n{\n  networking.hostName = \""@;
    let t1 = t0 + nix_escaped(hostname);
    let t2 = t1 + "\";\n  time.timeZone = \""@;
    let t3 = t2 + nix_escaped(timezone);
    let t4 = t3 + "\";\n  services.xserver.xkb.layout = \""@;
    let t5 = t4 + nix_escaped(keyboard_layout);
    let t6 = t5 + "\";\n  console.keyMap = \""@;
    let t7 = t6 + nix_escaped(keyboard_layout);
    let t8 = t7 + "\";\n"@;
    let t9 = t8 + flakes_line(enable_flakes);
    let t10 = t9 + "  networking.networkmanager.enable = "@;
    let t11 = t10 + nix_bool(networkmanager);
    let t12 = t11 + ";\n  programs.git.enable = "@;
    let t13 = t12 + nix_bool(git);
    let t14 = t13 + ";\n"@;
    let t15 = t14 + ssh_line(ssh);
    let t16 = t15 + "\n  users.users.\""@;
    let t17 = t16 + nix_escaped(username);
    let t18 = t17 + "\" = {\n    isNormalUser = true;\n    extraGroups = "@;
    let t19 = t18 + user_groups(enable_sudo);
    let t20 = t19 + ";\n    initialPassword = \""@;
    let t21 = t20 + nix_escaped(user_password);
    let t22 = t21 + "\";\n  };\n\n  users.users.root.initialPassword = \""@;
    let t23 = t22 + nix_escaped(root_password);
    let t24 = t23 + "\";\n}\n"@;
    assert(t24 == setup_module(hostname, timezone, keyboard_layout, username, user_password, root_password, enable_flakes, enable_sudo, networkmanager, git, ssh));
    reveal_strlit("  networking.networkmanager.enable = ");
    reveal_strlit("  networking.networkmanager.enable = true;\n");
    reveal_strlit("  programs.git.enable = ");
    reveal_strlit(";\n  programs.git.enable = ");
    reveal_strlit("[ \"wheel\" ]");
    reveal_strlit("[ ]");
    reveal_strlit("false");
    reveal_strlit("true");
    assert(t12 =~= t9 + ("  networking.networkmanager.enable = true;\n"@) + "  programs.git.enable = "@);
    lemma_contains_middle(t9, "  networking.networkmanager.enable = true;\n"@, "  programs.git.enable = "@);
    lemma_contains_extend(t12, nix_bool(git), "  networking.networkmanager.enable = true;\n"@);
    lemma_contains_extend(t13, ";\n"@, "  networking.networkmanager.enable = true;\n"@);
    lemma_contains_extend(t14, ssh_line(ssh), "  networking.networkmanager.enable = true;\n"@);
    lemma_contains_extend(t15, "\n  users.users.\""@, "  networking.networkmanager.enable = true;\n"@);
    lemma_contains_extend(t16, nix_escaped(username), "  networking.networkmanager.enable = true;\n"@);
    lemma_contains_extend(t17, "\" = {\n    isNormalUser = true;\n    extraGroups = "@, "  networking.networkmanager.enable = true;\n"@);
    lemma_contains_extend(t18, user_groups(enable_sudo), "  networking.networkmanager.enable = true;\n"@);
    lemma_contains_extend(t19, ";\n    initialPassword = \""@, "  networking.networkmanager.enable = true;\n"@);
    lemma_contains_extend(t20, nix_escaped(user_password), "  networking.networkmanager.enable = true;\n"@);
    lemma_contains_extend(t21, "\";\n  };\n\n  users.users.root.initialPassword = \""@, "  networking.networkmanager.enable = true;\n"@);
    lemma_contains_extend(t22, nix_escaped(root_password), "  networking.networkmanager.enable = true;\n"@);
    lemma_contains_extend(t23, "\";\n}\n"@, "  networking.networkmanager.enable = true;\n"@);
}

proof fn lemma_setup_nm_off(
    hostname: Seq<char>,
    timezone: Seq<char>,
    keyboard_layout: Seq<char>,
    username: Seq<char>,
    user_password: Seq<char>,
    root_password: Seq<char>,
    enable_flakes: bool,
    enable_sudo: bool,
    networkmanager: bool,
    git: bool,
    ssh: bool,
)
    requires
        !networkmanager,
    ensures
        contains_text(setup_module(hostname, timezone, keyboard_layout, username, user_password, root_password, enable_flakes, enable_sudo, networkmanager, git, ssh), "  networking.networkmanager.enable = false;\n"@),
{
    let t0 = "{ config, pkgs, ... }:\n\n{\n  networking.hostName = \""@;
    let t1 = t0 + nix_escaped(hostname);
    let t2 = t1 + "\";\n  time.timeZone = \""@;
    let t3 = t2 + nix_escaped(timezone);
    let t4 = t3 + "\";\n  services.xserver.xkb.layout = \""@;
    let t5 = t4 + nix_escaped(keyboard_layout);
    let t6 = t5 + "\";\n  console.keyMap = \""@;
    let t7 = t6 + nix_escaped(keyboard_layout);
    let t8 = t7 + "\";\n"@;
    let t9 = t8 + flakes_line(enable_flakes);
    let t10 = t9 + "  networking.networkmanager.enable = "@;
    let t11 = t10 + nix_bool(networkmanager);
    let t12 = t11 + ";\n  programs.git.enable = "@;
    let t13 = t12 + nix_bool(git);
    let t14 = t13 + ";\n"@;
    let t15 = t14 + ssh_line(ssh);
    let t16 = t15 + "\n  users.users.\""@;
    let t17 = t16 + nix_escaped(username);
    let t18 = t17 + "\" = {\n    isNormalUser = true;\n    extraGroups = "@;
    let t19 = t18 + user_groups(enable_sudo);
    let t20 = t19 + ";\n    initialPassword = \""@;
    let t21 = t20 + nix_escaped(user_password);
    let t22 = t21 + "\";\n  };\n\n  users.users.root.initialPassword = \""@;
    let t23 = t22 + nix_escaped(root_password);
    let t24 = t23 + "\";\n}\n"@;
    assert(t24 == setup_module(hostname, timezone, keyboard_layout, username, user_password, root_password, enable_flakes, enable_sudo, networkmanager, git, ssh));
    reveal_strlit("  networking.networkmanager.enable = ");
    reveal_strlit("  networking.networkmanager.enable = false;\n");
    reveal_strlit("  programs.git.enable = ");
    reveal_strlit(";\n  programs.git.enable = ");
    reveal_strlit("[ \"wheel\" ]");
    reveal_strlit("[ ]");
    reveal_strlit("false");
    reveal_strlit("true");
    assert(t12 =~= t9 + ("  networking.networkmanager.enable = false;\n"@) + "  programs.git.enable = "@);
    lemma_contains_middle(t9, "  networking.networkmanager.enable = false;\n"@, "  programs.git.enable = "@);
    lemma_contains_extend(t12, nix_bool(git), "  networking.networkmanager.enable = false;\n"@);
    lemma_contains_extend(t13, ";\n"@, "  networking.networkmanager.enable = false;\n"@);
    lemma_contains_extend(t14, ssh_line(ssh), "  networking.networkmanager.enable = false;\n"@);
    lemma_contains_extend(t15, "\n  users.users.\""@, "  networking.networkmanager.enable = false;\n"@);
    lemma_contains_extend(t16, nix_escaped(username), "  networking.networkmanager.enable = false;\n"@);
    lemma_contains_extend(t17, "\" = {\n    isNormalUser = true;\n    extraGroups = "@, "  networking.networkmanager.enable = false;\n"@);
    lemma_contains_extend(t18, user_groups(enable_sudo), "  networking.networkmanager.enable = false;\n"@);
    lemma_contains_extend(t19, ";\n    initialPassword = \""@, "  networking.networkmanager.enable = false;\n"@);
    lemma_contains_extend(t20, nix_escaped(user_password), "  networking.networkmanager.enable = false;\n"@);
    lemma_contains_extend(t21, "\";\n  };\n\n  users.users.root.initialPassword = \""@, "  networking.networkmanager.enable = false;\n"@);
    lemma_contains_extend(t22, nix_escaped(root_password), "  networking.networkmanager.enable = false;\n"@);
    lemma_contains_extend(t23, "\";\n}\n"@, "  networking.networkmanager.enable = false;\n"@);
}

proof fn lemma_setup_git_on(
    hostname: Seq<char>,
    timezone: Seq<char>,
    keyboard_layout: Seq<char>,
    username: Seq<char>,
    user_password: Seq<char>,
    root_password: Seq<char>,
    enable_flakes: bool,
    enable_sudo: bool,
    networkmanager: bool,
    git: bool,
    ssh: bool,
)
    requires
        git,
    ensures
        contains_text(setup_module(hostname, timezone, keyboard_layout, username, user_password, root_password, enable_flakes, enable_sudo, networkmanager, git, ssh), "  programs.git.enable = true;\n"@),
{
    let t0 = "{ config, pkgs, ... }:\n\n{\n  networking.hostName = \""@;
    let t1 = t0 + nix_escaped(hostname);
    let t2 = t1 + "\";\n  time.timeZone = \""@;
    let t3 = t2 + nix_escaped(timezone);
    let t4 = t3 + "\";\n  services.xserver.xkb.layout = \""@;
    let t5 = t4 + nix_escaped(keyboard_layout);
    let t6 = t5 + "\";\n  console.keyMap = \""@;
    let t7 = t6 + nix_escaped(keyboard_layout);
    let t8 = t7 + "\";\n"@;
    let t9 = t8 + flakes_line(enable_flakes);
    let t10 = t9 + "  networking.networkmanager.enable = "@;
    let t11 = t10 + nix_bool(networkmanager);
    let t12 = t11 + ";\n  programs.git.enable = "@;
    let t13 = t12 + nix_bool(git);
    let t14 = t13 + ";\n"@;
    let t15 = t14 + ssh_line(ssh);
    let t16 = t15 + "\n  users.users.\""@;
    let t17 = t16 + nix_escaped(username);
    let t18 = t17 + "\" = {\n    isNormalUser = true;\n    extraGroups = "@;
    let t19 = t18 + user_groups(enable_sudo);
    let t20 = t19 + ";\n    initialPassword = \""@;
    let t21 = t20 + nix_escaped(user_password);
    let t22 = t21 + "\";\n  };\n\n  users.users.root.initialPassword = \""@;
    let t23 = t22 + nix_escaped(root_password);
    let t24 = t23 + "\";\n}\n"@;
    assert(t24 == setup_module(hostname, timezone, keyboard_layout, username, user_password, root_password, enable_flakes, enable_sudo, networkmanager, git, ssh));
    reveal_strlit("  programs.git.enable = true;\n");
    reveal_strlit("");
    reveal_strlit(";\n  programs.git.enable = ");
    reveal_strlit(";\n");
    reveal_strlit("[ \"wheel\" ]");
    reveal_strlit("[ ]");
    reveal_strlit("false");
    reveal_strlit("true");
    assert(t14 =~= t11 + ";\n"@ + ("  programs.git.enable = true;\n"@) + ""@);
    lemma_contains_middle(t11 + ";\n"@, "  programs.git.enable = true;\n"@, ""@);
    lemma_contains_extend(t14, ssh_line(ssh), "  programs.git.enable = true;\n"@);
    lemma_contains_extend(t15, "\n  users.users.\""@, "  programs.git.enable = true;\n"@);
    lemma_contains_extend(t16, nix_escaped(username), "  programs.git.enable = true;\n"@);
    lemma_contains_extend(t17, "\" = {\n    isNormalUser = true;\n    extraGroups = "@, "  programs.git.enable = true;\n"@);
    lemma_contains_extend(t18, user_groups(enable_sudo), "  programs.git.enable = true;\n"@);
    lemma_contains_extend(t19, ";\n    initialPassword = \""@, "  programs.git.enable = true;\n"@);
    lemma_contains_extend(t20, nix_escaped(user_password), "  programs.git.enable = true;\n"@);
    lemma_contains_extend(t21, "\";\n  };\n\n  users.users.root.initialPassword = \""@, "  programs.git.enable = true;\n"@);
    lemma_contains_extend(t22, nix_escaped(root_password), "  programs.git.enable = true;\n"@);
    lemma_contains_extend(t23, "\";\n}\n"@, "  programs.git.enable = true;\n"@);
}

proof fn lemma_setup_git_off(
    hostname: Seq<char>,
    timezone: Seq<char>,
    keyboard_layout: Seq<char>,
    username: Seq<char>,
    user_password: Seq<char>,
    root_password: Seq<char>,
    enable_flakes: bool,
    enable_sudo: bool,
    networkmanager: bool,
    git: bool,
    ssh: bool,
)
    requires
        !git,
    ensures
        contains_text(setup_module(hostname, timezone, keyboard_layout, username, user_password, root_password, enable_flakes, enable_sudo, networkmanager, git, ssh), "  programs.git.enable = false;\n"@),
{
    let t0 = "{ config, pkgs, ... }:\n\n{\n  networking.hostName = \""@;
    let t1 = t0 + nix_escaped(hostname);
    let t2 = t1 + "\";\n  time.timeZone = \""@;
    let t3 = t2 + nix_escaped(timezone);
    let t4 = t3 + "\";\n  services.xserver.xkb.layout = \""@;
    let t5 = t4 + nix_escaped(keyboard_layout);
    let t6 = t5 + "\";\n  console.keyMap = \""@;
    let t7 = t6 + nix_escaped(keyboard_layout);
    let t8 = t7 + "\";\n"@;
    let t9 = t8 + flakes_line(enable_flakes);
    let t10 = t9 + "  networking.networkmanager.enable = "@;
    let t11 = t10 + nix_bool(networkmanager);
    let t12 = t11 + ";\n  programs.git.enable = "@;
    let t13 = t12 + nix_bool(git);
    let t14 = t13 + ";\n"@;
    let t15 = t14 + ssh_line(ssh);
    let t16 = t15 + "\n  users.users.\""@;
    let t17 = t16 + nix_escaped(username);
    let t18 = t17 + "\" = {\n    isNormalUser = true;\n    extraGroups = "@;
    let t19 = t18 + user_groups(enable_sudo);
    let t20 = t19 + ";\n    initialPassword = \""@;
    let t21 = t20 + nix_escaped(user_password);
    let t22 = t21 + "\";\n  };\n\n  users.users.root.initialPassword = \""@;
    let t23 = t22 + nix_escaped(root_password);
    let t24 = t23 + "\";\n}\n"@;
    assert(t24 == setup_module(hostname, timezone, keyboard_layout, username, user_password, root_password, enable_flakes, enable_sudo, networkmanager, git, ssh));
    reveal_strlit("  programs.git.enable = false;\n");
    reveal_strlit("");
    reveal_strlit(";\n  programs.git.enable = ");
    reveal_strlit(";\n");
    reveal_strlit("[ \"wheel\" ]");
    reveal_strlit("[ ]");
    reveal_strlit("false");
    reveal_strlit("true");
    assert(t14 =~= t11 + ";\n"@ + ("  programs.git.enable = false;\n"@) + ""@);
    lemma_contains_middle(t11 + ";\n"@, "  programs.git.enable = false;\n"@, ""@);
    lemma_contains_extend(t14, ssh_line(ssh), "  programs.git.enable = false;\n"@);
    lemma_contains_extend(t15, "\n  users.users.\""@, "  programs.git.enable = false;\n"@);
    lemma_contains_extend(t16, nix_escaped(username), "  programs.git.enable = false;\n"@);
    lemma_contains_extend(t17, "\" = {\n    isNormalUser = true;\n    extraGroups = "@, "  programs.git.enable = false;\n"@);
    lemma_contains_extend(t18, user_groups(enable_sudo), "  programs.git.enable = false;\n"@);
    lemma_contains_extend(t19, ";\n    initialPassword = \""@, "  programs.git.enable = false;\n"@);
    lemma_contains_extend(t20, nix_escaped(user_password), "  programs.git.enable = false;\n"@);
    lemma_contains_extend(t21, "\";\n  };\n\n  users.users.root.initialPassword = \""@, "  programs.git.enable = false;\n"@);
    lemma_contains_extend(t22, nix_escaped(root_password), "  programs.git.enable = false;\n"@);
    lemma_contains_extend(t23, "\";\n}\n"@, "  programs.git.enable = false;\n"@);
}

proof fn lemma_setup_ssh(
    hostname: Seq<char>,
    timezone: Seq<char>,
    keyboard_layout: Seq<char>,
    username: Seq<char>,
    user_password: Seq<char>,
    root_password: Seq<char>,
    enable_flakes: bool,
    enable_sudo: bool,
    networkmanager: bool,
    git: bool,
    ssh: bool,
)
    requires
        ssh,
    ensures
        contains_text(setup_module(hostname, timezone, keyboard_layout, username, user_password, root_password, enable_flakes, enable_sudo, networkmanager, git, ssh), "  services.openssh.enable = true;\n"@),
{
    let t0 = "{ config, pkgs, ... }:\n\n{\n  networking.hostName = \""@;
    let t1 = t0 + nix_escaped(hostname);
    let t2 = t1 + "\";\n  time.timeZone = \""@;
    let t3 = t2 + nix_escaped(timezone);
    let t4 = t3 + "\";\n  services.xserver.xkb.layout = \""@;
    let t5 = t4 + nix_escaped(keyboard_layout);
    let t6 = t5 + "\";\n  console.keyMap = \""@;
    let t7 = t6 + nix_escaped(keyboard_layout);
    let t8 = t7 + "\";\n"@;
    let t9 = t8 + flakes_line(enable_flakes);
    let t10 = t9 + "  networking.networkmanager.enable = "@;
    let t11 = t10 + nix_bool(networkmanager);
    let t12 = t11 + ";\n  programs.git.enable = "@;
    let t13 = t12 + nix_bool(git);
    let t14 = t13 + ";\n"@;
    let t15 = t14 + ssh_line(ssh);
    let t16 = t15 + "\n  users.users.\""@;
    let t17 = t16 + nix_escaped(username);
    let t18 = t17 + "\" = {\n    isNormalUser = true;\n    extraGroups = "@;
    let t19 = t18 + user_groups(enable_sudo);
    let t20 = t19 + ";\n    initialPassword = \""@;
    let t21 = t20 + nix_escaped(user_password);
    let t22 = t21 + "\";\n  };\n\n  users.users.root.initialPassword = \""@;
    let t23 = t22 + nix_escaped(root_password);
    let t24 = t23 + "\";\n}\n"@;
    assert(t24 == setup_module(hostname, timezone, keyboard_layout, username, user_password, root_password, enable_flakes, enable_sudo, networkmanager, git, ssh));
    reveal_strlit("  services.openssh.enable = true;\n");
    reveal_strlit("");
    reveal_strlit("[ \"wheel\" ]");
    reveal_strlit("[ ]");
    reveal_strlit("false");
    reveal_strlit("true");
    assert(t15 =~= t14 + ("  services.openssh.enable = true;\n"@) + ""@);
    lemma_contains_middle(t14, "  services.openssh.enable = true;\n"@, ""@);
    lemma_contains_extend(t15, "\n  users.users.\""@, "  services.openssh.enable = true;\n"@);
    lemma_contains_extend(t16, nix_escaped(username), "  services.openssh.enable = true;\n"@);
    lemma_contains_extend(t17, "\" = {\n    isNormalUser = true;\n    extraGroups = "@, "  services.openssh.enable = true;\n"@);
    lemma_contains_extend(t18, user_groups(enable_sudo), "  services.openssh.enable = true;\n"@);
    lemma_contains_extend(t19, ";\n    initialPassword = \""@, "  services.openssh.enable = true;\n"@);
    lemma_contains_extend(t20, nix_escaped(user_password), "  services.openssh.enable = true;\n"@);
    lemma_contains_extend(t21, "\";\n  };\n\n  users.users.root.initialPassword = \""@, "  services.openssh.enable = true;\n"@);
    lemma_contains_extend(t22, nix_escaped(root_password), "  services.openssh.enable = true;\n"@);
    lemma_contains_extend(t23, "\";\n}\n"@, "  services.openssh.enable = true;\n"@);
}

proof fn lemma_setup_sudo_on(
    hostname: Seq<char>,
    timezone: Seq<char>,
    keyboard_layout: Seq<char>,
    username: Seq<char>,
    user_password: Seq<char>,
    root_password: Seq<char>,
    enable_flakes: bool,
    enable_sudo: bool,
    networkmanager: bool,
    git: bool,
    ssh: bool,
)
    requires
        enable_sudo,
    ensures
        contains_text(setup_module(hostname, timezone, keyboard_layout, username, user_password, root_password, enable_flakes, enable_sudo, networkmanager, git, ssh), "    extraGroups = [ \"wheel\" ];\n"@),
{
    let t0 = "{ config, pkgs, ... }:\n\n{\n  networking.hostName = \""@;
    let t1 = t0 + nix_escaped(hostname);
    let t2 = t1 + "\";\n  time.timeZone = \""@;
    let t3 = t2 + nix_escaped(timezone);
    let t4 = t3 + "\";\n  services.xserver.xkb.layout = \""@;
    let t5 = t4 + nix_escaped(keyboard_layout);
    let t6 = t5 + "\";\n  console.keyMap = \""@;
    let t7 = t6 + nix_escaped(keyboard_layout);
    let t8 = t7 + "\";\n"@;
    let t9 = t8 + flakes_line(enable_flakes);
    let t10 = t9 + "  networking.networkmanager.enable = "@;
    let t11 = t10 + nix_bool(networkmanager);
    let t12 = t11 + ";\n  programs.git.enable = "@;
    let t13 = t12 + nix_bool(git);
    let t14 = t13 + ";\n"@;
    let t15 = t14 + ssh_line(ssh);
    let t16 = t15 + "\n  users.users.\""@;
    let t17 = t16 + nix_escaped(username);
    let t18 = t17 + "\" = {\n    isNormalUser = true;\n    extraGroups = "@;
    let t19 = t18 + user_groups(enable_sudo);
    let t20 = t19 + ";\n    initialPassword = \""@;
    let t21 = t20 + nix_escaped(user_password);
    let t22 = t21 + "\";\n  };\n\n  users.users.root.initialPassword = \""@;
    let t23 = t22 + nix_escaped(root_password);
    let t24 = t23 + "\";\n}\n"@;
    assert(t24 == setup_module(hostname, timezone, keyboard_layout, username, user_password, root_password, enable_flakes, enable_sudo, networkmanager, git, ssh));
    reveal_strlit("    extraGroups = [ \"wheel\" ];\n");
    reveal_strlit("    initialPassword = \"");
    reveal_strlit(";\n    initialPassword = \"");
    reveal_strlit("[ \"wheel\" ]");
    reveal_strlit("[ ]");
    reveal_strlit("\" = {\n    isNormalUser = true;\n    extraGroups = ");
    reveal_strlit("\" = {\n    isNormalUser = true;\n");
    reveal_strlit("false");
    reveal_strlit("true");
    assert(t20 =~= t17 + "\" = {\n    isNormalUser = true;\n"@ + ("    extraGroups = [ \"wheel\" ];\n"@) + "    initialPassword = \""@);
    lemma_contains_middle(t17 + "\" = {\n    isNormalUser = true;\n"@, "    extraGroups = [ \"wheel\" ];\n"@, "    initialPassword = \""@);
    lemma_contains_extend(t20, nix_escaped(user_password), "    extraGroups = [ \"wheel\" ];\n"@);
    lemma_contains_extend(t21, "\";\n  };\n\n  users.users.root.initialPassword = \""@, "    extraGroups = [ \"wheel\" ];\n"@);
    lemma_contains_extend(t22, nix_escaped(root_password), "    extraGroups = [ \"wheel\" ];\n"@);
    lemma_contains_extend(t23, "\";\n}\n"@, "    extraGroups = [ \"wheel\" ];\n"@);
}

proof fn lemma_setup_sudo_off(
    hostname: Seq<char>,
    timezone: Seq<char>,
    keyboard_layout: Seq<char>,
    username: Seq<char>,
    user_password: Seq<char>,
    root_password: Seq<char>,
    enable_flakes: bool,
    enable_sudo: bool,
    networkmanager: bool,
    git: bool,
    ssh: bool,
)
    requires
        !enable_sudo,
    ensures
        contains_text(setup_module(hostname, timezone, keyboard_layout, username, user_password, root_password, enable_flakes, enable_sudo, networkmanager, git, ssh), "    extraGroups = [ ];\n"@),
{
    let t0 = "{ config, pkgs, ... }:\n\n{\n  networking.hostName = \""@;
    let t1 = t0 + nix_escaped(hostname);
    let t2 = t1 + "\";\n  time.timeZone = \""@;
    let t3 = t2 + nix_escaped(timezone);
    let t4 = t3 + "\";\n  services.xserver.xkb.layout = \""@;
    let t5 = t4 + nix_escaped(keyboard_layout);
    let t6 = t5 + "\";\n  console.keyMap = \""@;
    let t7 = t6 + nix_escaped(keyboard_layout);
    let t8 = t7 + "\";\n"@;
    let t9 = t8 + flakes_line(enable_flakes);
    let t10 = t9 + "  networking.networkmanager.enable = "@;
    let t11 = t10 + nix_bool(networkmanager);
    let t12 = t11 + ";\n  programs.git.enable = "@;
    let t13 = t12 + nix_bool(git);
    let t14 = t13 + ";\n"@;
    let t15 = t14 + ssh_line(ssh);
    let t16 = t15 + "\n  users.users.\""@;
    let t17 = t16 + nix_escaped(username);
    let t18 = t17 + "\" = {\n    isNormalUser = true;\n    extraGroups = "@;
    let t19 = t18 + user_groups(enable_sudo);
    let t20 = t19 + ";\n    initialPassword = \""@;
    let t21 = t20 + nix_escaped(user_password);
    let t22 = t21 + "\";\n  };\n\n  users.users.root.initialPassword = \""@;
    let t23 = t22 + nix_escaped(root_password);
    let t24 = t23 + "\";\n}\n"@;
    assert(t24 == setup_module(hostname, timezone, keyboard_layout, username, user_password, root_password, enable_flakes, enable_sudo, networkmanager, git, ssh));
    reveal_strlit("    extraGroups = [ ];\n");
    reveal_strlit("    initialPassword = \"");
    reveal_strlit(";\n    initialPassword = \"");
    reveal_strlit("[ \"wheel\" ]");
    reveal_strlit("[ ]");
    reveal_strlit("\" = {\n    isNormalUser = true;\n    extraGroups = ");
    reveal_strlit("\" = {\n    isNormalUser = true;\n");
    reveal_strlit("false");
    reveal_strlit("true");
    assert(t20 =~= t17 + "\" = {\n    isNormalUser = true;\n"@ + ("    extraGroups = [ ];\n"@) + "    initialPassword = \""@);
    lemma_contains_middle(t17 + "\" = {\n    isNormalUser = true;\n"@, "    extraGroups = [ ];\n"@, "    initialPassword = \""@);
    lemma_contains_extend(t20, nix_escaped(user_password), "    extraGroups = [ ];\n"@);
    lemma_contains_extend(t21, "\";\n  };\n\n  users.users.root.initialPassword = \""@, "    extraGroups = [ ];\n"@);
    lemma_contains_extend(t22, nix_escaped(root_password), "    extraGroups = [ ];\n"@);
    lemma_contains_extend(t23, "\";\n}\n"@, "    extraGroups = [ ];\n"@);
}

proof fn lemma_setup_hostname(
    hostname: Seq<char>,
    timezone: Seq<char>,
    keyboard_layout: Seq<char>,
    username: Seq<char>,
    user_password: Seq<char>,
    root_password: Seq<char>,
    enable_flakes: bool,
    enable_sudo: bool,
    networkmanager: bool,
    git: bool,
    ssh: bool,
)
    ensures
        contains_text(setup_module(hostname, timezone, keyboard_layout, username, user_password, root_password, enable_flakes, enable_sudo, networkmanager, git, ssh), "  networking.hostName = \""@ + nix_escaped(hostname) + "\";\n"@),
{
    let t0 = "{ config, pkgs, ... }:\n\n{\n  networking.hostName = \""@;
    let t1 = t0 + nix_escaped(hostname);
    let t2 = t1 + "\";\n  time.timeZone = \""@;
    let t3 = t2 + nix_escaped(timezone);
    let t4 = t3 + "\";\n  services.xserver.xkb.layout = \""@;
    let t5 = t4 + nix_escaped(keyboard_layout);
    let t6 = t5 + "\";\n  console.keyMap = \""@;
    let t7 = t6 + nix_escaped(keyboard_layout);
    let t8 = t7 + "\";\n"@;
    let t9 = t8 + flakes_line(enable_flakes);
    let t10 = t9 + "  networking.networkmanager.enable = "@;
    let t11 = t10 + nix_bool(networkmanager);
    let t12 = t11 + ";\n  programs.git.enable = "@;
    let t13 = t12 + nix_bool(git);
    let t14 = t13 + ";\n"@;
    let t15 = t14 + ssh_line(ssh);
    let t16 = t15 + "\n  users.users.\""@;
    let t17 = t16 + nix_escaped(username);
    let t18 = t17 + "\" = {\n    isNormalUser = true;\n    extraGroups = "@;
    let t19 = t18 + user_groups(enable_sudo);
    let t20 = t19 + ";\n    initialPassword = \""@;
    let t21 = t20 + nix_escaped(user_password);
    let t22 = t21 + "\";\n  };\n\n  users.users.root.initialPassword = \""@;
    let t23 = t22 + nix_escaped(root_password);
    let t24 = t23 + "\";\n}\n"@;
    assert(t24 == setup_module(hostname, timezone, keyboard_layout, username, user_password, root_password, enable_flakes, enable_sudo, networkmanager, git, ssh));
    reveal_strlit("  networking.hostName = \"");
    reveal_strlit("  time.timeZone = \"");
    reveal_strlit("[ \"wheel\" ]");
    reveal_strlit("[ ]");
    reveal_strlit("\";\n  time.timeZone = \"");
    reveal_strlit("\";\n");
    reveal_strlit("false");
    reveal_strlit("true");
    reveal_strlit("{ config, pkgs, ... }:\n\n{\n  networking.hostName = \"");
    reveal_strlit("{ config, pkgs, ... }:\n\n{\n");
    assert(t2 =~= "{ config, pkgs, ... }:\n\n{\n"@ + ("  networking.hostName = \""@ + nix_escaped(hostname) + "\";\n"@) + "  time.timeZone = \""@);
    lemma_contains_middle("{ config, pkgs, ... }:\n\n{\n"@, "  networking.hostName = \""@ + nix_escaped(hostname) + "\";\n"@, "  time.timeZone = \""@);
    lemma_contains_extend(t2, nix_escaped(timezone), "  networking.hostName = \""@ + nix_escaped(hostname) + "\";\n"@);
    lemma_contains_extend(t3, "\";\n  services.xserver.xkb.layout = \""@, "  networking.hostName = \""@ + nix_escaped(hostname) + "\";\n"@);
    lemma_contains_extend(t4, nix_escaped(keyboard_layout), "  networking.hostName = \""@ + nix_escaped(hostname) + "\";\n"@);
    lemma_contains_extend(t5, "\";\n  console.keyMap = \""@, "  networking.hostName = \""@ + nix_escaped(hostname) + "\";\n"@);
    lemma_contains_extend(t6, nix_escaped(keyboard_layout), "  networking.hostName = \""@ + nix_escaped(hostname) + "\";\n"@);
    lemma_contains_extend(t7, "\";\n"@, "  networking.hostName = \""@ + nix_escaped(hostname) + "\";\n"@);
    lemma_contains_extend(t8, flakes_line(enable_flakes), "  networking.hostName = \""@ + nix_escaped(hostname) + "\";\n"@);
    lemma_contains_extend(t9, "  networking.networkmanager.enable = "@, "  networking.hostName = \""@ + nix_escaped(hostname) + "\";\n"@);
    lemma_contains_extend(t10, nix_bool(networkmanager), "  networking.hostName = \""@ + nix_escaped(hostname) + "\";\n"@);
    lemma_contains_extend(t11, ";\n  programs.git.enable = "@, "  networking.hostName = \""@ + nix_escaped(hostname) + "\";\n"@);
    lemma_contains_extend(t12, nix_bool(git), "  networking.hostName = \""@ + nix_escaped(hostname) + "\";\n"@);
    lemma_contains_extend(t13, ";\n"@, "  networking.hostName = \""@ + nix_escaped(hostname) + "\";\n"@);
    lemma_contains_extend(t14, ssh_line(ssh), "  networking.hostName = \""@ + nix_escaped(hostname) + "\";\n"@);
    lemma_contains_extend(t15, "\n  users.users.\""@, "  networking.hostName = \""@ + nix_escaped(hostname) + "\";\n"@);
    lemma_contains_extend(t16, nix_escaped(username), "  networking.hostName = \""@ + nix_escaped(hostname) + "\";\n"@);
    lemma_contains_extend(t17, "\" = {\n    isNormalUser = true;\n    extraGroups = "@, "  networking.hostName = \""@ + nix_escaped(hostname) + "\";\n"@);
    lemma_contains_extend(t18, user_groups(enable_sudo), "  networking.hostName = \""@ + nix_escaped(hostname) + "\";\n"@);
    lemma_contains_extend(t19, ";\n    initialPassword = \""@, "  networking.hostName = \""@ + nix_escaped(hostname) + "\";\n"@);
    lemma_contains_extend(t20, nix_escaped(user_password), "  networking.hostName = \""@ + nix_escaped(hostname) + "\";\n"@);
    lemma_contains_extend(t21, "\";\n  };\n\n  users.users.root.initialPassword = \""@, "  networking.hostName = \""@ + nix_escaped(hostname) + "\";\n"@);
    lemma_contains_extend(t22, nix_escaped(root_password), "  networking.hostName = \""@ + nix_escaped(hostname) + "\";\n"@);
    lemma_contains_extend(t23, "\";\n}\n"@, "  networking.hostName = \""@ + nix_escaped(hostname) + "\";\n"@);
}

proof fn lemma_setup_timezone(
    hostname: Seq<char>,
    timezone: Seq<char>,
    keyboard_layout: Seq<char>,
    username: Seq<char>,
    user_password: Seq<char>,
    root_password: Seq<char>,
    enable_flakes: bool,
    enable_sudo: bool,
    networkmanager: bool,
    git: bool,
    ssh: bool,
)
    ensures
        contains_text(setup_module(hostname, timezone, keyboard_layout, username, user_password, root_password, enable_flakes, enable_sudo, networkmanager, git, ssh), "  time.timeZone = \""@ + nix_escaped(timezone) + "\";\n"@),
{
    let t0 = "{ config, pkgs, ... }:\n\n{\n  networking.hostName = \""@;
    let t1 = t0 + nix_escaped(hostname);
    let t2 = t1 + "\";\n  time.timeZone = \""@;
    let t3 = t2 + nix_escaped(timezone);
    let t4 = t3 + "\";\n  services.xserver.xkb.layout = \""@;
    let t5 = t4 + nix_escaped(keyboard_layout);
    let t6 = t5 + "\";\n  console.keyMap = \""@;
    let t7 = t6 + nix_escaped(keyboard_layout);
    let t8 = t7 + "\";\n"@;
    let t9 = t8 + flakes_line(enable_flakes);
    let t10 = t9 + "  networking.networkmanager.enable = "@;
    let t11 = t10 + nix_bool(networkmanager);
    let t12 = t11 + ";\n  programs.git.enable = "@;
    let t13 = t12 + nix_bool(git);
    let t14 = t13 + ";\n"@;
    let t15 = t14 + ssh_line(ssh);
    let t16 = t15 + "\n  users.users.\""@;
    let t17 = t16 + nix_escaped(username);
    let t18 = t17 + "\" = {\n    isNormalUser = true;\n    extraGroups = "@;
    let t19 = t18 + user_groups(enable_sudo);
    let t20 = t19 + ";\n    initialPassword = \""@;
    let t21 = t20 + nix_escaped(user_password);
    let t22 = t21 + "\";\n  };\n\n  users.users.root.initialPassword = \""@;
    let t23 = t22 + nix_escaped(root_password);
    let t24 = t23 + "\";\n}\n"@;
    assert(t24 == setup_module(hostname, timezone, keyboard_layout, username, user_password, root_password, enable_flakes, enable_sudo, networkmanager, git, ssh));
    reveal_strlit("  services.xserver.xkb.layout = \"");
    reveal_strlit("  time.timeZone = \"");
    reveal_strlit("[ \"wheel\" ]");
    reveal_strlit("[ ]");
    reveal_strlit("\";\n  services.xserver.xkb.layout = \"");
    reveal_strlit("\";\n  time.timeZone = \"");
    reveal_strlit("\";\n");
    reveal_strlit("false");
    reveal_strlit("true");
    assert(t4 =~= t1 + "\";\n"@ + ("  time.timeZone = \""@ + nix_escaped(timezone) + "\";\n"@) + "  services.xserver.xkb.layout = \""@);
    lemma_contains_middle(t1 + "\";\n"@, "  time.timeZone = \""@ + nix_escaped(timezone) + "\";\n"@, "  services.xserver.xkb.layout = \""@);
    lemma_contains_extend(t4, nix_escaped(keyboard_layout), "  time.timeZone = \""@ + nix_escaped(timezone) + "\";\n"@);
    lemma_contains_extend(t5, "\";\n  console.keyMap = \""@, "  time.timeZone = \""@ + nix_escaped(timezone) + "\";\n"@);
    lemma_contains_extend(t6, nix_escaped(keyboard_layout), "  time.timeZone = \""@ + nix_escaped(timezone) + "\";\n"@);
    lemma_contains_extend(t7, "\";\n"@, "  time.timeZone = \""@ + nix_escaped(timezone) + "\";\n"@);
    lemma_contains_extend(t8, flakes_line(enable_flakes), "  time.timeZone = \""@ + nix_escaped(timezone) + "\";\n"@);
    lemma_contains_extend(t9, "  networking.networkmanager.enable = "@, "  time.timeZone = \""@ + nix_escaped(timezone) + "\";\n"@);
    lemma_contains_extend(t10, nix_bool(networkmanager), "  time.timeZone = \""@ + nix_escaped(timezone) + "\";\n"@);
    lemma_contains_extend(t11, ";\n  programs.git.enable = "@, "  time.timeZone = \""@ + nix_escaped(timezone) + "\";\n"@);
    lemma_contains_extend(t12, nix_bool(git), "  time.timeZone = \""@ + nix_escaped(timezone) + "\";\n"@);
    lemma_contains_extend(t13, ";\n"@, "  time.timeZone = \""@ + nix_escaped(timezone) + "\";\n"@);
    lemma_contains_extend(t14, ssh_line(ssh), "  time.timeZone = \""@ + nix_escaped(timezone) + "\";\n"@);
    lemma_contains_extend(t15, "\n  users.users.\""@, "  time.timeZone = \""@ + nix_escaped(timezone) + "\";\n"@);
    lemma_contains_extend(t16, nix_escaped(username), "  time.timeZone = \""@ + nix_escaped(timezone) + "\";\n"@);
    lemma_contains_extend(t17, "\" = {\n    isNormalUser = true;\n    extraGroups = "@, "  time.timeZone = \""@ + nix_escaped(timezone) + "\";\n"@);
    lemma_contains_extend(t18, user_groups(enable_sudo), "  time.timeZone = \""@ + nix_escaped(timezone) + "\";\n"@);
    lemma_contains_extend(t19, ";\n    initialPassword = \""@, "  time.timeZone = \""@ + nix_escaped(timezone) + "\";\n"@);
    lemma_contains_extend(t20, nix_escaped(user_password), "  time.timeZone = \""@ + nix_escaped(timezone) + "\";\n"@);
    lemma_contains_extend(t21, "\";\n  };\n\n  users.users.root.initialPassword = \""@, "  time.timeZone = \""@ + nix_escaped(timezone) + "\";\n"@);
    lemma_contains_extend(t22, nix_escaped(root_password), "  time.timeZone = \""@ + nix_escaped(timezone) + "\";\n"@);
    lemma_contains_extend(t23, "\";\n}\n"@, "  time.timeZone = \""@ + nix_escaped(timezone) + "\";\n"@);
}

proof fn lemma_zfs_systemd_boot(
    host_id: Seq<char>, swap_partuuid: Seq<char>
)
    ensures
        contains_text(zfs_module(host_id, swap_partuuid), "  boot.loader.systemd-boot.enable = true;\n"@),
{
    let z0 = "{ config, pkgs, ... }:\n\n{\n  boot.loader.systemd-boot.enable = true;\n  boot.loader.efi.canTouchEfiVariables = true;\n  boot.loader.grub.enable = pkgs.lib.mkForce false;\n\n  networking.hostId = \""@;
    let z1 = z0 + host_id;
    let z2 = z1 + "\";\n  boot.supportedFilesystems = [ \"zfs\" ];\n  boot.zfs.devNodes = \"/dev/disk/by-partlabel\";\n\n  swapDevices = pkgs.lib.mkForce [ {\n    device = \"/dev/disk/by-partuuid/"@;
    let z3 = z2 + swap_partuuid;
    let z4 = z3 + "\";\n    randomEncryption.enable = true;\n  } ];\n}\n"@;
    assert(z4 == zfs_module(host_id, swap_partuuid));
    reveal_strlit("  boot.loader.efi.canTouchEfiVariables = true;\n  boot.loader.grub.enable = pkgs.lib.mkForce false;\n\n  networking.hostId = \"");
    reveal_strlit("  boot.loader.systemd-boot.enable = true;\n");
    reveal_strlit("{ config, pkgs, ... }:\n\n{\n  boot.loader.systemd-boot.enable = true;\n  boot.loader.efi.canTouchEfiVariables = true;\n  boot.loader.grub.enable = pkgs.lib.mkForce false;\n\n  networking.hostId = \"");
    reveal_strlit("{ config, pkgs, ... }:\n\n{\n");
    assert(z0 =~= "{ config, pkgs, ... }:\n\n{\n"@ + ("  boot.loader.systemd-boot.enable = true;\n"@) + "  boot.loader.efi.canTouchEfiVariables = true;\n  boot.loader.grub.enable = pkgs.lib.mkForce false;\n\n  networking.hostId = \""@);
    lemma_contains_middle("{ config, pkgs, ... }:\n\n{\n"@, "  boot.loader.systemd-boot.enable = true;\n"@, "  boot.loader.efi.canTouchEfiVariables = true;\n  boot.loader.grub.enable = pkgs.lib.mkForce false;\n\n  networking.hostId = \""@);
    lemma_contains_extend(z0, host_id, "  boot.loader.systemd-boot.enable = true;\n"@);
    lemma_contains_extend(z1, "\";\n  boot.supportedFilesystems = [ \"zfs\" ];\n  boot.zfs.devNodes = \"/dev/disk/by-partlabel\";\n\n  swapDevices = pkgs.lib.mkForce [ {\n    device = \"/dev/disk/by-partuuid/"@, "  boot.loader.systemd-boot.enable = true;\n"@);
    lemma_contains_extend(z2, swap_partuuid, "  boot.loader.systemd-boot.enable = true;\n"@);
    lemma_contains_extend(z3, "\";\n    randomEncryption.enable = true;\n  } ];\n}\n"@, "  boot.loader.systemd-boot.enable = true;\n"@);
}

proof fn lemma_zfs_grub_off(
    host_id: Seq<char>, swap_partuuid: Seq<char>
)
    ensures
        contains_text(zfs_module(host_id, swap_partuuid), "  boot.loader.grub.enable = pkgs.lib.mkForce false;\n"@),
{
    let z0 = "{ config, pkgs, ... }:\n\n{\n  boot.loader.systemd-boot.enable = true;\n  boot.loader.efi.canTouchEfiVariables = true;\n  boot.loader.grub.enable = pkgs.lib.mkForce false;\n\n  networking.hostId = \""@;
    let z1 = z0 + host_id;
    let z2 = z1 + "\";\n  boot.supportedFilesystems = [ \"zfs\" ];\n  boot.zfs.devNodes = \"/dev/disk/by-partlabel\";\n\n  swapDevices = pkgs.lib.mkForce [ {\n    device = \"/dev/disk/by-partuuid/"@;
    let z3 = z2 + swap_partuuid;
    let z4 = z3 + "\";\n    randomEncryption.enable = true;\n  } ];\n}\n"@;
    assert(z4 == zfs_module(host_id, swap_partuuid));
    reveal_strlit("  boot.loader.grub.enable = pkgs.lib.mkForce false;\n");
    reveal_strlit("\n  networking.hostId = \"");
    reveal_strlit("{ config, pkgs, ... }:\n\n{\n  boot.loader.systemd-boot.enable = true;\n  boot.loader.efi.canTouchEfiVariables = true;\n  boot.loader.grub.enable = pkgs.lib.mkForce false;\n\n  networking.hostId = \"");
    reveal_strlit("{ config, pkgs, ... }:\n\n{\n  boot.loader.systemd-boot.enable = true;\n  boot.loader.efi.canTouchEfiVariables = true;\n");
    assert(z0 =~= "{ config, pkgs, ... }:\n\n{\n  boot.loader.systemd-boot.enable = true;\n  boot.loader.efi.canTouchEfiVariables = true;\n"@ + ("  boot.loader.grub.enable = pkgs.lib.mkForce false;\n"@) + "\n  networking.hostId = \""@);
    lemma_contains_middle("{ config, pkgs, ... }:\n\n{\n  boot.loader.systemd-boot.enable = true;\n  boot.loader.efi.canTouchEfiVariables = true;\n"@, "  boot.loader.grub.enable = pkgs.lib.mkForce false;\n"@, "\n  networking.hostId = \""@);
    lemma_contains_extend(z0, host_id, "  boot.loader.grub.enable = pkgs.lib.mkForce false;\n"@);
    lemma_contains_extend(z1, "\";\n  boot.supportedFilesystems = [ \"zfs\" ];\n  boot.zfs.devNodes = \"/dev/disk/by-partlabel\";\n\n  swapDevices = pkgs.lib.mkForce [ {\n    device = \"/dev/disk/by-partuuid/"@, "  boot.loader.grub.enable = pkgs.lib.mkForce false;\n"@);
    lemma_contains_extend(z2, swap_partuuid, "  boot.loader.grub.enable = pkgs.lib.mkForce false;\n"@);
    lemma_contains_extend(z3, "\";\n    randomEncryption.enable = true;\n  } ];\n}\n"@, "  boot.loader.grub.enable = pkgs.lib.mkForce false;\n"@);
}

proof fn lemma_zfs_support(
    host_id: Seq<char>, swap_partuuid: Seq<char>
)
    ensures
        contains_text(zfs_module(host_id, swap_partuuid), "  boot.supportedFilesystems = [ \"zfs\" ];\n"@),
{
    let z0 = "{ config, pkgs, ... }:\n\n{\n  boot.loader.systemd-boot.enable = true;\n  boot.loader.efi.canTouchEfiVariables = true;\n  boot.loader.grub.enable = pkgs.lib.mkForce false;\n\n  networking.hostId = \""@;
    let z1 = z0 + host_id;
    let z2 = z1 + "\";\n  boot.supportedFilesystems = [ \"zfs\" ];\n  boot.zfs.devNodes = \"/dev/disk/by-partlabel\";\n\n  swapDevices = pkgs.lib.mkForce [ {\n    device = \"/dev/disk/by-partuuid/"@;
    let z3 = z2 + swap_partuuid;
    let z4 = z3 + "\";\n    randomEncryption.enable = true;\n  } ];\n}\n"@;
    assert(z4 == zfs_module(host_id, swap_partuuid));
    reveal_strlit("  boot.supportedFilesystems = [ \"zfs\" ];\n");
    reveal_strlit("  boot.zfs.devNodes = \"/dev/disk/by-partlabel\";\n\n  swapDevices = pkgs.lib.mkForce [ {\n    device = \"/dev/disk/by-partuuid/");
    reveal_strlit("\";\n  boot.supportedFilesystems = [ \"zfs\" ];\n  boot.zfs.devNodes = \"/dev/disk/by-partlabel\";\n\n  swapDevices = pkgs.lib.mkForce [ {\n    device = \"/dev/disk/by-partuuid/");
    reveal_strlit("\";\n");
    assert(z2 =~= z1 + "\";\n"@ + ("  boot.supportedFilesystems = [ \"zfs\" ];\n"@) + "  boot.zfs.devNodes = \"/dev/disk/by-partlabel\";\n\n  swapDevices = pkgs.lib.mkForce [ {\n    device = \"/dev/disk/by-partuuid/"@);
    lemma_contains_middle(z1 + "\";\n"@, "  boot.supportedFilesystems = [ \"zfs\" ];\n"@, "  boot.zfs.devNodes = \"/dev/disk/by-partlabel\";\n\n  swapDevices = pkgs.lib.mkForce [ {\n    device = \"/dev/disk/by-partuuid/"@);
    lemma_contains_extend(z2, swap_partuuid, "  boot.supportedFilesystems = [ \"zfs\" ];\n"@);
    lemma_contains_extend(z3, "\";\n    randomEncryption.enable = true;\n  } ];\n}\n"@, "  boot.supportedFilesystems = [ \"zfs\" ];\n"@);
}

proof fn lemma_zfs_host_id(
    host_id: Seq<char>, swap_partuuid: Seq<char>
)
    ensures
        contains_text(zfs_module(host_id, swap_partuuid), "  networking.hostId = \""@ + host_id + "\";\n"@),
{
    let z0 = "{ config, pkgs, ... }:\n\n{\n  boot.loader.systemd-boot.enable = true;\n  boot.loader.efi.canTouchEfiVariables = true;\n  boot.loader.grub.enable = pkgs.lib.mkForce false;\n\n  networking.hostId = \""@;
    let z1 = z0 + host_id;
    let z2 = z1 + "\";\n  boot.supportedFilesystems = [ \"zfs\" ];\n  boot.zfs.devNodes = \"/dev/disk/by-partlabel\";\n\n  swapDevices = pkgs.lib.mkForce [ {\n    device = \"/dev/disk/by-partuuid/"@;
    let z3 = z2 + swap_partuuid;
    let z4 = z3 + "\";\n    randomEncryption.enable = true;\n  } ];\n}\n"@;
    assert(z4 == zfs_module(host_id, swap_partuuid));
    reveal_strlit("  boot.supportedFilesystems = [ \"zfs\" ];\n  boot.zfs.devNodes = \"/dev/disk/by-partlabel\";\n\n  swapDevices = pkgs.lib.mkForce [ {\n    device = \"/dev/disk/by-partuuid/");
    reveal_strlit("  networking.hostId = \"");
    reveal_strlit("\";\n  boot.supportedFilesystems = [ \"zfs\" ];\n  boot.zfs.devNodes = \"/dev/disk/by-partlabel\";\n\n  swapDevices = pkgs.lib.mkForce [ {\n    device = \"/dev/disk/by-partuuid/");
    reveal_strlit("\";\n");
    reveal_strlit("{ config, pkgs, ... }:\n\n{\n  boot.loader.systemd-boot.enable = true;\n  boot.loader.efi.canTouchEfiVariables = true;\n  boot.loader.grub.enable = pkgs.lib.mkForce false;\n\n  networking.hostId = \"");
    reveal_strlit("{ config, pkgs, ... }:\n\n{\n  boot.loader.systemd-boot.enable = true;\n  boot.loader.efi.canTouchEfiVariables = true;\n  boot.loader.grub.enable = pkgs.lib.mkForce false;\n\n");
    assert(z2 =~= "{ config, pkgs, ... }:\n\n{\n  boot.loader.systemd-boot.enable = true;\n  boot.loader.efi.canTouchEfiVariables = true;\n  boot.loader.grub.enable = pkgs.lib.mkForce false;\n\n"@ + ("  networking.hostId = \""@ + host_id + "\";\n"@) + "  boot.supportedFilesystems = [ \"zfs\" ];\n  boot.zfs.devNodes = \"/dev/disk/by-partlabel\";\n\n  swapDevices = pkgs.lib.mkForce [ {\n    device = \"/dev/disk/by-partuuid/"@);
    lemma_contains_middle("{ config, pkgs, ... }:\n\n{\n  boot.loader.systemd-boot.enable = true;\n  boot.loader.efi.canTouchEfiVariables = true;\n  boot.loader.grub.enable = pkgs.lib.mkForce false;\n\n"@, "  networking.hostId = \""@ + host_id + "\";\n"@, "  boot.supportedFilesystems = [ \"zfs\" ];\n  boot.zfs.devNodes = \"/dev/disk/by-partlabel\";\n\n  swapDevices = pkgs.lib.mkForce [ {\n    device = \"/dev/disk/by-partuuid/"@);
    lemma_contains_extend(z2, swap_partuuid, "  networking.hostId = \""@ + host_id + "\";\n"@);
    lemma_contains_extend(z3, "\";\n    randomEncryption.enable = true;\n  } ];\n}\n"@, "  networking.hostId = \""@ + host_id + "\";\n"@);
}

proof fn lemma_zfs_swap_device(
    host_id: Seq<char>, swap_partuuid: Seq<char>
)
    ensures
        contains_text(zfs_module(host_id, swap_partuuid), "    device = \"/dev/disk/by-partuuid/"@ + swap_partuuid + "\";\n"@),
{
    let z0 = "{ config, pkgs, ... }:\n\n{\n  boot.loader.systemd-boot.enable = true;\n  boot.loader.efi.canTouchEfiVariables = true;\n  boot.loader.grub.enable = pkgs.lib.mkForce false;\n\n  networking.hostId = \""@;
    let z1 = z0 + host_id;
    let z2 = z1 + "\";\n  boot.supportedFilesystems = [ \"zfs\" ];\n  boot.zfs.devNodes = \"/dev/disk/by-partlabel\";\n\n  swapDevices = pkgs.lib.mkForce [ {\n    device = \"/dev/disk/by-partuuid/"@;
    let z3 = z2 + swap_partuuid;
    let z4 = z3 + "\";\n    randomEncryption.enable = true;\n  } ];\n}\n"@;
    assert(z4 == zfs_module(host_id, swap_partuuid));
    reveal_strlit("    device = \"/dev/disk/by-partuuid/");
    reveal_strlit("    randomEncryption.enable = true;\n  } ];\n}\n");
    reveal_strlit("\";\n    randomEncryption.enable = true;\n  } ];\n}\n");
    reveal_strlit("\";\n  boot.supportedFilesystems = [ \"zfs\" ];\n  boot.zfs.devNodes = \"/dev/disk/by-partlabel\";\n\n  swapDevices = pkgs.lib.mkForce [ {\n    device = \"/dev/disk/by-partuuid/");
    reveal_strlit("\";\n  boot.supportedFilesystems = [ \"zfs\" ];\n  boot.zfs.devNodes = \"/dev/disk/by-partlabel\";\n\n  swapDevices = pkgs.lib.mkForce [ {\n");
    reveal_strlit("\";\n");
    assert(z4 =~= z1 + "\";\n  boot.supportedFilesystems = [ \"zfs\" ];\n  boot.zfs.devNodes = \"/dev/disk/by-partlabel\";\n\n  swapDevices = pkgs.lib.mkForce [ {\n"@ + ("    device = \"/dev/disk/by-partuuid/"@ + swap_partuuid + "\";\n"@) + "    randomEncryption.enable = true;\n  } ];\n}\n"@);
    lemma_contains_middle(z1 + "\";\n  boot.supportedFilesystems = [ \"zfs\" ];\n  boot.zfs.devNodes = \"/dev/disk/by-partlabel\";\n\n  swapDevices = pkgs.lib.mkForce [ {\n"@, "    device = \"/dev/disk/by-partuuid/"@ + swap_partuuid + "\";\n"@, "    randomEncryption.enable = true;\n  } ];\n}\n"@);
}

/// The system module carries every answer: the host name and time zone as
/// escaped Nix strings, the flakes line when flakes are on, NetworkManager and
/// Git set to `true` or `false` as chosen, the OpenSSH server when SSH is on,
/// and the user in the `wheel` group exactly as sudo was chosen.
pub proof fn lemma_setup_module_settings(
    hostname: Seq<char>,
    timezone: Seq<char>,
    keyboard_layout: Seq<char>,
    username: Seq<char>,
    user_password: Seq<char>,
    root_password: Seq<char>,
    enable_flakes: bool,
    enable_sudo: bool,
    networkmanager: bool,
    git: bool,
    ssh: bool,
)
    ensures
        enable_flakes ==> contains_text(setup_module(hostname, timezone, keyboard_layout, username, user_password, root_password, enable_flakes, enable_sudo, networkmanager, git, ssh), "  nix.settings.experimental-features = [ \"nix-command\" \"flakes\" ];\n"@),
        networkmanager ==> contains_text(setup_module(hostname, timezone, keyboard_layout, username, user_password, root_password, enable_flakes, enable_sudo, networkmanager, git, ssh), "  networking.networkmanager.enable = true;\n"@),
        !networkmanager ==> contains_text(setup_module(hostname, timezone, keyboard_layout, username, user_password, root_password, enable_flakes, enable_sudo, networkmanager, git, ssh), "  networking.networkmanager.enable = false;\n"@),
        git ==> contains_text(setup_module(hostname, timezone, keyboard_layout, username, user_password, root_password, enable_flakes, enable_sudo, networkmanager, git, ssh), "  programs.git.enable = true;\n"@),
        !git ==> contains_text(setup_module(hostname, timezone, keyboard_layout, username, user_password, root_password, enable_flakes, enable_sudo, networkmanager, git, ssh), "  programs.git.enable = false;\n"@),
        ssh ==> contains_text(setup_module(hostname, timezone, keyboard_layout, username, user_password, root_password, enable_flakes, enable_sudo, networkmanager, git, ssh), "  services.openssh.enable = true;\n"@),
        enable_sudo ==> contains_text(setup_module(hostname, timezone, keyboard_layout, username, user_password, root_password, enable_flakes, enable_sudo, networkmanager, git, ssh), "    extraGroups = [ \"wheel\" ];\n"@),
        !enable_sudo ==> contains_text(setup_module(hostname, timezone, keyboard_layout, username, user_password, root_password, enable_flakes, enable_sudo, networkmanager, git, ssh), "    extraGroups = [ ];\n"@),
        contains_text(setup_module(hostname, timezone, keyboard_layout, username, user_password, root_password, enable_flakes, enable_sudo, networkmanager, git, ssh), "  networking.hostName = \""@ + nix_escaped(hostname) + "\";\n"@),
        contains_text(setup_module(hostname, timezone, keyboard_layout, username, user_password, root_password, enable_flakes, enable_sudo, networkmanager, git, ssh), "  time.timeZone = \""@ + nix_escaped(timezone) + "\";\n"@),
{
    if enable_flakes {
        lemma_setup_flakes(hostname, timezone, keyboard_layout, username, user_password, root_password, enable_flakes, enable_sudo, networkmanager, git, ssh);
    }
    if networkmanager {
        lemma_setup_nm_on(hostname, timezone, keyboard_layout, username, user_password, root_password, enable_flakes, enable_sudo, networkmanager, git, ssh);
    }
    if !networkmanager {
        lemma_setup_nm_off(hostname, timezone, keyboard_layout, username, user_password, root_password, enable_flakes, enable_sudo, networkmanager, git, ssh);
    }
    if git {
        lemma_setup_git_on(hostname, timezone, keyboard_layout, username, user_password, root_password, enable_flakes, enable_sudo, networkmanager, git, ssh);
    }
    if !git {
        lemma_setup_git_off(hostname, timezone, keyboard_layout, username, user_password, root_password, enable_flakes, enable_sudo, networkmanager, git, ssh);
    }
    if ssh {
        lemma_setup_ssh(hostname, timezone, keyboard_layout, username, user_password, root_password, enable_flakes, enable_sudo, networkmanager, git, ssh);
    }
    if enable_sudo {
        lemma_setup_sudo_on(hostname, timezone, keyboard_layout, username, user_password, root_password, enable_flakes, enable_sudo, networkmanager, git, ssh);
    }
    if !enable_sudo {
        lemma_setup_sudo_off(hostname, timezone, keyboard_layout, username, user_password, root_password, enable_flakes, enable_sudo, networkmanager, git, ssh);
    }
    lemma_setup_hostname(hostname, timezone, keyboard_layout, username, user_password, root_password, enable_flakes, enable_sudo, networkmanager, git, ssh);
    lemma_setup_timezone(hostname, timezone, keyboard_layout, username, user_password, root_password, enable_flakes, enable_sudo, networkmanager, git, ssh);
}

/// The ZFS module boots with systemd-boot, turns GRUB off, declares ZFS
/// support, sets the host id, and uses the swap partition given by its
/// PARTUUID.
pub proof fn lemma_zfs_module_settings(host_id: Seq<char>, swap_partuuid: Seq<char>)
    ensures
        contains_text(zfs_module(host_id, swap_partuuid), "  boot.loader.systemd-boot.enable = true;\n"@),
        contains_text(zfs_module(host_id, swap_partuuid), "  boot.loader.grub.enable = pkgs.lib.mkForce false;\n"@),
        contains_text(zfs_module(host_id, swap_partuuid), "  boot.supportedFilesystems = [ \"zfs\" ];\n"@),
        contains_text(zfs_module(host_id, swap_partuuid), "  networking.hostId = \""@ + host_id + "\";\n"@),
        contains_text(zfs_module(host_id, swap_partuuid), "    device = \"/dev/disk/by-partuuid/"@ + swap_partuuid + "\";\n"@),
{
    lemma_zfs_systemd_boot(host_id, swap_partuuid);
    lemma_zfs_grub_off(host_id, swap_partuuid);
    lemma_zfs_support(host_id, swap_partuuid);
    lemma_zfs_host_id(host_id, swap_partuuid);
    lemma_zfs_swap_device(host_id, swap_partuuid);
}

} // verus!
