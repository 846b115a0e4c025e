//! The texts reported about external commands and the summary printed before
//! the installation starts.
use vstd::prelude::*;
use vstd::string::*;

use crate::disks::text_views;
use crate::text::{owned, trim_str, trimmed};
use crate::types::{InstallConfig, InstallConfigView};

verus! {

/// The words of a command line separated by single spaces.
pub open spec fn spaced(words: Seq<Seq<char>>) -> Seq<char>
    decreases words.len(),
{
    if words.len() == 0 {
        Seq::empty()
    } else if words.len() == 1 {
        words[0]
    } else {
        spaced(words.drop_last()) + " "@ + words.last()
    }
}

/// The report on a command that ran and failed, with both its outputs.
pub open spec fn run_failure(
    program: Seq<char>,
    args: Seq<Seq<char>>,
    stdout: Seq<char>,
    stderr: Seq<char>,
) -> Seq<char> {
    "Command failed: "@ + program + " "@ + spaced(args) + "\nstdout:\n"@ + trimmed(stdout)
        + "\nstderr:\n"@ + trimmed(stderr)
}

/// The report on a command whose output was wanted and which failed.
pub open spec fn capture_failure(program: Seq<char>, args: Seq<Seq<char>>, stderr: Seq<char>) -> Seq<
    char,
> {
    "Command failed: "@ + program + " "@ + spaced(args) + "\n"@ + trimmed(stderr)
}

/// The report on a command that could not be started.
pub open spec fn start_failure(program: Seq<char>, reason: Seq<char>) -> Seq<char> {
    "Failed to execute "@ + program + ": "@ + reason
}

fn spaced_text(words: &Vec<String>) -> (r: String)
    ensures
        r@ == spaced(text_views(words@)),
{
    let mut s = String::new();
    let mut i: usize = 0;
    while i < words.len()
        invariant
            i <= words@.len(),
            s@ == spaced(text_views(words@).take(i as int)),
        decreases words@.len() - i,
    {
        let ghost before = text_views(words@).take(i as int);
        if i > 0 {
            s.append(" ");
        }
        s.append(words[i].as_str());
        i = i + 1;
        proof {
            let now = text_views(words@).take(i as int);
            assert(now.drop_last() =~= before);
        }
    }
    assert(text_views(words@).take(words@.len() as int) =~= text_views(words@));
    s
}

/// The report on a command that ran and failed.
pub fn run_failure_message(program: &str, args: &Vec<String>, stdout: &str, stderr: &str) -> (r:
    String)
    ensures
        r@ == run_failure(program@, text_views(args@), stdout@, stderr@),
{
    let mut s = owned("Command failed: ");
    s.append(program);
    s.append(" ");
    let a = spaced_text(args);
    s.append(a.as_str());
    s.append("\nstdout:\n");
    s.append(trim_str(stdout));
    s.append("\nstderr:\n");
    s.append(trim_str(stderr));
    s
}

/// The report on a command whose output was wanted and which failed.
pub fn capture_failure_message(program: &str, args: &Vec<String>, stderr: &str) -> (r: String)
    ensures
        r@ == capture_failure(program@, text_views(args@), stderr@),
{
    let mut s = owned("Command failed: ");
    s.append(program);
    s.append(" ");
    let a = spaced_text(args);
    s.append(a.as_str());
    s.append("\n");
    s.append(trim_str(stderr));
    s
}

/// The report on a command that could not be started, with the system's reason.
pub fn start_failure_message(program: &str, reason: &str) -> (r: String)
    ensures
        r@ == start_failure(program@, reason@),
{
    let mut s = owned("Failed to execute ");
    s.append(program);
    s.append(": ");
    s.append(reason);
    s
}

pub open spec fn enabled_word(b: bool) -> Seq<char> {
    if b {
        "enabled"@
    } else {
        "disabled"@
    }
}

/// The lines printed when an installation starts.
pub open spec fn install_banner(c: InstallConfigView) -> Seq<Seq<char>> {
    seq![
        "=== NixOS ZFS Installer (Rust) ==="@,
        "Target disk: "@ + c.disk.path,
        "Boot size:   "@ + c.boot_size,
        "Swap size:   "@ + c.swap_size,
        "Encryption:  "@ + enabled_word(c.enable_encryption),
        "Flakes:      "@ + enabled_word(c.enable_flakes),
        ""@,
    ]
}

fn with_prefix(p: &str, s: &str) -> (r: String)
    ensures
        r@ == p@ + s@,
{
    let mut t = owned(p);
    t.append(s);
    t
}

fn enabled_text(b: bool) -> (r: &'static str)
    ensures
        r@ == enabled_word(b),
{
    if b {
        "enabled"
    } else {
        "disabled"
    }
}

/// The lines printed when an installation starts.
pub fn banner_lines(cfg: &InstallConfig) -> (r: Vec<String>)
    ensures
        text_views(r@) == install_banner(cfg@),
{
    let mut v: Vec<String> = Vec::new();
    v.push(owned("=== NixOS ZFS Installer (Rust) ==="));
    v.push(with_prefix("Target disk: ", cfg.disk.path.as_str()));
    v.push(with_prefix("Boot size:   ", cfg.boot_size.as_str()));
    v.push(with_prefix("Swap size:   ", cfg.swap_size.as_str()));
    v.push(with_prefix("Encryption:  ", enabled_text(cfg.enable_encryption)));
    v.push(with_prefix("Flakes:      ", enabled_text(cfg.enable_flakes)));
    v.push(String::new());
    proof {
        reveal_strlit("");
    }
    let ghost b = install_banner(cfg@);
    assert(text_views(v@).len() == b.len());
    assert(text_views(v@)[0] == b[0]);
    assert(text_views(v@)[1] == b[1]);
    assert(text_views(v@)[4] == b[4]);
    assert(text_views(v@)[6] == b[6]);
    assert(text_views(v@) =~= install_banner(cfg@));
    v
}

} // verus!
