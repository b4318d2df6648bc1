//! Start at login on macOS: a launch agent property list in the user's
//! `Library/LaunchAgents` directory. Its presence means "enabled".

use vstd::prelude::*;
use vstd::string::StringExecFns;
use vstd::string::StrSliceExecFns;

verus! {

/// Label of the launch agent; its property list file is named after it.
pub const PLIST_LABEL: &'static str = "io.github.kil9.eng-on-esc";
/// Directory of the launch agents, relative to the home directory.
pub const LAUNCH_AGENTS_DIR: &'static str = "Library/LaunchAgents";
/// Extension of the property list file.
pub const PLIST_EXTENSION: &'static str = ".plist";

/// `base` with the relative path `rel` appended as a further component: a
/// separator goes between them unless `base` is empty or already ends with one.
pub open spec fn join_relative(base: Seq<char>, rel: Seq<char>) -> Seq<char> {
    if base.len() > 0 && base.last() != '/' {
        base + seq!['/'] + rel
    } else {
        base + rel
    }
}

/// The path of the launch agent's property list for home directory `home`:
/// `<home>/Library/LaunchAgents/io.github.kil9.eng-on-esc.plist`.
pub open spec fn plist_path_of(home: Seq<char>) -> Seq<char> {
    join_relative(join_relative(home, LAUNCH_AGENTS_DIR@), PLIST_LABEL@ + PLIST_EXTENSION@)
}

/// The path of the launch agent's property list for home directory `home`.
pub fn plist_path(home: &str) -> (p: String)
    ensures
        p@ == plist_path_of(home@),
{
    proof {
        reveal_strlit("Library/LaunchAgents");
        reveal_strlit("/");
    }
    let mut p = String::from_str(home);
    let n: usize = home.unicode_len();
    if n > 0 && home.get_char(n - 1) != '/' {
        p.append("/");
    }
    p.append(LAUNCH_AGENTS_DIR);
    assert(p@ == join_relative(home@, LAUNCH_AGENTS_DIR@));
    assert(p@.last() == 's');
    p.append("/");
    p.append(PLIST_LABEL);
    p.append(PLIST_EXTENSION);
    assert(p@ =~= plist_path_of(home@));
    p
}

/// The property list lies under the home directory: its path starts with
/// `home` and ends with `Library/LaunchAgents/<label>.plist`.
pub proof fn law_plist_path_under_home(home: Seq<char>)
    ensures
        plist_path_of(home).take(home.len() as int) == home,
        plist_path_of(home).skip(
            plist_path_of(home).len() - (LAUNCH_AGENTS_DIR@.len() + 1 + PLIST_LABEL@.len()
                + PLIST_EXTENSION@.len()),
        ) == LAUNCH_AGENTS_DIR@ + seq!['/'] + PLIST_LABEL@ + PLIST_EXTENSION@,
{
    reveal_strlit("Library/LaunchAgents");
    let suffix = LAUNCH_AGENTS_DIR@ + seq!['/'] + PLIST_LABEL@ + PLIST_EXTENSION@;
    let p = plist_path_of(home);
    if home.len() > 0 && home.last() != '/' {
        assert(p =~= home + seq!['/'] + suffix);
    } else {
        assert(p =~= home + suffix);
    }
    assert(p.take(home.len() as int) =~= home);
    assert(p.skip(p.len() - suffix.len()) =~= suffix);
}

/// Text of the property list up to the label.
pub const PLIST_HEAD: &'static str = "<?xml version=\"1.0\" encoding=\"UTF-8\"?>\n<!DOCTYPE plist PUBLIC \"-//Apple//DTD PLIST 1.0//EN\" \"http://www.apple.com/DTDs/PropertyList-1.0.dtd\">\n<plist version=\"1.0\">\n<dict>\n<key>Label</key><string>";
/// Text of the property list between the label and the program path.
pub const PLIST_MIDDLE: &'static str = "</string>\n<key>ProgramArguments</key>\n<array><string>";
/// Text of the property list after the program path.
pub const PLIST_TAIL: &'static str = "</string></array>\n<key>RunAtLoad</key><true/>\n</dict>\n</plist>\n";

/// The launch agent property list that starts the program at `exe` at login:
/// it names the agent `PLIST_LABEL`, runs `exe` with no arguments, and runs it
/// when loaded. The path is written as given.
pub open spec fn plist_document(exe: Seq<char>) -> Seq<char> {
    PLIST_HEAD@ + PLIST_LABEL@ + PLIST_MIDDLE@ + exe + PLIST_TAIL@
}

/// Builds the launch agent property list for the program at `exe`.
pub fn autostart_plist(exe: &str) -> (doc: String)
    ensures
        doc@ == plist_document(exe@),
{
    let mut doc = String::from_str(PLIST_HEAD);
    doc.append(PLIST_LABEL);
    doc.append(PLIST_MIDDLE);
    doc.append(exe);
    doc.append(PLIST_TAIL);
    doc
}

/// Calls `std::path::Path::exists` on `path`: whether something is found at
/// `path` on disk at the time of the call. The answer depends on the disk, so
/// nothing is stated of it.
#[verifier::external_body]
fn path_exists(path: &str) -> bool {
    std::path::Path::new(path).exists()
}

/// Whether start at login is enabled for home directory `home`: whether the
/// launch agent's property list (at `plist_path_of(home)`) exists. The answer
/// comes from the disk at the time of the call.
pub fn autostart_is_enabled(home: &str) -> bool {
    let path = plist_path(home);
    path_exists(path.as_str())
}

/// The launch agent runs the executable path exactly as given, whatever its
/// length: the document is the fixed head, label and middle, then `exe`
/// unchanged, then the fixed tail; so two different paths give two different
/// documents.
pub proof fn law_plist_runs_whole_path(exe: Seq<char>, other: Seq<char>)
    ensures
        ({
            let start: int = (PLIST_HEAD@.len() + PLIST_LABEL@.len() + PLIST_MIDDLE@.len()) as int;
            &&& plist_document(exe).len() == start + exe.len() + PLIST_TAIL@.len()
            &&& plist_document(exe).subrange(start, start + exe.len()) == exe
            &&& plist_document(exe).take(start) == PLIST_HEAD@ + PLIST_LABEL@
                + PLIST_MIDDLE@
            &&& plist_document(exe).skip(start + exe.len()) == PLIST_TAIL@
        }),
        exe != other ==> plist_document(exe) != plist_document(other),
{
    let start: int = (PLIST_HEAD@.len() + PLIST_LABEL@.len() + PLIST_MIDDLE@.len()) as int;
    let d = plist_document(exe);
    assert(d.subrange(start, start + exe.len()) =~= exe);
    assert(d.take(start) =~= PLIST_HEAD@ + PLIST_LABEL@ + PLIST_MIDDLE@);
    assert(d.skip(start + exe.len()) =~= PLIST_TAIL@);
    if exe != other && plist_document(exe) == plist_document(other) {
        let e = plist_document(other);
        if exe.len() == other.len() {
            assert(e.subrange(start, start + other.len()) =~= other);
            assert(false);
        } else {
            assert(e.len() == start + other.len() + PLIST_TAIL@.len());
            assert(false);
        }
    }
}

} // verus!
