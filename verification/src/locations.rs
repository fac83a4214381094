//! Where a tool's script is looked for, in order of priority.

use vstd::prelude::*;

verus! {

/// A place where tools may be installed. The order of the variants is the
/// order in which the places are searched.
#[derive(Clone, Copy, Debug)]
pub enum Tier {
    /// Beside the running executable.
    Packaged,
    /// The user's own data directory.
    UserLocal,
    /// Inside an AppImage, under `usr/share`.
    AppImageUsr,
    /// Inside an AppImage, under `share`.
    AppImageShare,
    /// The system-wide installation.
    System,
    /// One directory above the executable, as in a development tree.
    Development,
}

/// What the host knows about the running executable.
pub struct Executable {
    /// The executable's own path.
    pub path: String,
    /// The directory that contains it.
    pub dir: String,
}

/// What the host knows about where it runs.
pub struct Environment {
    /// The running executable, when its path and directory are known.
    pub exe: Option<Executable>,
    /// The user's home directory, when the environment names one.
    pub home: Option<String>,
}

pub struct ExecutableView {
    pub path: Seq<char>,
    pub dir: Seq<char>,
}

impl View for Executable {
    type V = ExecutableView;

    open spec fn view(&self) -> ExecutableView {
        ExecutableView { path: self.path@, dir: self.dir@ }
    }
}

pub struct EnvironmentView {
    pub exe: Option<ExecutableView>,
    pub home: Option<Seq<char>>,
}

impl View for Environment {
    type V = EnvironmentView;

    open spec fn view(&self) -> EnvironmentView {
        EnvironmentView {
            exe: match self.exe {
                Some(exe) => Some(exe@),
                None => None,
            },
            home: self.home.deep_view(),
        }
    }
}

impl Tier {
    /// The tier's place in the search order, from 0.
    pub open spec fn rank(self) -> nat {
        match self {
            Tier::Packaged => 0,
            Tier::UserLocal => 1,
            Tier::AppImageUsr => 2,
            Tier::AppImageShare => 3,
            Tier::System => 4,
            Tier::Development => 5,
        }
    }

    /// The tier searched after this one.
    pub open spec fn following(self) -> Option<Tier> {
        match self {
            Tier::Packaged => Some(Tier::UserLocal),
            Tier::UserLocal => Some(Tier::AppImageUsr),
            Tier::AppImageUsr => Some(Tier::AppImageShare),
            Tier::AppImageShare => Some(Tier::System),
            Tier::System => Some(Tier::Development),
            Tier::Development => None,
        }
    }

    /// The tier searched after this one, if any is left.
    pub fn next(self) -> (next: Option<Tier>)
        ensures
            next == self.following(),
            next matches Some(tier) ==> tier.rank() == self.rank() + 1,
            next is None <==> self.rank() == 5,
    {
        match self {
            Tier::Packaged => Some(Tier::UserLocal),
            Tier::UserLocal => Some(Tier::AppImageUsr),
            Tier::AppImageUsr => Some(Tier::AppImageShare),
            Tier::AppImageShare => Some(Tier::System),
            Tier::System => Some(Tier::Development),
            Tier::Development => None,
        }
    }
}

/// The home directory to work with: the one the environment names, else `/tmp`.
pub open spec fn home_of(home: Option<Seq<char>>) -> Seq<char> {
    match home {
        Some(dir) => dir,
        None => "/tmp"@,
    }
}

/// The directory under which a tier keeps one directory per tool.
pub open spec fn tools_dir(tier: Tier, exe_dir: Seq<char>, home: Seq<char>) -> Seq<char> {
    match tier {
        Tier::Packaged => exe_dir + "/tools"@,
        Tier::UserLocal => home + "/.local/share/localtoolbox/tools"@,
        Tier::AppImageUsr => exe_dir + "/usr/share/localtoolbox/tools"@,
        Tier::AppImageShare => exe_dir + "/share/localtoolbox/tools"@,
        Tier::System => "/usr/share/localtoolbox/tools"@,
        Tier::Development => exe_dir + "/../tools"@,
    }
}

/// Where a tier keeps the script `base` of `tool`:
/// `<tools dir>/<tool>/<base>.py`.
pub open spec fn location(
    tier: Tier,
    exe_dir: Seq<char>,
    home: Seq<char>,
    tool: Seq<char>,
    base: Seq<char>,
) -> Seq<char> {
    tools_dir(tier, exe_dir, home) + "/"@ + tool + "/"@ + base + ".py"@
}

/// The directory into which a carried script of `tool` is installed: the
/// tool's directory in the user-local tier.
pub open spec fn install_dir(home: Seq<char>, tool: Seq<char>) -> Seq<char> {
    tools_dir(Tier::UserLocal, Seq::empty(), home) + "/"@ + tool
}

/// The path to try when nothing is known about the running executable.
pub open spec fn relative_location(tool: Seq<char>, base: Seq<char>) -> Seq<char> {
    "../tools/"@ + tool + "/"@ + base + ".py"@
}

/// A carried script is installed at the very path where the user-local tier
/// is searched.
pub proof fn lemma_install_target(
    exe_dir: Seq<char>,
    home: Seq<char>,
    tool: Seq<char>,
    base: Seq<char>,
)
    ensures
        location(Tier::UserLocal, exe_dir, home, tool, base) == install_dir(home, tool) + "/"@
            + base + ".py"@,
{
}

/// The home directory to work with.
pub fn home_or_default(home: Option<String>) -> (dir: String)
    ensures
        dir@ == home_of(home.deep_view()),
{
    match home {
        Some(dir) => dir,
        None => "/tmp".to_owned(),
    }
}

/// The directory under which `tier` keeps one directory per tool.
pub fn tier_tools_dir(tier: Tier, exe_dir: &str, home: &str) -> (dir: String)
    ensures
        dir@ == tools_dir(tier, exe_dir@, home@),
{
    match tier {
        Tier::Packaged => crate::text::join2(exe_dir, "/tools"),
        Tier::UserLocal => crate::text::join2(home, "/.local/share/localtoolbox/tools"),
        Tier::AppImageUsr => crate::text::join2(exe_dir, "/usr/share/localtoolbox/tools"),
        Tier::AppImageShare => crate::text::join2(exe_dir, "/share/localtoolbox/tools"),
        Tier::System => "/usr/share/localtoolbox/tools".to_owned(),
        Tier::Development => crate::text::join2(exe_dir, "/../tools"),
    }
}

/// Where `tier` keeps the script `base` of `tool`.
pub fn script_location(tier: Tier, exe_dir: &str, home: &str, tool: &str, base: &str) -> (path:
    String)
    ensures
        path@ == location(tier, exe_dir@, home@, tool@, base@),
{
    let mut path = tier_tools_dir(tier, exe_dir, home);
    path.append("/");
    path.append(tool);
    path.append("/");
    path.append(base);
    path.append(".py");
    path
}

/// The directory into which a carried script of `tool` is installed.
pub fn script_install_dir(home: &str, tool: &str) -> (dir: String)
    ensures
        dir@ == install_dir(home@, tool@),
{
    let mut dir = tier_tools_dir(Tier::UserLocal, "", home);
    dir.append("/");
    dir.append(tool);
    dir
}

/// The path to try when nothing is known about the running executable.
pub fn script_relative_location(tool: &str, base: &str) -> (path: String)
    ensures
        path@ == relative_location(tool@, base@),
{
    let mut path = "../tools/".to_owned();
    path.append(tool);
    path.append("/");
    path.append(base);
    path.append(".py");
    path
}

} // verus!
