//! What the explorer asks the operating system to do, decided here and carried out by
//! the surrounding program: the command that opens a mail with a file attached, the
//! terminals to try for a folder, and the contents of the sidebar.
use vstd::prelude::*;
use crate::catalog::texts;
use crate::model::{opt_view, CommandSpec, DiskDescriptor, Platform, SidebarData, UserDirPaths};
use crate::paths::{backslashed, parent_of, path_parent};
use crate::text::{chars_of, owned, push_char, push_text};

verus! {

/// The abstract content of a command: program, arguments, working directory.
#[verifier::ext_equal]
pub struct CommandView {
    pub program: Seq<char>,
    pub args: Seq<Seq<char>>,
    pub working_dir: Option<Seq<char>>,
}

impl View for CommandSpec {
    type V = CommandView;

    open spec fn view(&self) -> CommandView {
        CommandView {
            program: self.program@,
            args: texts(self.args@),
            working_dir: match self.working_dir {
                Some(d) => Some(d@),
                None => None,
            },
        }
    }
}

/// The PowerShell script that opens an Outlook mail with the file at `p` attached.
pub open spec fn outlook_script(p: Seq<char>) -> Seq<char> {
    "& { $outlook = New-Object -ComObject Outlook.Application; $mail = $outlook.CreateItem(0); $mail.Subject = 'Attached File'; $mail.Attachments.Add('"@
        + backslashed(p) + "'); $mail.Display() }"@
}

/// The AppleScript that opens a Mail.app message with the file at `p` attached.
pub open spec fn mail_app_script(p: Seq<char>) -> Seq<char> {
    "tell application \"Mail\" to make new outgoing message with properties {visible:true, subject:\"Attached File\"} and activate; tell content of result to make new attachment with properties {file name:\""@
        + p + "\" as alias}"@
}

/// The command that opens a new mail with the file at `p` attached, if the platform has one.
pub open spec fn email_plan(p: Seq<char>, platform: Platform) -> Option<CommandView> {
    match platform {
        Platform::Windows => Some(CommandView { program: "powershell"@, args: seq!["-Command"@, outlook_script(p)], working_dir: None }),
        Platform::MacOs => Some(CommandView { program: "osascript"@, args: seq!["-e"@, mail_app_script(p)], working_dir: None }),
        Platform::Linux => Some(CommandView { program: "xdg-email"@, args: seq!["--attach"@, p], working_dir: None }),
        Platform::Other => None,
    }
}

fn push_backslashed(s: &mut String, p: &str)
    ensures
        final(s)@ == old(s)@ + backslashed(p@),
{
    let v = chars_of(p);
    let mut i: usize = 0;
    while i < v.len()
        invariant
            v@ == p@,
            i <= v@.len(),
            s@ == old(s)@ + backslashed(p@).take(i as int),
        decreases v@.len() - i,
    {
        let c = if v[i] == '/' { '\\' } else { v[i] };
        push_char(s, c);
        assert(backslashed(p@).take(i + 1) =~= backslashed(p@).take(i as int).push(c));
        i = i + 1;
    }
    assert(backslashed(p@).take(v@.len() as int) =~= backslashed(p@));
}

fn command(program: &str, args: Vec<String>, working_dir: Option<String>) -> (c: CommandSpec)
    ensures
        c.program@ == program@,
        c.args@ == args@,
        c.working_dir == working_dir,
{
    CommandSpec { program: owned(program), args, working_dir }
}

/// The command that opens a new mail with the file at `path` attached: an Outlook mail
/// through PowerShell on Windows (the path with `\` for `/`), a Mail.app message
/// through AppleScript on macOS, `xdg-email --attach` on Linux, none elsewhere.
pub fn email_command(path: &str, platform: Platform) -> (r: Option<CommandSpec>)
    ensures
        match r {
            Some(c) => email_plan(path@, platform) == Some(c@),
            None => email_plan(path@, platform) is None,
        },
{
    match platform {
        Platform::Windows => {
            let mut script = owned(
                "& { $outlook = New-Object -ComObject Outlook.Application; $mail = $outlook.CreateItem(0); $mail.Subject = 'Attached File'; $mail.Attachments.Add('",
            );
            push_backslashed(&mut script, path);
            push_text(&mut script, "'); $mail.Display() }");
            let c = command("powershell", vec![owned("-Command"), script], None);
            assert(c@ =~= email_plan(path@, platform).unwrap());
            Some(c)
        },
        Platform::MacOs => {
            let mut script = owned(
                "tell application \"Mail\" to make new outgoing message with properties {visible:true, subject:\"Attached File\"} and activate; tell content of result to make new attachment with properties {file name:\"",
            );
            push_text(&mut script, path);
            push_text(&mut script, "\" as alias}");
            let c = command("osascript", vec![owned("-e"), script], None);
            assert(c@ =~= email_plan(path@, platform).unwrap());
            Some(c)
        },
        Platform::Linux => {
            let c = command("xdg-email", vec![owned("--attach"), owned(path)], None);
            assert(c@ =~= email_plan(path@, platform).unwrap());
            Some(c)
        },
        Platform::Other => None,
    }
}

/// The terminals tried on Linux and other Unix systems for the folder `d`, in order.
pub open spec fn unix_terminals(d: Seq<char>) -> Seq<CommandView> {
    seq![
        CommandView { program: "gnome-terminal"@, args: seq!["--working-directory"@, d], working_dir: None },
        CommandView { program: "konsole"@, args: seq!["--workdir"@, d], working_dir: None },
        CommandView { program: "alacritty"@, args: seq!["--working-directory"@, d], working_dir: None },
        CommandView { program: "kitty"@, args: seq!["--directory"@, d], working_dir: None },
        CommandView { program: "xterm"@, args: Seq::empty(), working_dir: Some(d) },
    ]
}

/// The terminal commands for the folder `d`, to try in order until one starts.
pub open spec fn terminals_for(d: Seq<char>, platform: Platform) -> Seq<CommandView> {
    match platform {
        Platform::Windows => seq![CommandView { program: "cmd"@, args: seq!["/C"@, "start"@, "cmd"@, "/K"@], working_dir: Some(d) }],
        Platform::MacOs => seq![CommandView { program: "open"@, args: seq!["-a"@, "Terminal"@, d], working_dir: None }],
        _ => unix_terminals(d),
    }
}

/// The terminal commands for `path`, or the error reported (see `terminal_launch_plan`).
pub open spec fn terminal_plan(path: Seq<char>, exists: bool, is_file: bool, platform: Platform) -> Result<Seq<CommandView>, Seq<char>> {
    if !exists {
        Err("Path does not exist"@)
    } else if is_file {
        match path_parent(path) {
            None => Err("Could not find parent directory"@),
            Some(d) => Ok(terminals_for(d, platform)),
        }
    } else {
        Ok(terminals_for(path, platform))
    }
}

/// The view of a list of commands.
pub open spec fn commands_view(v: Seq<CommandSpec>) -> Seq<CommandView> {
    v.map_values(|c: CommandSpec| c@)
}

/// The terminals to try, in order, to open a terminal at `path`: for a file its parent
/// folder, for a folder the folder itself. On Windows `cmd` started in that folder, on
/// macOS Terminal.app through `open`, elsewhere gnome-terminal, konsole, alacritty,
/// kitty and xterm, in that order. The errors are "Path does not exist" and, for a file
/// without a parent, "Could not find parent directory".
pub fn terminal_launch_plan(path: &str, exists: bool, is_file: bool, platform: Platform) -> (r: Result<Vec<CommandSpec>, String>)
    ensures
        match r {
            Ok(v) => terminal_plan(path@, exists, is_file, platform) == Ok::<Seq<CommandView>, Seq<char>>(commands_view(v@)),
            Err(e) => terminal_plan(path@, exists, is_file, platform) == Err::<Seq<CommandView>, Seq<char>>(e@),
        },
        r is Ok && platform != Platform::Windows && platform != Platform::MacOs ==> commands_view(r->Ok_0@).map_values(
            |c: CommandView| c.program,
        ) == seq!["gnome-terminal"@, "konsole"@, "alacritty"@, "kitty"@, "xterm"@],
{
    if !exists {
        return Err(owned("Path does not exist"));
    }
    let dir = if is_file {
        match parent_of(path) {
            None => return Err(owned("Could not find parent directory")),
            Some(d) => d,
        }
    } else {
        owned(path)
    };
    let ghost d = dir@;
    let mut v: Vec<CommandSpec> = Vec::new();
    match platform {
        Platform::Windows => {
            v.push(command("cmd", vec![owned("/C"), owned("start"), owned("cmd"), owned("/K")], Some(dir)));
        },
        Platform::MacOs => {
            v.push(command("open", vec![owned("-a"), owned("Terminal"), dir], None));
        },
        _ => {
            v.push(command("gnome-terminal", vec![owned("--working-directory"), dir.clone()], None));
            v.push(command("konsole", vec![owned("--workdir"), dir.clone()], None));
            v.push(command("alacritty", vec![owned("--working-directory"), dir.clone()], None));
            v.push(command("kitty", vec![owned("--directory"), dir.clone()], None));
            v.push(command("xterm", Vec::new(), Some(dir)));
        },
    }
    assert(commands_view(v@) =~~= terminals_for(d, platform));
    Ok(v)
}

/// How an attempt to start a command ended: it started, or it failed with an error text.
#[derive(Clone, Debug)]
pub enum Spawned {
    Started,
    Failed(String),
}

/// The abstract content of a spawn outcome.
pub enum SpawnedView {
    Started,
    Failed(Seq<char>),
}

impl View for Spawned {
    type V = SpawnedView;

    open spec fn view(&self) -> SpawnedView {
        match self {
            Spawned::Started => SpawnedView::Started,
            Spawned::Failed(e) => SpawnedView::Failed(e@),
        }
    }
}

/// What to do next while opening a terminal: start the command at an index of the plan,
/// stop with success, or stop with an error text.
#[derive(Clone, Debug)]
pub enum LaunchStep {
    Spawn(usize),
    Done,
    Fail(String),
}

/// The abstract content of a launch step.
pub enum LaunchStepView {
    Spawn(nat),
    Done,
    Fail(Seq<char>),
}

impl View for LaunchStep {
    type V = LaunchStepView;

    open spec fn view(&self) -> LaunchStepView {
        match self {
            LaunchStep::Spawn(i) => LaunchStepView::Spawn(*i as nat),
            LaunchStep::Done => LaunchStepView::Done,
            LaunchStep::Fail(e) => LaunchStepView::Fail(e@),
        }
    }
}

/// Whether every command of a terminal plan is run in turn (Windows and macOS) rather
/// than the commands being alternatives tried until one starts.
pub open spec fn runs_all(platform: Platform) -> bool {
    platform == Platform::Windows || platform == Platform::MacOs
}

/// The step after the commands of a plan of `n` commands before index `next` were
/// tried, the last of them ending with `last` (`None` before any try).
pub open spec fn launch_plan_step(platform: Platform, n: nat, next: nat, last: Option<SpawnedView>) -> LaunchStepView {
    match last {
        Some(SpawnedView::Failed(e)) if runs_all(platform) => LaunchStepView::Fail(e),
        Some(SpawnedView::Started) if !runs_all(platform) => LaunchStepView::Done,
        _ => if next < n {
            LaunchStepView::Spawn(next)
        } else if runs_all(platform) {
            LaunchStepView::Done
        } else {
            LaunchStepView::Fail("No supported terminal emulator found"@)
        },
    }
}

/// The next step of opening a terminal with a plan of `plan_len` commands (see
/// `terminal_launch_plan`), once the commands before index `next` were tried and the
/// last of them ended with `last` (`None` before the first try). On Windows and macOS
/// each command is run in turn and a failure ends the launch with its error; elsewhere
/// the commands are alternatives: the first that starts ends the launch, and when none
/// starts it fails with "No supported terminal emulator found".
pub fn launch_step(platform: Platform, plan_len: usize, next: usize, last: Option<Spawned>) -> (r: LaunchStep)
    ensures
        r@ == launch_plan_step(platform, plan_len as nat, next as nat, match last {
            Some(o) => Some(o@),
            None => None,
        }),
{
    let all = match platform {
        Platform::Windows | Platform::MacOs => true,
        _ => false,
    };
    match last {
        Some(Spawned::Failed(e)) if all => return LaunchStep::Fail(e),
        Some(Spawned::Started) if !all => return LaunchStep::Done,
        _ => {},
    }
    if next < plan_len {
        LaunchStep::Spawn(next)
    } else if all {
        LaunchStep::Done
    } else {
        LaunchStep::Fail(owned("No supported terminal emulator found"))
    }
}

/// The labelled quick-access folders: home, desktop and downloads, the latter two
/// falling back to home where the system names none.
pub open spec fn quick_access_of(home: Seq<char>, desktop: Option<Seq<char>>, downloads: Option<Seq<char>>) -> Seq<(Seq<char>, Seq<char>)> {
    seq![
        ("🏠 Home"@, home),
        ("🖥️ Desktop"@, match desktop { Some(d) => d, None => home }),
        ("📥 Downloads"@, match downloads { Some(d) => d, None => home }),
    ]
}

/// The label of a disk: its name, or its mount point where the name is empty.
pub open spec fn disk_label(name: Seq<char>, mount: Seq<char>) -> Seq<char> {
    if name.len() == 0 {
        mount
    } else {
        name
    }
}

/// The view of (label, path) pairs.
pub open spec fn pairs_view(v: Seq<(String, String)>) -> Seq<(Seq<char>, Seq<char>)> {
    v.map_values(|e: (String, String)| (e.0@, e.1@))
}

/// The view of disks as (name, mount point) pairs.
pub open spec fn disks_view(v: Seq<DiskDescriptor>) -> Seq<(Seq<char>, Seq<char>)> {
    v.map_values(|d: DiskDescriptor| (d.name@, d.mount_point@))
}

/// The sidebar for the user's folders (`None` where the system names no home) and the
/// mounted disks: the quick-access folders (see `quick_access_of`), then one
/// (label, mount point) pair per disk, in order, labelled by `disk_label`.
pub fn sidebar_data(user_dirs: Option<UserDirPaths>, disks: Vec<DiskDescriptor>) -> (r: SidebarData)
    ensures
        pairs_view(r.quick_access@) == match user_dirs {
            Some(u) => quick_access_of(u.home@, opt_view(u.desktop), opt_view(u.downloads)),
            None => Seq::empty(),
        },
        pairs_view(r.system_disks@) == disks_view(disks@).map_values(
            |d: (Seq<char>, Seq<char>)| (disk_label(d.0, d.1), d.1),
        ),
{
    let mut quick_access: Vec<(String, String)> = Vec::new();
    match &user_dirs {
        None => {},
        Some(u) => {
            quick_access.push((owned("🏠 Home"), u.home.clone()));
            let desktop = match &u.desktop {
                Some(d) => d.clone(),
                None => u.home.clone(),
            };
            quick_access.push((owned("🖥️ Desktop"), desktop));
            let downloads = match &u.downloads {
                Some(d) => d.clone(),
                None => u.home.clone(),
            };
            quick_access.push((owned("📥 Downloads"), downloads));
        },
    }
    let ghost dv = disks_view(disks@).map_values(|d: (Seq<char>, Seq<char>)| (disk_label(d.0, d.1), d.1));
    let mut system_disks: Vec<(String, String)> = Vec::new();
    let mut i: usize = 0;
    while i < disks.len()
        invariant
            i <= disks@.len(),
            dv == disks_view(disks@).map_values(|d: (Seq<char>, Seq<char>)| (disk_label(d.0, d.1), d.1)),
            pairs_view(system_disks@) == dv.take(i as int),
        decreases disks@.len() - i,
    {
        let d = &disks[i];
        let label = if d.name.as_str().is_empty() {
            d.mount_point.clone()
        } else {
            d.name.clone()
        };
        let ghost before = pairs_view(system_disks@);
        system_disks.push((label, d.mount_point.clone()));
        assert(dv[i as int] == (disk_label(d.name@, d.mount_point@), d.mount_point@));
        assert(pairs_view(system_disks@) =~= before.push(dv[i as int]));
        assert(dv.take(i + 1) =~= dv.take(i as int).push(dv[i as int]));
        i = i + 1;
    }
    assert(dv.take(disks@.len() as int) =~= dv);
    let r = SidebarData { quick_access, system_disks };
    assert(pairs_view(r.quick_access@) =~= match user_dirs {
        Some(u) => quick_access_of(u.home@, opt_view(u.desktop), opt_view(u.downloads)),
        None => Seq::empty(),
    });
    r
}

} // verus!
