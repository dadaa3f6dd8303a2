//! The command lines by which this backend drives the host: the service
//! manager, the storage engine's own tools, and the device manager's settle
//! request. Each is described whether or not it is to run; a call that only
//! simulates describes without running.
use crate::error::{error_view, ErrorKind, OsdError, OsdErrorView};
use crate::ident::{hyphenated_text, Uuid};
use crate::journal::JournalDevice;
use crate::text::{decimal_string, decimal_text, texts_of};
use vstd::prelude::*;
use vstd::string::*;

verus! {

/// A command line, and whether it is to be run or only shown.
#[derive(Clone, Debug, PartialEq, Eq)]
pub struct Invocation {
    pub program: String,
    pub args: Vec<String>,
    /// `false` where the call only simulates: the command is then logged and
    /// not run.
    pub run: bool,
}

/// The mathematical content of an [`Invocation`].
pub struct InvocationView {
    pub program: Seq<char>,
    pub args: Seq<Seq<char>>,
    pub run: bool,
}

impl View for Invocation {
    type V = InvocationView;

    open spec fn view(&self) -> InvocationView {
        InvocationView { program: self.program@, args: texts_of(self.args@), run: self.run }
    }
}

/// The service manager that runs the host.
#[derive(Clone, Copy, Debug, PartialEq, Eq, Structural)]
pub enum Daemon {
    Systemd,
    Upstart,
    Unknown,
}

fn push_string(args: &mut Vec<String>, text: String)
    ensures
        texts_of(final(args)@) == texts_of(old(args)@).push(text@),
{
    args.push(text);
    assert(texts_of(args@) =~= texts_of(old(args)@).push(text@));
}

fn push_text(args: &mut Vec<String>, text: &str)
    ensures
        texts_of(final(args)@) == texts_of(old(args)@).push(text@),
{
    push_string(args, String::from_str(text));
}

/// `args`, followed by a flag and its value where there is a value.
pub open spec fn with_flag(args: Seq<Seq<char>>, flag: Seq<char>, value: Option<Seq<char>>) -> Seq<
    Seq<char>,
> {
    match value {
        Some(v) => args.push(flag).push(v),
        None => args,
    }
}

fn push_flag(args: &mut Vec<String>, flag: &str, value: Option<&str>)
    ensures
        texts_of(final(args)@) == with_flag(
            texts_of(old(args)@),
            flag@,
            match value {
                Some(v) => Some(v@),
                None => None,
            },
        ),
{
    match value {
        Some(v) => {
            push_text(args, flag);
            push_text(args, v);
        },
        None => {},
    }
}

/// The name of the unit that brings up the volume of an OSD of the modern
/// layout.
pub open spec fn volume_unit_text(osd_id: u64, osd_uuid: Uuid) -> Seq<char> {
    "ceph-volume@lvm-"@ + decimal_text(osd_id as nat) + "-"@ + hyphenated_text(osd_uuid.bits)
}

fn volume_unit(osd_id: u64, osd_uuid: &Uuid) -> (unit: String)
    ensures
        unit@ == volume_unit_text(osd_id, *osd_uuid),
{
    let digits = decimal_string(osd_id);
    let id_text = osd_uuid.to_hyphenated_string();
    let mut unit = String::from_str("ceph-volume@lvm-");
    unit.append(digits.as_str());
    unit.append("-");
    unit.append(id_text.as_str());
    unit
}

fn systemctl(verb: &str, unit: String, simulate: bool) -> (command: Invocation)
    ensures
        command@ == (InvocationView {
            program: "systemctl"@,
            args: seq![verb@, unit@],
            run: !simulate,
        }),
{
    let mut args: Vec<String> = Vec::new();
    push_text(&mut args, verb);
    push_string(&mut args, unit);
    assert(texts_of(args@) =~= seq![verb@, unit@]);
    Invocation { program: String::from_str("systemctl"), args, run: !simulate }
}

/// The command that keeps the volume of an OSD from being brought up at
/// boot.
pub fn systemctl_disable(osd_id: u64, osd_uuid: &Uuid, simulate: bool) -> (command: Invocation)
    ensures
        command@ == (InvocationView {
            program: "systemctl"@,
            args: seq!["disable"@, volume_unit_text(osd_id, *osd_uuid)],
            run: !simulate,
        }),
{
    systemctl("disable", volume_unit(osd_id, osd_uuid), simulate)
}

/// The command that has the volume of an OSD brought up at boot.
pub fn systemctl_enable(osd_id: u64, osd_uuid: &Uuid, simulate: bool) -> (command: Invocation)
    ensures
        command@ == (InvocationView {
            program: "systemctl"@,
            args: seq!["enable"@, volume_unit_text(osd_id, *osd_uuid)],
            run: !simulate,
        }),
{
    systemctl("enable", volume_unit(osd_id, osd_uuid), simulate)
}

/// The command that stops the service of an OSD.
pub fn systemctl_stop(osd_id: u64, simulate: bool) -> (command: Invocation)
    ensures
        command@ == (InvocationView {
            program: "systemctl"@,
            args: seq!["stop"@, "ceph-osd@"@ + decimal_text(osd_id as nat) + ".service"@],
            run: !simulate,
        }),
{
    let digits = decimal_string(osd_id);
    let mut unit = String::from_str("ceph-osd@");
    unit.append(digits.as_str());
    unit.append(".service");
    systemctl("stop", unit, simulate)
}

/// The command that starts the service of an OSD under the given service
/// manager.
pub open spec fn start_command(daemon: Daemon, osd_id: u64, simulate: bool) -> Result<
    InvocationView,
    OsdErrorView,
> {
    match daemon {
        Daemon::Systemd => Ok(
            InvocationView {
                program: "systemctl"@,
                args: seq!["start"@, "ceph-osd@"@ + decimal_text(osd_id as nat)],
                run: !simulate,
            },
        ),
        Daemon::Upstart => Ok(
            InvocationView {
                program: "start"@,
                args: seq!["ceph-osd"@, "id="@ + decimal_text(osd_id as nat)],
                run: !simulate,
            },
        ),
        Daemon::Unknown => Err(
            error_view(
                ErrorKind::NotFound,
                "Unknown init system.  Cannot start osd service"@,
            ),
        ),
    }
}

/// The command that starts the service of an OSD, for the service manager
/// that was detected. With an unknown service manager the OSD cannot be
/// started, simulated or not.
pub fn setup_osd_init(daemon: Daemon, osd_id: u64, simulate: bool) -> (r: Result<
    Invocation,
    OsdError,
>)
    ensures
        match r {
            Ok(command) => start_command(daemon, osd_id, simulate) == Ok::<
                InvocationView,
                OsdErrorView,
            >(command@),
            Err(e) => start_command(daemon, osd_id, simulate) == Err::<
                InvocationView,
                OsdErrorView,
            >(e@),
        },
{
    let digits = decimal_string(osd_id);
    match daemon {
        Daemon::Systemd => {
            let mut unit = String::from_str("ceph-osd@");
            unit.append(digits.as_str());
            Ok(systemctl("start", unit, simulate))
        },
        Daemon::Upstart => {
            let mut id = String::from_str("id=");
            id.append(digits.as_str());
            let mut args: Vec<String> = Vec::new();
            push_text(&mut args, "ceph-osd");
            push_string(&mut args, id);
            assert(texts_of(args@) =~= seq!["ceph-osd"@, "id="@ + decimal_text(osd_id as nat)]);
            Ok(Invocation { program: String::from_str("start"), args, run: !simulate })
        },
        Daemon::Unknown => Err(
            OsdError::new(
                ErrorKind::NotFound,
                String::from_str("Unknown init system.  Cannot start osd service"),
            ),
        ),
    }
}

/// The command that waits until the device manager has handled the events
/// that a change of a device raised.
pub fn settle_udev() -> (command: Invocation)
    ensures
        command@ == (InvocationView {
            program: "udevadm"@,
            args: seq!["settle"@],
            run: true,
        }),
{
    let mut args: Vec<String> = Vec::new();
    push_text(&mut args, "settle");
    assert(texts_of(args@) =~= seq!["settle"@]);
    Invocation { program: String::from_str("udevadm"), args, run: true }
}

/// The arguments of the storage engine's own tool that makes the filesystem
/// of an OSD: the cluster and the OSD, then what is given of the journal,
/// the engine, the membership map, the data directory, the instance
/// identifier, and the account to run as.
pub open spec fn mkfs_args(
    osd_id: u64,
    journal: Option<Seq<char>>,
    bluestore: bool,
    monmap: Option<Seq<char>>,
    osd_data: Option<Seq<char>>,
    osd_uuid: Option<Uuid>,
    user_id: Option<Seq<char>>,
    group_id: Option<Seq<char>>,
) -> Seq<Seq<char>> {
    let fixed = seq!["--cluster"@, "ceph"@, "-i"@, decimal_text(osd_id as nat), "--mkfs"@];
    let a = with_flag(fixed, "--osd-journal"@, journal);
    let b = with_flag(
        a,
        "--osd-objectstore"@,
        if bluestore {
            Some("bluestore"@)
        } else {
            None
        },
    );
    let c = with_flag(b, "--monmap"@, monmap);
    let d = with_flag(c, "--osd-data"@, osd_data);
    let e = with_flag(
        d,
        "--osd-uuid"@,
        match osd_uuid {
            Some(id) => Some(hyphenated_text(id.bits)),
            None => None,
        },
    );
    let f = with_flag(e, "--setuser"@, user_id);
    with_flag(f, "--setgroup"@, group_id)
}

/// The content of an optional text.
pub open spec fn optional_text(s: Option<&str>) -> Option<Seq<char>> {
    match s {
        Some(t) => Some(t@),
        None => None,
    }
}

/// The text form of an optional journal.
pub open spec fn journal_text(journal: Option<&JournalDevice>) -> Option<Seq<char>> {
    match journal {
        Some(j) => Some(j@.text()),
        None => None,
    }
}

/// The command that makes the filesystem of an OSD.
pub fn ceph_mkfs(
    osd_id: u64,
    journal: Option<&JournalDevice>,
    bluestore: bool,
    monmap: Option<&str>,
    osd_data: Option<&str>,
    osd_uuid: Option<&Uuid>,
    user_id: Option<&str>,
    group_id: Option<&str>,
    simulate: bool,
) -> (command: Invocation)
    ensures
        command@ == (InvocationView {
            program: "ceph-osd"@,
            args: mkfs_args(
                osd_id,
                journal_text(journal),
                bluestore,
                optional_text(monmap),
                optional_text(osd_data),
                match osd_uuid {
                    Some(id) => Some(*id),
                    None => None,
                },
                optional_text(user_id),
                optional_text(group_id),
            ),
            run: !simulate,
        }),
{
    let digits = decimal_string(osd_id);
    let mut args: Vec<String> = Vec::new();
    push_text(&mut args, "--cluster");
    push_text(&mut args, "ceph");
    push_text(&mut args, "-i");
    push_text(&mut args, digits.as_str());
    push_text(&mut args, "--mkfs");
    assert(texts_of(args@) =~= seq![
        "--cluster"@,
        "ceph"@,
        "-i"@,
        decimal_text(osd_id as nat),
        "--mkfs"@,
    ]);
    match journal {
        Some(j) => {
            let text = j.to_string();
            push_flag(&mut args, "--osd-journal", Some(text.as_str()));
        },
        None => {},
    }
    push_flag(
        &mut args,
        "--osd-objectstore",
        if bluestore {
            Some("bluestore")
        } else {
            None
        },
    );
    push_flag(&mut args, "--monmap", monmap);
    push_flag(&mut args, "--osd-data", osd_data);
    match osd_uuid {
        Some(id) => {
            let text = id.to_hyphenated_string();
            push_flag(&mut args, "--osd-uuid", Some(text.as_str()));
        },
        None => {},
    }
    push_flag(&mut args, "--setuser", user_id);
    push_flag(&mut args, "--setgroup", group_id);
    Invocation { program: String::from_str("ceph-osd"), args, run: !simulate }
}

/// The command that writes the engine's metadata for an OSD of the modern
/// layout from its volume into its directory.
pub fn ceph_bluestore_tool(device: &str, mount_path: &str, simulate: bool) -> (command: Invocation)
    ensures
        command@ == (InvocationView {
            program: "ceph-bluestore-tool"@,
            args: seq![
                "--cluster=ceph"@,
                "prime-osd-dir"@,
                "--dev"@,
                device@,
                "--path"@,
                mount_path@,
            ],
            run: !simulate,
        }),
{
    let mut args: Vec<String> = Vec::new();
    push_text(&mut args, "--cluster=ceph");
    push_text(&mut args, "prime-osd-dir");
    push_text(&mut args, "--dev");
    push_text(&mut args, device);
    push_text(&mut args, "--path");
    push_text(&mut args, mount_path);
    assert(texts_of(args@) =~= seq![
        "--cluster=ceph"@,
        "prime-osd-dir"@,
        "--dev"@,
        device@,
        "--path"@,
        mount_path@,
    ]);
    Invocation { program: String::from_str("ceph-bluestore-tool"), args, run: !simulate }
}

/// The outcome of a command that was run: success, or a tool failure whose
/// message is what the command wrote to its standard error.
pub fn command_result(success: bool, stderr: String) -> (r: Result<(), OsdError>)
    ensures
        success ==> r is Ok,
        !success ==> r is Err && r->Err_0@ == error_view(
            ErrorKind::ExternalToolFailure,
            stderr@,
        ),
{
    if success {
        Ok(())
    } else {
        Err(OsdError::tool_failure(stderr))
    }
}

} // verus!
