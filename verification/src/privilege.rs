//! The privilege check: mounting and chroot need root or a set of
//! capabilities, and a process that has neither is told how to get them.

use vstd::prelude::*;
use vstd::string::*;
use crate::error::{Error, Report, ReportView};
use crate::syscall::{
    capabilities_reply, done_reply, failure_report, path_reply, IoFailure, IoFailureView,
    Request, RequestView, Response, ResponseView, NOT_PERMITTED,
};

verus! {

/// The user id of root.
pub const ROOT: u32 = 0;

/// `CAP_CHOWN`: change the owner of files.
pub const CAP_CHOWN: u64 = 0x1;

/// `CAP_DAC_OVERRIDE`: bypass the permission checks on files.
pub const CAP_DAC_OVERRIDE: u64 = 0x2;

/// `CAP_SYS_CHROOT`: call `chroot`.
pub const CAP_SYS_CHROOT: u64 = 0x4_0000;

/// `CAP_SYS_ADMIN`: mount and unmount.
pub const CAP_SYS_ADMIN: u64 = 0x20_0000;

/// The capabilities that a process other than root must hold, all of them.
pub const REQUIRED_CAPABILITIES: u64 = 0x24_0003;

/// Whether a process with the effective capabilities `bits` holds every
/// required one.
pub open spec fn sufficient(bits: u64) -> bool {
    bits & REQUIRED_CAPABILITIES == REQUIRED_CAPABILITIES
}

/// Tells whether the effective capabilities `bits` hold every required one.
pub fn has_required_capabilities(bits: u64) -> (enough: bool)
    ensures
        enough == sufficient(bits),
{
    bits & REQUIRED_CAPABILITIES == REQUIRED_CAPABILITIES
}

/// A capability set suffices exactly when it holds each of the four
/// capabilities: to change owners, to override file permissions, to change
/// the root, and to mount.
pub proof fn sufficient_means_all_four(bits: u64)
    ensures
        sufficient(bits) <==> bits & CAP_CHOWN != 0 && bits & CAP_DAC_OVERRIDE != 0 && bits
            & CAP_SYS_CHROOT != 0 && bits & CAP_SYS_ADMIN != 0,
{
    assert((bits & 0x24_0003 == 0x24_0003) <==> (bits & 0x1 != 0 && bits & 0x2 != 0 && bits
        & 0x4_0000 != 0 && bits & 0x20_0000 != 0)) by (bit_vector);
}

/// What stands for the path of the executable where it cannot be read.
pub open spec fn unknown_executable() -> Seq<u8> {
    "<path-to-forkfs>".spec_bytes()
}

/// How the setup instructions begin, up to the path of the executable in
/// the first remedy.
pub open spec fn setup_opening() -> Seq<u8> {
    "Welcome to ForkFS!\n\nUnder the hood, ForkFS is implemented as a wrapper around OverlayFS. As a\nconsequence, elevated privileges are required and can be granted in one of\nthree ways (ordered by recommendation):\n\n- $ sudo setcap cap_chown,cap_sys_chroot,cap_sys_admin,cap_dac_override,cap_fowner,cap_setpcap,cap_mknod,cap_lease,cap_setfcap+ep ".spec_bytes()
}

/// The instructions between the first remedy and the second.
pub open spec fn setup_ownership() -> Seq<u8> {
    "\n\n  This grants `forkfs` precisely the capabilities it needs.\n\n  cap_dac_override onwards are capabilities that are required for OverlayFS to\n  be able to perform those actions.\n\n- $ sudo chown root ".spec_bytes()
}

/// The instructions between the two commands of the second remedy.
pub open spec fn setup_mode() -> Seq<u8> {
    "; sudo chmod u+s ".spec_bytes()
}

/// How the setup instructions end, from the third remedy on.
pub open spec fn setup_closing() -> Seq<u8> {
    "\n\n  This transfers ownership of the `forkfs` binary to root and specifies that\n  the binary should be executed as its owner (i.e. root).\n\n- $ sudo -E forkfs ...\n\n  This simply invokes `forkfs` as root. This option is problematic because\n  sudo alters the environment, causing PATH lookups to fail and changing\n  your home directory.\n\n  If you do go down this route, be consistent with your usage of `-E`. Bare\n  `sudo` vs `sudo -E` will change the forkfs environment, meaning sessions\n  that appear in `sudo` will not appear in `sudo -E` and vice versa.\n\nPS: if you've already seen this message, then you probably upgraded to a new\nversion of ForkFS and will therefore need to rerun this setup.".spec_bytes()
}

/// The setup instructions for the executable at `exe`: three remedies, each
/// with its command: file capabilities, setuid root, or `sudo`.
pub open spec fn setup_message(exe: Seq<u8>) -> Seq<u8> {
    setup_opening() + exe + setup_ownership() + exe + setup_mode() + exe + setup_closing()
}

/// The report that asks for the setup.
pub open spec fn setup_report(exe: Seq<u8>) -> ReportView {
    ReportView::new(Error::SetupRequired).attach(setup_message(exe))
}

/// Whether `part` occurs in `whole` at position `at`.
pub open spec fn occurs_at(whole: Seq<u8>, part: Seq<u8>, at: int) -> bool {
    0 <= at && at + part.len() <= whole.len() && whole.subrange(at, at + part.len()) == part
}

/// The setup instructions name the executable: its path can be copied from
/// the command of the first remedy.
pub proof fn setup_message_names_executable(exe: Seq<u8>)
    ensures
        occurs_at(setup_message(exe), exe, setup_opening().len() as int),
{
    let at = setup_opening().len() as int;
    assert(setup_message(exe).subrange(at, at + exe.len()) =~= exe);
}

/// The setup instructions for the executable at `exe`.
pub fn setup_instructions(exe: &[u8]) -> (message: Vec<u8>)
    ensures
        message@ == setup_message(exe@),
{
    let mut message =
        "Welcome to ForkFS!\n\nUnder the hood, ForkFS is implemented as a wrapper around OverlayFS. As a\nconsequence, elevated privileges are required and can be granted in one of\nthree ways (ordered by recommendation):\n\n- $ sudo setcap cap_chown,cap_sys_chroot,cap_sys_admin,cap_dac_override,cap_fowner,cap_setpcap,cap_mknod,cap_lease,cap_setfcap+ep ".as_bytes_vec();
    message.extend_from_slice(exe);
    message.extend_from_slice(
        "\n\n  This grants `forkfs` precisely the capabilities it needs.\n\n  cap_dac_override onwards are capabilities that are required for OverlayFS to\n  be able to perform those actions.\n\n- $ sudo chown root ".as_bytes(),
    );
    message.extend_from_slice(exe);
    message.extend_from_slice("; sudo chmod u+s ".as_bytes());
    message.extend_from_slice(exe);
    message.extend_from_slice(
        "\n\n  This transfers ownership of the `forkfs` binary to root and specifies that\n  the binary should be executed as its owner (i.e. root).\n\n- $ sudo -E forkfs ...\n\n  This simply invokes `forkfs` as root. This option is problematic because\n  sudo alters the environment, causing PATH lookups to fail and changing\n  your home directory.\n\n  If you do go down this route, be consistent with your usage of `-E`. Bare\n  `sudo` vs `sudo -E` will change the forkfs environment, meaning sessions\n  that appear in `sudo` will not appear in `sudo -E` and vice versa.\n\nPS: if you've already seen this message, then you probably upgraded to a new\nversion of ForkFS and will therefore need to rerun this setup.".as_bytes(),
    );
    message
}

/// Where the privilege check stands: which answer it is waiting for.
#[derive(Clone, Copy, Debug, PartialEq, Eq, Structural)]
pub enum Check {
    /// Whether the thread could become root.
    BecomeRoot,
    /// The effective capabilities.
    Capabilities,
    /// The path of the executable, for the setup instructions.
    ExecutablePath,
}

/// What the privilege check does next.
pub enum Verdict {
    /// It goes on to another check.
    Continue(Check),
    /// The process may mount and chroot.
    Granted,
    /// The process may not, or it could not be found out.
    Refused(ReportView),
}

/// The request that is pending in `check`.
pub open spec fn asked(check: Check) -> RequestView {
    match check {
        Check::BecomeRoot => RequestView::BecomeRoot,
        Check::Capabilities => RequestView::Capabilities,
        Check::ExecutablePath => RequestView::ExecutablePath,
    }
}

/// What is checked first for a process run by user `uid`: root passes,
/// everyone else tries to become root.
pub open spec fn first_check(uid: u32) -> Verdict {
    if uid == ROOT {
        Verdict::Granted
    } else {
        Verdict::Continue(Check::BecomeRoot)
    }
}

/// What the privilege check does when, in `check`, it is told `response`.
///
/// Becoming root settles the matter unless it fails for want of
/// permission; then the capabilities decide; and where they do not
/// suffice, the setup is asked for, with the path of the executable where
/// it can be read.
pub open spec fn judge(check: Check, response: ResponseView) -> Verdict {
    match check {
        Check::BecomeRoot => match done_reply(response) {
            Ok(_) => Verdict::Granted,
            Err(failure) => if failure.code == NOT_PERMITTED {
                Verdict::Continue(Check::Capabilities)
            } else {
                Verdict::Refused(failure_report(asked(check), failure))
            },
        },
        Check::Capabilities => match capabilities_reply(response) {
            Ok(bits) => if sufficient(bits) {
                Verdict::Granted
            } else {
                Verdict::Continue(Check::ExecutablePath)
            },
            Err(failure) => Verdict::Refused(failure_report(asked(check), failure)),
        },
        Check::ExecutablePath => match path_reply(response) {
            Ok(exe) => Verdict::Refused(setup_report(exe)),
            Err(failure) => Verdict::Refused(setup_report(unknown_executable())),
        },
    }
}

/// What the privilege check does next, with the report that it refuses with.
#[derive(Debug, PartialEq, Eq)]
pub enum Ruling {
    Continue(Check),
    Granted,
    Refused(Report),
}

impl View for Ruling {
    type V = Verdict;

    open spec fn view(&self) -> Verdict {
        match self {
            Ruling::Continue(check) => Verdict::Continue(*check),
            Ruling::Granted => Verdict::Granted,
            Ruling::Refused(report) => Verdict::Refused(report@),
        }
    }
}

fn setup_required(exe: &[u8]) -> (report: Report)
    ensures
        report@ == setup_report(exe@),
{
    Report::new(Error::SetupRequired).attach(setup_instructions(exe))
}

/// The request that is pending in `check`.
pub fn request_of(check: Check) -> (request: Request)
    ensures
        request@ == asked(check),
{
    match check {
        Check::BecomeRoot => Request::BecomeRoot,
        Check::Capabilities => Request::Capabilities,
        Check::ExecutablePath => Request::ExecutablePath,
    }
}

/// Decides whether a process run by user `uid` may pass at once.
pub fn validate_permissions(uid: u32) -> (ruling: Ruling)
    ensures
        ruling@ == first_check(uid),
{
    if uid == ROOT {
        Ruling::Granted
    } else {
        Ruling::Continue(Check::BecomeRoot)
    }
}

/// Decides on the answer to `check`.
pub fn decide(check: Check, response: Response) -> (ruling: Ruling)
    ensures
        ruling@ == judge(check, response@),
{
    match check {
        Check::BecomeRoot => match response.into_done() {
            Ok(_) => Ruling::Granted,
            Err(failure) => if failure.code == NOT_PERMITTED {
                Ruling::Continue(Check::Capabilities)
            } else {
                Ruling::Refused(failure.report_for(&Request::BecomeRoot))
            },
        },
        Check::Capabilities => match response.into_capabilities() {
            Ok(bits) => if has_required_capabilities(bits) {
                Ruling::Granted
            } else {
                Ruling::Continue(Check::ExecutablePath)
            },
            Err(failure) => Ruling::Refused(failure.report_for(&Request::Capabilities)),
        },
        Check::ExecutablePath => match response.into_path() {
            Ok(exe) => Ruling::Refused(setup_required(exe.as_slice())),
            Err(failure) => Ruling::Refused(setup_required("<path-to-forkfs>".as_bytes())),
        },
    }
}

/// The privilege check refuses with nothing but `SetupRequired` once both ways
/// to the privileges have failed, and never with `SetupRequired` before.
pub proof fn refusal_is_setup_required(check: Check, response: ResponseView)
    ensures
        judge(check, response) matches Verdict::Refused(report) ==> (report.kind
            == Error::SetupRequired <==> check == Check::ExecutablePath) && (report.kind
            == Error::Io <==> check != Check::ExecutablePath),
        check == Check::ExecutablePath ==> judge(check, response) is Refused,
{
}

} // verus!
