use forkfs::privilege::{
    CAP_CHOWN, CAP_DAC_OVERRIDE, CAP_SYS_ADMIN, CAP_SYS_CHROOT, REQUIRED_CAPABILITIES, ROOT,
};
use forkfs::syscall::{INVALID, NOT_FOUND, NOT_PERMITTED};
use rustix::io::Errno;
use rustix::process::Uid;
use rustix::thread::CapabilitySet;

#[test]
fn errno_values_are_those_of_the_system() {
    assert_eq!(NOT_FOUND, Errno::NOENT.raw_os_error());
    assert_eq!(NOT_PERMITTED, Errno::PERM.raw_os_error());
    assert_eq!(INVALID, Errno::INVAL.raw_os_error());
}

#[test]
fn not_found_is_what_std_calls_not_found() {
    assert_eq!(std::io::Error::from_raw_os_error(NOT_FOUND).kind(), std::io::ErrorKind::NotFound);
}

#[test]
fn capability_bits_are_those_of_the_system() {
    assert_eq!(CAP_CHOWN, CapabilitySet::CHOWN.bits());
    assert_eq!(CAP_DAC_OVERRIDE, CapabilitySet::DAC_OVERRIDE.bits());
    assert_eq!(CAP_SYS_CHROOT, CapabilitySet::SYS_CHROOT.bits());
    assert_eq!(CAP_SYS_ADMIN, CapabilitySet::SYS_ADMIN.bits());
    assert_eq!(REQUIRED_CAPABILITIES, CAP_CHOWN | CAP_DAC_OVERRIDE | CAP_SYS_CHROOT | CAP_SYS_ADMIN);
}

#[test]
fn root_is_uid_zero() {
    assert_eq!(ROOT, Uid::ROOT.as_raw());
}
