use nix::errno::{sys_result, status_result, SysError, EAGAIN, EINVAL};
use nix::signal::{
    SigAction, SigInfo, SigMaskHow, SigSet, SIG_DFL, SIG_IGN, SIG_IGN_INFO, NSIG, SA_RESTART,
    SA_SIGINFO, SIGKILL, SIGQUIT, SIGUSR1, SIGUSR2,
};

#[test]
fn add_then_remove_every_valid_signal() {
    for s in 1..NSIG {
        let mut set = SigSet::empty();
        assert!(!set.contains(s));
        set.add(s).unwrap();
        assert!(set.contains(s));
        for t in 1..NSIG {
            assert_eq!(set.contains(t), t == s);
        }
        set.remove(s).unwrap();
        assert!(!set.contains(s));
        assert_eq!(set, SigSet::empty());
    }
}

#[test]
fn add_keeps_other_members() {
    let mut set = SigSet::empty();
    set.add(SIGUSR1).unwrap();
    set.add(SIGUSR2).unwrap();
    set.remove(SIGUSR1).unwrap();
    assert!(!set.contains(SIGUSR1));
    assert!(set.contains(SIGUSR2));
    assert_eq!(set.inner(), 1u64 << 11);
}

#[test]
fn invalid_signal_numbers_fail_and_leave_set() {
    let mut set = SigSet::empty();
    set.add(SIGQUIT).unwrap();
    let before = set;
    assert_eq!(set.add(0), Err(SysError { errno: EINVAL }));
    assert_eq!(set.add(-3), Err(SysError { errno: EINVAL }));
    assert_eq!(set.add(NSIG), Err(SysError { errno: EINVAL }));
    assert_eq!(set.remove(NSIG), Err(SysError { errno: EINVAL }));
    assert_eq!(set, before);
    assert!(!set.contains(0));
    assert!(!set.contains(NSIG));
}

#[test]
fn full_set_holds_every_signal() {
    let set = SigSet::all();
    for s in 1..NSIG {
        assert!(set.contains(s));
    }
    assert!(set.contains(64));
    assert!(!set.contains(65));
    assert!(!SigSet::empty().contains(SIGKILL));
}

#[test]
fn mask_round_trips_through_raw_bits() {
    let mut set = SigSet::empty();
    set.add(SIGQUIT).unwrap();
    assert_eq!(set.inner(), 0b100);
    let back = SigSet::from_inner(set.inner());
    assert_eq!(back, set);
    assert!(SigSet::from_inner(1u64 << 63).contains(64));
}

#[test]
fn info_action_always_carries_siginfo_flag() {
    let action = SigAction::new_info(SIG_IGN_INFO(), SA_RESTART, SigSet::empty());
    assert_eq!(action.flags(), SA_RESTART | SA_SIGINFO);
    assert_eq!(action.handler(), 1);
    let action = SigAction::new_info(SIG_IGN_INFO(), SA_SIGINFO, SigSet::empty());
    assert_eq!(action.flags(), SA_SIGINFO);
    assert_eq!(action.flags(), 4);
}

#[test]
fn plain_action_keeps_given_fields() {
    let mut mask = SigSet::empty();
    mask.add(SIGUSR1).unwrap();
    let action = SigAction::new(SIG_IGN(), SA_RESTART, mask);
    assert_eq!(action.handler(), 1);
    assert_eq!(action.flags(), 0x10000000);
    assert_eq!(action.mask(), mask);
    assert_eq!(SigAction::new(SIG_DFL(), 0, mask).handler(), 0);
    let raw = SigAction::from_raw(0x1234, 7, mask);
    assert_eq!(raw.handler(), 0x1234);
    assert_eq!(raw.flags(), 7);
}

#[test]
fn mask_how_values() {
    assert_eq!(SigMaskHow::SIG_BLOCK.as_raw(), 0);
    assert_eq!(SigMaskHow::SIG_UNBLOCK.as_raw(), 1);
    assert_eq!(SigMaskHow::SIG_SETMASK.as_raw(), 2);
}

#[test]
fn signal_info_fields() {
    let info = SigInfo::new(SIGQUIT, 0, -6);
    assert_eq!(info.signo(), 3);
    assert_eq!(info.errno(), 0);
    assert_eq!(info.code(), -6);
}

#[test]
fn negative_result_takes_last_error() {
    assert_eq!(sys_result(0, EAGAIN, 5), Ok(5));
    assert_eq!(sys_result(3, EAGAIN, ()), Ok(()));
    assert_eq!(sys_result(-1, EAGAIN, 5), Err(SysError { errno: EAGAIN }));
}

#[test]
fn direct_status_is_the_error() {
    assert_eq!(status_result(0), Ok(()));
    assert_eq!(status_result(3), Err(SysError::from_errno(3)));
    assert_eq!(status_result(3).unwrap_err().errno(), 3);
}
