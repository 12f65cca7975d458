//! Signal numbers, signal sets, signal actions and the values exchanged with
//! the signal system calls, laid out as on Linux (x86, x86_64, ARM).
use vstd::prelude::*;

use crate::errno::{EINVAL, SysError, SysResult};

verus! {

pub type SigNum = i32;

pub const SIGHUP: SigNum = 1;
pub const SIGINT: SigNum = 2;
pub const SIGQUIT: SigNum = 3;
pub const SIGILL: SigNum = 4;
pub const SIGTRAP: SigNum = 5;
pub const SIGABRT: SigNum = 6;
pub const SIGIOT: SigNum = 6;
pub const SIGBUS: SigNum = 7;
pub const SIGFPE: SigNum = 8;
pub const SIGKILL: SigNum = 9;
pub const SIGUSR1: SigNum = 10;
pub const SIGSEGV: SigNum = 11;
pub const SIGUSR2: SigNum = 12;
pub const SIGPIPE: SigNum = 13;
pub const SIGALRM: SigNum = 14;
pub const SIGTERM: SigNum = 15;
pub const SIGSTKFLT: SigNum = 16;
pub const SIGCHLD: SigNum = 17;
pub const SIGCONT: SigNum = 18;
pub const SIGSTOP: SigNum = 19;
pub const SIGTSTP: SigNum = 20;
pub const SIGTTIN: SigNum = 21;
pub const SIGTTOU: SigNum = 22;
pub const SIGURG: SigNum = 23;
pub const SIGXCPU: SigNum = 24;
pub const SIGXFSZ: SigNum = 25;
pub const SIGVTALRM: SigNum = 26;
pub const SIGPROF: SigNum = 27;
pub const SIGWINCH: SigNum = 28;
pub const SIGIO: SigNum = 29;
pub const SIGPOLL: SigNum = 29;
pub const SIGPWR: SigNum = 30;
pub const SIGSYS: SigNum = 31;
pub const SIGUNUSED: SigNum = 31;

/// Not defined everywhere; where it is, it is 7.
pub const SIGEMT: SigNum = 7;

/// One more than the largest signal number the kernel knows.
pub const NSIG: SigNum = 65;

/// Flags of a signal action (`sa_flags`).
pub type SockFlag = u64;

pub const SA_NOCLDSTOP: SockFlag = 0x00000001;
pub const SA_NOCLDWAIT: SockFlag = 0x00000002;
pub const SA_SIGINFO: SockFlag = 0x00000004;
pub const SA_ONSTACK: SockFlag = 0x08000000;
pub const SA_RESTART: SockFlag = 0x10000000;
pub const SA_NODEFER: SockFlag = 0x40000000;
pub const SA_RESETHAND: SockFlag = 0x80000000;

/// The signal numbers that a signal set can hold.
pub open spec fn valid_signal(s: int) -> bool {
    1 <= s < NSIG
}

/// Whether bit `i` of `m` is set.
pub open spec fn bit_set(m: u64, i: u64) -> bool {
    (m >> i) & 1u64 == 1u64
}

proof fn lemma_bit_insert(m: u64, a: u64, b: u64)
    requires
        a < 64,
        b < 64,
    ensures
        bit_set(m | (1u64 << a), b) == (bit_set(m, b) || a == b),
{
    assert(((m | (1u64 << a)) >> b) & 1u64 == 1u64 <==> (((m >> b) & 1u64 == 1u64) || a == b))
        by (bit_vector)
        requires
            a < 64,
            b < 64,
    ;
}

proof fn lemma_bit_erase(m: u64, a: u64, b: u64)
    requires
        a < 64,
        b < 64,
    ensures
        bit_set(m & !(1u64 << a), b) == (bit_set(m, b) && a != b),
{
    assert(((m & !(1u64 << a)) >> b) & 1u64 == 1u64 <==> (((m >> b) & 1u64 == 1u64) && a != b))
        by (bit_vector)
        requires
            a < 64,
            b < 64,
    ;
}

proof fn lemma_bits_full_empty(b: u64)
    requires
        b < 64,
    ensures
        bit_set(0xffff_ffff_ffff_ffffu64, b),
        !bit_set(0u64, b),
{
    assert((0xffff_ffff_ffff_ffffu64 >> b) & 1u64 == 1u64) by (bit_vector)
        requires
            b < 64,
    ;
    assert((0u64 >> b) & 1u64 != 1u64) by (bit_vector);
}

/// A set of signals: bit `s - 1` of the mask stands for signal `s`.
#[derive(Clone, Copy, Debug, PartialEq, Eq, Structural, Hash)]
pub struct SigSet {
    sigset: u64,
}

impl View for SigSet {
    type V = Set<int>;

    closed spec fn view(&self) -> Set<int> {
        Set::new(|s: int| valid_signal(s) && bit_set(self.sigset, (s - 1) as u64))
    }
}

impl SigSet {
    /// The raw mask, as it is handed to the system calls.
    pub closed spec fn spec_inner(&self) -> u64 {
        self.sigset
    }

    pub fn empty() -> (r: SigSet)
        ensures
            r@ == Set::<int>::empty(),
    {
        let r = SigSet { sigset: 0 };
        assert forall|s: int| !r@.contains(s) by {
            if valid_signal(s) {
                lemma_bits_full_empty((s - 1) as u64);
            }
        }
        assert(r@ =~= Set::<int>::empty());
        r
    }

    pub fn all() -> (r: SigSet)
        ensures
            r@ == Set::new(|s: int| valid_signal(s)),
    {
        let r = SigSet { sigset: 0xffff_ffff_ffff_ffff };
        assert forall|s: int| valid_signal(s) implies r@.contains(s) by {
            lemma_bits_full_empty((s - 1) as u64);
        }
        assert(r@ =~= Set::new(|s: int| valid_signal(s)));
        r
    }

    pub fn inner(&self) -> (r: u64)
        ensures
            r == self.spec_inner(),
    {
        self.sigset
    }

    /// The set whose raw mask is `sigset`, such as one the kernel handed back.
    pub fn from_inner(sigset: u64) -> (r: SigSet)
        ensures
            r.spec_inner() == sigset,
            forall|s: int| valid_signal(s) ==> (r@.contains(s) <==> bit_set(sigset, (s - 1) as u64)),
    {
        SigSet { sigset }
    }

    pub fn contains(&self, signum: SigNum) -> (r: bool)
        ensures
            r == self@.contains(signum as int),
    {
        if 1 <= signum && signum < NSIG {
            (self.sigset >> ((signum - 1) as u64)) & 1 == 1
        } else {
            false
        }
    }

    pub fn add(&mut self, signum: SigNum) -> (r: SysResult<()>)
        ensures
            valid_signal(signum as int) ==> r is Ok && final(self)@ == old(self)@.insert(signum as int),
            !valid_signal(signum as int) ==> r == Err::<(), SysError>(SysError { errno: EINVAL })
                && *final(self) == *old(self),
    {
        if signum < 1 || signum >= NSIG {
            return Err(SysError { errno: EINVAL });
        }
        let ghost before = *self;
        let a = (signum - 1) as u64;
        self.sigset = self.sigset | (1u64 << a);
        assert forall|s: int| #[trigger] self@.contains(s) == before@.insert(signum as int).contains(s) by {
            if valid_signal(s) {
                lemma_bit_insert(before.sigset, a, (s - 1) as u64);
            }
        }
        assert(self@ =~= before@.insert(signum as int));
        Ok(())
    }

    pub fn remove(&mut self, signum: SigNum) -> (r: SysResult<()>)
        ensures
            valid_signal(signum as int) ==> r is Ok && final(self)@ == old(self)@.remove(signum as int),
            !valid_signal(signum as int) ==> r == Err::<(), SysError>(SysError { errno: EINVAL })
                && *final(self) == *old(self),
    {
        if signum < 1 || signum >= NSIG {
            return Err(SysError { errno: EINVAL });
        }
        let ghost before = *self;
        let a = (signum - 1) as u64;
        self.sigset = self.sigset & !(1u64 << a);
        assert forall|s: int| #[trigger] self@.contains(s) == before@.remove(signum as int).contains(s) by {
            if valid_signal(s) {
                lemma_bit_erase(before.sigset, a, (s - 1) as u64);
            }
        }
        assert(self@ =~= before@.remove(signum as int));
        Ok(())
    }
}

/// Adding a valid signal to any set makes it a member, and removing it
/// afterwards makes it absent again, leaving every other signal as it was.
pub proof fn law_add_then_remove(set: SigSet, s: int)
    requires
        valid_signal(s),
    ensures
        set@.insert(s).contains(s),
        !set@.insert(s).remove(s).contains(s),
        forall|t: int| t != s ==> (set@.insert(s).remove(s).contains(t) <==> set@.contains(t)),
{
}

/// How `pthread_sigmask` combines the given set with the thread's mask.
#[derive(Clone, Copy, Debug, PartialEq, Eq, Structural, Hash)]
#[allow(non_camel_case_types)]
pub enum SigMaskHow {
    SIG_BLOCK,
    SIG_UNBLOCK,
    SIG_SETMASK,
}

impl SigMaskHow {
    /// The value the system call expects.
    pub fn as_raw(self) -> (r: i32)
        ensures
            self == SigMaskHow::SIG_BLOCK ==> r == 0,
            self == SigMaskHow::SIG_UNBLOCK ==> r == 1,
            self == SigMaskHow::SIG_SETMASK ==> r == 2,
    {
        match self {
            SigMaskHow::SIG_BLOCK => 0,
            SigMaskHow::SIG_UNBLOCK => 1,
            SigMaskHow::SIG_SETMASK => 2,
        }
    }
}

/// A plain signal handler, by the address of its code. Address 0 is the
/// default action and address 1 means "ignore".
#[derive(Clone, Copy, Debug, PartialEq, Eq, Structural, Hash)]
pub struct SigHandler {
    pub addr: usize,
}

/// A handler that also receives the signal's information record.
#[derive(Clone, Copy, Debug, PartialEq, Eq, Structural, Hash)]
pub struct SigInfoHandler {
    pub addr: usize,
}

/// The default action for the signal.
#[allow(non_snake_case)]
pub fn SIG_DFL() -> (r: SigHandler)
    ensures
        r.addr == 0,
{
    SigHandler { addr: 0 }
}

/// Ignore the signal.
#[allow(non_snake_case)]
pub fn SIG_IGN() -> (r: SigHandler)
    ensures
        r.addr == 1,
{
    SigHandler { addr: 1 }
}

/// Ignore the signal, in the form that goes with `SA_SIGINFO`.
#[allow(non_snake_case)]
pub fn SIG_IGN_INFO() -> (r: SigInfoHandler)
    ensures
        r.addr == 1,
{
    SigInfoHandler { addr: 1 }
}

/// A complete signal action record: handler, flags and the signals blocked
/// while the handler runs. Every field is set by each constructor.
#[derive(Clone, Copy, Debug, PartialEq, Eq, Structural, Hash)]
pub struct SigAction {
    handler: usize,
    flags: SockFlag,
    mask: SigSet,
}

impl SigAction {
    pub closed spec fn spec_handler(&self) -> usize {
        self.handler
    }

    pub closed spec fn spec_flags(&self) -> SockFlag {
        self.flags
    }

    pub closed spec fn spec_mask(&self) -> SigSet {
        self.mask
    }

    pub fn new(handler: SigHandler, flags: SockFlag, mask: SigSet) -> (r: SigAction)
        ensures
            r.spec_handler() == handler.addr,
            r.spec_flags() == flags,
            r.spec_mask() == mask,
    {
        SigAction { handler: handler.addr, flags, mask }
    }

    /// An action with an information-receiving handler; `SA_SIGINFO` is
    /// always added to `flags`, since that handler form requires it.
    pub fn new_info(handler: SigInfoHandler, flags: SockFlag, mask: SigSet) -> (r: SigAction)
        ensures
            r.spec_handler() == handler.addr,
            r.spec_flags() == flags | SA_SIGINFO,
            r.spec_mask() == mask,
    {
        SigAction { handler: handler.addr, flags: flags | SA_SIGINFO, mask }
    }

    /// The action exactly as the kernel reported it.
    pub fn from_raw(handler: usize, flags: SockFlag, mask: SigSet) -> (r: SigAction)
        ensures
            r.spec_handler() == handler,
            r.spec_flags() == flags,
            r.spec_mask() == mask,
    {
        SigAction { handler, flags, mask }
    }

    pub fn handler(&self) -> (r: usize)
        ensures
            r == self.spec_handler(),
    {
        self.handler
    }

    pub fn flags(&self) -> (r: SockFlag)
        ensures
            r == self.spec_flags(),
    {
        self.flags
    }

    pub fn mask(&self) -> (r: SigSet)
        ensures
            r == self.spec_mask(),
    {
        self.mask
    }
}

/// What a synchronous wait learned of the signal it consumed.
#[derive(Clone, Copy, Debug, PartialEq, Eq, Structural, Hash)]
pub struct SigInfo {
    signo: i32,
    errno: i32,
    code: i32,
}

impl SigInfo {
    pub closed spec fn spec_signo(&self) -> i32 {
        self.signo
    }

    pub closed spec fn spec_errno(&self) -> i32 {
        self.errno
    }

    pub closed spec fn spec_code(&self) -> i32 {
        self.code
    }

    pub fn new(signo: i32, errno: i32, code: i32) -> (r: SigInfo)
        ensures
            r.spec_signo() == signo,
            r.spec_errno() == errno,
            r.spec_code() == code,
    {
        SigInfo { signo, errno, code }
    }

    pub fn signo(&self) -> (r: i32)
        ensures
            r == self.spec_signo(),
    {
        self.signo
    }

    pub fn errno(&self) -> (r: i32)
        ensures
            r == self.spec_errno(),
    {
        self.errno
    }

    pub fn code(&self) -> (r: i32)
        ensures
            r == self.spec_code(),
    {
        self.code
    }
}

} // verus!
