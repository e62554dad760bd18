use vstd::prelude::*;
use vstd::string::StringExecFns;

verus! {

/// The dirfd value that means "relative to the calling process's current
/// working directory" in the `*at` syscall family, as it appears in an
/// argument register: -100 sign-extended to 64 bits.
pub const AT_CWD_SENTINEL: u64 = 0xFFFF_FFFF_FFFF_FF9C;

/// A tracee's register state at a syscall-entry stop, in an
/// architecture-neutral form: the syscall number and the six argument
/// registers, in the kernel's argument order.
#[derive(Clone, Copy, Debug)]
pub struct SyscallEntry {
    pub number: u64,
    pub args: [u64; 6],
}

/// How a syscall relates to the filesystem. The `path_arg` index names the
/// argument register that holds the user-space pointer to the path string;
/// `dirfd_arg` names the one holding the directory descriptor the path is
/// relative to. `Unresolved` marks a filesystem-mutating call whose path the
/// decoder does not recover from the registers; `Unknown` is everything else.
#[derive(Clone, Copy, Debug, PartialEq, Eq, Structural)]
pub enum SyscallClass {
    Modify { path_arg: usize },
    Create { path_arg: usize },
    Delete { path_arg: usize },
    ModifyAt { dirfd_arg: usize, path_arg: usize },
    Unresolved,
    Unknown,
}

/// The filesystem-mutating syscalls (x86_64 numbers) whose path argument the
/// decoder leaves unresolved: truncate, ftruncate, chdir, fchdir, mkdir,
/// rmdir, link, symlink, chmod through lchown, mknod, chroot, the xattr
/// family, the `*at` family apart from openat, and openat2.
pub open spec fn is_unresolved_mutator(n: u64) -> bool {
    ||| n == 76 || n == 77
    ||| n == 80 || n == 81
    ||| n == 83 || n == 84
    ||| n == 86 || n == 88
    ||| 90 <= n <= 94
    ||| n == 133
    ||| n == 161
    ||| 188 <= n <= 198
    ||| 258 <= n <= 260
    ||| 263 <= n <= 268
    ||| n == 437
}

/// The decoder's syscall table (x86_64 numbers): open is a modification with
/// the path in argument 0, creat a creation, unlink a deletion, openat a
/// modification relative to the descriptor in argument 0 with the path in
/// argument 1.
pub open spec fn classification_of(n: u64) -> SyscallClass {
    if n == 2 {
        SyscallClass::Modify { path_arg: 0 }
    } else if n == 85 {
        SyscallClass::Create { path_arg: 0 }
    } else if n == 87 {
        SyscallClass::Delete { path_arg: 0 }
    } else if n == 257 {
        SyscallClass::ModifyAt { dirfd_arg: 0, path_arg: 1 }
    } else if is_unresolved_mutator(n) {
        SyscallClass::Unresolved
    } else {
        SyscallClass::Unknown
    }
}

/// Classify a syscall number against the decoder's table.
pub fn classify(number: u64) -> (c: SyscallClass)
    ensures
        c == classification_of(number),
{
    if number == 2 {
        SyscallClass::Modify { path_arg: 0 }
    } else if number == 85 {
        SyscallClass::Create { path_arg: 0 }
    } else if number == 87 {
        SyscallClass::Delete { path_arg: 0 }
    } else if number == 257 {
        SyscallClass::ModifyAt { dirfd_arg: 0, path_arg: 1 }
    } else if number == 76 || number == 77 || number == 80 || number == 81 || number == 83
        || number == 84 || number == 86 || number == 88 || (90 <= number && number <= 94)
        || number == 133 || number == 161 || (188 <= number && number <= 198)
        || (258 <= number && number <= 260) || (263 <= number && number <= 268)
        || number == 437 {
        SyscallClass::Unresolved
    } else {
        SyscallClass::Unknown
    }
}

/// The kind of change a mutating syscall announces for its path.
#[derive(Clone, Copy, Debug, PartialEq, Eq, Structural)]
pub enum ChangeKind {
    Created,
    Deleted,
    Changed,
}

/// What the tracer driver must do at one syscall-entry stop. `Skip` covers
/// syscalls that are not filesystem-mutating as well as unrecognised numbers
/// (a decode error is benign). For `Snapshot`, the driver reads the string at
/// the pointer in `args[path_arg]`, resolves it against the tracee's working
/// directory and backs the file up. For `SnapshotAt`, the path is instead
/// relative to `dirfd` (the working directory when `dirfd` is the sentinel,
/// else the directory that descriptor refers to). For `Mark`, the mutation's
/// path is unresolved and only the syscall number is reported.
#[derive(Clone, Copy, Debug, PartialEq, Eq, Structural)]
pub enum SniffAction {
    Skip,
    Snapshot { kind: ChangeKind, path_arg: usize },
    SnapshotAt { dirfd: u64, path_arg: usize },
    Mark { number: u64 },
}

/// The action owed for a syscall-entry register state, as a function of the
/// decoder's table.
pub open spec fn action_of(number: u64, args: Seq<u64>) -> SniffAction {
    match classification_of(number) {
        SyscallClass::Modify { path_arg } => SniffAction::Snapshot {
            kind: ChangeKind::Changed,
            path_arg,
        },
        SyscallClass::Create { path_arg } => SniffAction::Snapshot {
            kind: ChangeKind::Created,
            path_arg,
        },
        SyscallClass::Delete { path_arg } => SniffAction::Snapshot {
            kind: ChangeKind::Deleted,
            path_arg,
        },
        SyscallClass::ModifyAt { dirfd_arg, path_arg } => SniffAction::SnapshotAt {
            dirfd: args[dirfd_arg as int],
            path_arg,
        },
        SyscallClass::Unresolved => SniffAction::Mark { number },
        SyscallClass::Unknown => SniffAction::Skip,
    }
}

/// Decode one syscall-entry stop: say what the driver must do before it lets
/// the syscall proceed.
pub fn sniff(entry: &SyscallEntry) -> (a: SniffAction)
    ensures
        a == action_of(entry.number, entry.args@),
{
    match classify(entry.number) {
        SyscallClass::Modify { path_arg } => SniffAction::Snapshot {
            kind: ChangeKind::Changed,
            path_arg,
        },
        SyscallClass::Create { path_arg } => SniffAction::Snapshot {
            kind: ChangeKind::Created,
            path_arg,
        },
        SyscallClass::Delete { path_arg } => SniffAction::Snapshot {
            kind: ChangeKind::Deleted,
            path_arg,
        },
        SyscallClass::ModifyAt { dirfd_arg, path_arg } => SniffAction::SnapshotAt {
            dirfd: entry.args[dirfd_arg],
            path_arg,
        },
        SyscallClass::Unresolved => SniffAction::Mark { number: entry.number },
        SyscallClass::Unknown => SniffAction::Skip,
    }
}

/// The character for one decimal digit.
pub open spec fn digit_char(d: int) -> char {
    if d == 0 { '0' }
    else if d == 1 { '1' }
    else if d == 2 { '2' }
    else if d == 3 { '3' }
    else if d == 4 { '4' }
    else if d == 5 { '5' }
    else if d == 6 { '6' }
    else if d == 7 { '7' }
    else if d == 8 { '8' }
    else { '9' }
}

/// The decimal notation of a number, most significant digit first.
pub open spec fn dec_digits(n: nat) -> Seq<char>
    decreases n,
{
    if n < 10 {
        seq![digit_char(n as int)]
    } else {
        dec_digits(n / 10).push(digit_char((n % 10) as int))
    }
}

/// Relies on String::push: appends exactly the given character.
#[verifier::external_body]
fn push_char(s: &mut String, c: char)
    ensures
        final(s)@ == old(s)@.push(c),
{
    s.push(c);
}

fn digit_of(d: u64) -> (c: char)
    requires
        d < 10,
    ensures
        c == digit_char(d as int),
{
    if d == 0 { '0' }
    else if d == 1 { '1' }
    else if d == 2 { '2' }
    else if d == 3 { '3' }
    else if d == 4 { '4' }
    else if d == 5 { '5' }
    else if d == 6 { '6' }
    else if d == 7 { '7' }
    else if d == 8 { '8' }
    else { '9' }
}

/// Write a number in decimal, for marks whose path stays unresolved.
pub fn u64_to_decimal(n: u64) -> (r: String)
    ensures
        r@ == dec_digits(n as nat),
    decreases n,
{
    if n < 10 {
        let mut s = String::new();
        push_char(&mut s, digit_of(n));
        s
    } else {
        let mut s = u64_to_decimal(n / 10);
        push_char(&mut s, digit_of(n % 10));
        s
    }
}

/// The change reported for a filesystem-mutating syscall whose path the
/// decoder leaves unresolved: a modification marked with the syscall's
/// number in place of a path.
pub fn mark_change(number: u64) -> (c: Change)
    ensures
        c matches Change::Changed(p) && p@ == dec_digits(number as nat),
{
    Change::Changed(u64_to_decimal(number))
}

/// Does this dirfd argument mean "relative to the current working
/// directory"?
pub fn dirfd_is_cwd(dirfd: u64) -> (r: bool)
    ensures
        r == (dirfd == AT_CWD_SENTINEL),
{
    dirfd == AT_CWD_SENTINEL
}

/// A filesystem change observed on the tracee, carrying the affected path.
#[derive(Debug)]
pub enum Change {
    Created(String),
    Deleted(String),
    Changed(String),
}

/// The path a change speaks of.
pub open spec fn change_path(c: Change) -> Seq<char> {
    match c {
        Change::Created(p) => p@,
        Change::Deleted(p) => p@,
        Change::Changed(p) => p@,
    }
}

/// The one-line report for a change.
pub open spec fn change_text(c: Change) -> Seq<char> {
    match c {
        Change::Created(p) => "File created: "@ + p@,
        Change::Deleted(p) => "File deleted: "@ + p@,
        Change::Changed(p) => "File changed: "@ + p@,
    }
}

impl Change {
    /// Wrap a resolved path in the change the decoder announced for it.
    pub fn of_kind(kind: ChangeKind, path: String) -> (c: Change)
        ensures
            c == match kind {
                ChangeKind::Created => Change::Created(path),
                ChangeKind::Deleted => Change::Deleted(path),
                ChangeKind::Changed => Change::Changed(path),
            },
    {
        match kind {
            ChangeKind::Created => Change::Created(path),
            ChangeKind::Deleted => Change::Deleted(path),
            ChangeKind::Changed => Change::Changed(path),
        }
    }

    /// The affected path.
    pub fn path(&self) -> (r: &String)
        ensures
            r@ == change_path(*self),
    {
        match self {
            Change::Created(p) => p,
            Change::Deleted(p) => p,
            Change::Changed(p) => p,
        }
    }

    /// The one-line report, for the caller to print.
    pub fn describe(&self) -> (r: String)
        ensures
            r@ == change_text(*self),
    {
        match self {
            Change::Created(p) => String::from_str("File created: ").concat(p.as_str()),
            Change::Deleted(p) => String::from_str("File deleted: ").concat(p.as_str()),
            Change::Changed(p) => String::from_str("File changed: ").concat(p.as_str()),
        }
    }
}

} // verus!
