//! Which standard stream or device backs the terminal, whether its handle is
//! borrowed or owned, and which standard streams the terminal aliases.
use crate::stdio::{StdStream, StdioFlags};
use vstd::prelude::*;

verus! {

/// Where the terminal's handle comes from.
#[derive(Debug, Clone, Copy, PartialEq, Eq, Structural)]
pub enum Origin {
    /// The standard stream's own descriptor or handle, borrowed: never closed here.
    Borrowed(StdStream),
    /// The device behind the standard stream, opened anew: owned and closed on release.
    Reopened(StdStream),
    /// The device opened by name (`/dev/tty`, `CONIN$`, `CONOUT$`): owned and closed on release.
    Device,
}

impl Origin {
    pub open spec fn owns_handle(self) -> bool {
        !(self is Borrowed)
    }

    /// Whether the handle is closed when the terminal is released.
    pub fn is_owned(&self) -> (r: bool)
        ensures
            r == self.owns_handle(),
    {
        match self {
            Origin::Borrowed(_) => false,
            _ => true,
        }
    }
}

/// The order in which the standard streams are tested on Unix.
pub open spec fn unix_probe_order() -> Seq<StdStream> {
    seq![StdStream::Stderr, StdStream::Stdin, StdStream::Stdout]
}

/// The standard stream tested for the console's input buffer on Windows.
pub open spec fn input_probe_order() -> Seq<StdStream> {
    seq![StdStream::Stdin]
}

/// The order in which the standard streams are tested for the console's
/// screen buffer on Windows.
pub open spec fn screen_probe_order() -> Seq<StdStream> {
    seq![StdStream::Stderr, StdStream::Stdout]
}

/// `r` is the first stream in `order` that is a terminal, or `None` when none is.
pub open spec fn is_first_terminal(
    order: Seq<StdStream>,
    is_terminal: StdioFlags,
    r: Option<StdStream>,
) -> bool {
    match r {
        None => forall|i: int| 0 <= i < order.len() ==> !is_terminal.flag(#[trigger] order[i]),
        Some(s) => exists|i: int|
            0 <= i < order.len() && #[trigger] order[i] == s && is_terminal.flag(s) && forall|j: int|
                0 <= j < i ==> !is_terminal.flag(#[trigger] order[j]),
    }
}

fn first_terminal(order: &Vec<StdStream>, is_terminal: &StdioFlags) -> (r: Option<StdStream>)
    ensures
        is_first_terminal(order@, *is_terminal, r),
{
    let mut i: usize = 0;
    while i < order.len()
        invariant
            i <= order@.len(),
            forall|j: int| 0 <= j < i ==> !is_terminal.flag(#[trigger] order@[j]),
        decreases order@.len() - i,
    {
        let s = order[i];
        if is_terminal.get(s) {
            assert(order@[i as int] == s);
            return Some(s);
        }
        i = i + 1;
    }
    None
}

/// The standard stream whose terminal is reused on Unix: the first of
/// standard error, standard input and standard output that is a terminal.
pub fn select_candidate(is_terminal: &StdioFlags) -> (r: Option<StdStream>)
    ensures
        is_first_terminal(unix_probe_order(), *is_terminal, r),
{
    let order = vec![StdStream::Stderr, StdStream::Stdin, StdStream::Stdout];
    assert(order@ == unix_probe_order());
    first_terminal(&order, is_terminal)
}

/// Whether a descriptor's status flags grant both reading and writing, given
/// the platform's read-write access bits.
pub fn is_read_write(status_flags: i32, read_write_bits: i32) -> (r: bool)
    ensures
        r == (status_flags & read_write_bits == read_write_bits),
{
    status_flags & read_write_bits == read_write_bits
}

pub open spec fn reuse_spec(stream: StdStream, read_write: bool) -> Origin {
    if read_write {
        Origin::Borrowed(stream)
    } else {
        Origin::Reopened(stream)
    }
}

/// How a terminal-backed standard stream is reused on Unix: a stream open for
/// reading and writing lends its descriptor; any other has its terminal
/// reopened for reading and writing.
pub fn reuse_or_reopen(stream: StdStream, read_write: bool) -> (r: Origin)
    ensures
        r == reuse_spec(stream, read_write),
{
    if read_write {
        Origin::Borrowed(stream)
    } else {
        Origin::Reopened(stream)
    }
}

pub open spec fn unix_origin_spec(candidate: Option<StdStream>, candidate_read_write: bool) -> Origin {
    match candidate {
        None => Origin::Device,
        Some(s) => reuse_spec(s, candidate_read_write),
    }
}

/// The origin of the terminal on Unix, from the candidate stream and whether
/// that stream is open for reading and writing: with no candidate, the
/// controlling terminal is opened by name.
pub fn unix_origin(candidate: Option<StdStream>, candidate_read_write: bool) -> (r: Origin)
    ensures
        r == unix_origin_spec(candidate, candidate_read_write),
{
    match candidate {
        None => Origin::Device,
        Some(s) => reuse_or_reopen(s, candidate_read_write),
    }
}

/// Every terminal that resolution yields can be read and written: it is
/// either opened here for reading and writing (reopened, or the device by
/// name), or borrowed from the first terminal-backed stream, which is then
/// open for reading and writing.
pub proof fn lemma_resolved_terminal_is_read_write(
    is_terminal: StdioFlags,
    candidate: Option<StdStream>,
    candidate_read_write: bool,
)
    requires
        is_first_terminal(unix_probe_order(), is_terminal, candidate),
    ensures
        unix_origin_spec(candidate, candidate_read_write) matches Origin::Borrowed(s)
            ==> candidate_read_write && candidate == Some(s) && is_terminal.flag(s),
{
}

/// The origin of a console buffer on Windows: the first terminal-backed
/// stream of `order`, borrowed, or else the device opened by name.
pub open spec fn console_origin_spec(order: Seq<StdStream>, is_terminal: StdioFlags, r: Origin) -> bool {
    match r {
        Origin::Borrowed(s) => is_first_terminal(order, is_terminal, Some(s)),
        Origin::Device => is_first_terminal(order, is_terminal, None),
        Origin::Reopened(_) => false,
    }
}

fn console_origin(order: &Vec<StdStream>, is_terminal: &StdioFlags) -> (r: Origin)
    ensures
        console_origin_spec(order@, *is_terminal, r),
{
    match first_terminal(order, is_terminal) {
        Some(s) => Origin::Borrowed(s),
        None => Origin::Device,
    }
}

/// The origin of the console's input buffer on Windows: standard input if it
/// is a terminal, else `CONIN$`.
pub fn input_buffer_origin(is_terminal: &StdioFlags) -> (r: Origin)
    ensures
        console_origin_spec(input_probe_order(), *is_terminal, r),
{
    let order = vec![StdStream::Stdin];
    assert(order@ == input_probe_order());
    console_origin(&order, is_terminal)
}

/// The origin of the console's screen buffer on Windows: standard error or
/// else standard output if one is a terminal, else `CONOUT$`.
pub fn screen_buffer_origin(is_terminal: &StdioFlags) -> (r: Origin)
    ensures
        console_origin_spec(screen_probe_order(), *is_terminal, r),
{
    let order = vec![StdStream::Stderr, StdStream::Stdout];
    assert(order@ == screen_probe_order());
    console_origin(&order, is_terminal)
}

/// What identifies an open file: its descriptor number, and the device and
/// inode that the descriptor refers to.
#[derive(Debug, Clone, Copy, PartialEq, Eq, Structural)]
pub struct FileIdentity {
    pub fd: i32,
    pub dev: u64,
    pub ino: u64,
}

/// Two descriptors refer to the same file when they are the same descriptor,
/// or when they refer to the same device and inode.
pub open spec fn same_file(a: FileIdentity, b: FileIdentity) -> bool {
    a.fd == b.fd || (a.dev == b.dev && a.ino == b.ino)
}

pub fn is_same_file(a: &FileIdentity, b: &FileIdentity) -> (r: bool)
    ensures
        r == same_file(*a, *b),
{
    a.fd == b.fd || (a.dev == b.dev && a.ino == b.ino)
}

/// The identities of the three standard streams.
#[derive(Debug, Clone, Copy, PartialEq, Eq, Structural)]
pub struct StdioIdentities {
    pub stdin: FileIdentity,
    pub stdout: FileIdentity,
    pub stderr: FileIdentity,
}

impl StdioIdentities {
    pub open spec fn of(self, s: StdStream) -> FileIdentity {
        match s {
            StdStream::Stdin => self.stdin,
            StdStream::Stdout => self.stdout,
            StdStream::Stderr => self.stderr,
        }
    }

    pub fn get(&self, s: StdStream) -> (r: FileIdentity)
        ensures
            r == self.of(s),
    {
        match s {
            StdStream::Stdin => self.stdin,
            StdStream::Stdout => self.stdout,
            StdStream::Stderr => self.stderr,
        }
    }
}

/// The standard streams that refer to the same file as the terminal.
pub open spec fn aliases_spec(terminal: FileIdentity, stdio: StdioIdentities) -> StdioFlags {
    StdioFlags {
        stdin: same_file(terminal, stdio.stdin),
        stdout: same_file(terminal, stdio.stdout),
        stderr: same_file(terminal, stdio.stderr),
    }
}

pub fn aliases_of(terminal: &FileIdentity, stdio: &StdioIdentities) -> (r: StdioFlags)
    ensures
        r == aliases_spec(*terminal, *stdio),
        forall|s: StdStream| r.flag(s) == same_file(*terminal, #[trigger] stdio.of(s)),
{
    StdioFlags {
        stdin: is_same_file(terminal, &stdio.stdin),
        stdout: is_same_file(terminal, &stdio.stdout),
        stderr: is_same_file(terminal, &stdio.stderr),
    }
}

/// The resolved terminal: where its handle comes from, and which standard
/// streams refer to the same file.
#[derive(Debug, Clone, Copy, PartialEq, Eq, Structural)]
pub struct Resolution {
    pub origin: Origin,
    pub aliases: StdioFlags,
}

impl Resolution {
    /// A device opened by name aliases no standard stream; a borrowed stream
    /// is aliased by the terminal.
    pub open spec fn wf(self) -> bool {
        &&& self.origin is Device ==> forall|s: StdStream| !self.aliases.flag(s)
        &&& self.origin matches Origin::Borrowed(s) ==> self.aliases.flag(s)
    }

    pub open spec fn borrowed_spec(stream: StdStream, stdio: StdioIdentities) -> Resolution {
        Resolution { origin: Origin::Borrowed(stream), aliases: aliases_spec(stdio.of(stream), stdio) }
    }

    pub open spec fn reopened_spec(
        stream: StdStream,
        terminal: FileIdentity,
        stdio: StdioIdentities,
    ) -> Resolution {
        Resolution { origin: Origin::Reopened(stream), aliases: aliases_spec(terminal, stdio) }
    }

    /// The terminal of the controlling device, opened by name.
    pub fn controlling() -> (r: Resolution)
        ensures
            r.origin == Origin::Device,
            forall|s: StdStream| !r.aliases.flag(s),
            r.wf(),
    {
        Resolution { origin: Origin::Device, aliases: StdioFlags::none() }
    }

    /// The terminal that borrows the descriptor of `stream`.
    pub fn borrowed(stream: StdStream, stdio: &StdioIdentities) -> (r: Resolution)
        ensures
            r == Resolution::borrowed_spec(stream, *stdio),
            r.wf(),
    {
        let terminal = stdio.get(stream);
        Resolution { origin: Origin::Borrowed(stream), aliases: aliases_of(&terminal, stdio) }
    }

    /// The terminal reopened from the device of `stream`, with the identity
    /// of the new descriptor.
    pub fn reopened(stream: StdStream, terminal: &FileIdentity, stdio: &StdioIdentities) -> (r:
        Resolution)
        ensures
            r == Resolution::reopened_spec(stream, *terminal, *stdio),
            r.wf(),
    {
        Resolution { origin: Origin::Reopened(stream), aliases: aliases_of(terminal, stdio) }
    }

    /// Whether the terminal's handle is closed when the terminal is released.
    pub fn owns_handle(&self) -> (r: bool)
        ensures
            r == self.origin.owns_handle(),
    {
        self.origin.is_owned()
    }
}

/// A standard stream that is the first terminal in the probe order and is
/// open for reading and writing is reused without a second descriptor: its
/// descriptor is borrowed, not owned, and the resolved terminal aliases it.
pub proof fn lemma_read_write_stream_is_aliased(
    is_terminal: StdioFlags,
    stream: StdStream,
    stdio: StdioIdentities,
)
    requires
        is_first_terminal(unix_probe_order(), is_terminal, Some(stream)),
    ensures
        unix_origin_spec(Some(stream), true) == Origin::Borrowed(stream),
        !unix_origin_spec(Some(stream), true).owns_handle(),
        Resolution::borrowed_spec(stream, stdio).aliases.flag(stream),
        Resolution::borrowed_spec(stream, stdio).wf(),
{
}

/// A stream that is reopened is aliased by the terminal when the new
/// descriptor refers to the same device and inode.
pub proof fn lemma_reopened_stream_is_aliased(
    stream: StdStream,
    terminal: FileIdentity,
    stdio: StdioIdentities,
)
    requires
        terminal.dev == stdio.of(stream).dev,
        terminal.ino == stdio.of(stream).ino,
    ensures
        Resolution::reopened_spec(stream, terminal, stdio).aliases.flag(stream),
{
}

/// The path of the controlling terminal on Unix.
pub fn controlling_terminal_path() -> (r: &'static str)
    ensures
        r@ == "/dev/tty"@,
{
    "/dev/tty"
}

/// The name of the console's input buffer on Windows.
pub fn console_input_name() -> (r: &'static str)
    ensures
        r@ == "CONIN$"@,
{
    "CONIN$"
}

/// The name of the console's screen buffer on Windows.
pub fn console_screen_name() -> (r: &'static str)
    ensures
        r@ == "CONOUT$"@,
{
    "CONOUT$"
}

} // verus!
