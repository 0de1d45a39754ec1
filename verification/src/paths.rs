//! Where the runtime files live.
//!
//! The active snapshot, the hand-off file, the socket and the singleton lock
//! stand in one private directory: `$XDG_RUNTIME_DIR/oxiwake` on Linux,
//! `%LOCALAPPDATA%\Freeoxide\Oxiwake` on Windows. Neither variable has a
//! default: where it is unset, or is not an absolute path, there is no directory,
//! and no guess is made. So every path here is absolute.
//!
//! Paths are byte strings in the platform's own encoding, which agrees with
//! ASCII on every separator and every name used here.

use crate::error::{ErrorView, OxiwakeError, Result};
use crate::platform::Platform;
use crate::text::{decimal, decimal_is_injective, decimal_text};
use vstd::prelude::*;
use vstd::string::*;
use vstd::utf8::is_ascii_chars;

verus! {

/// A set of well-known runtime files.
#[derive(Debug)]
pub struct Paths {
    /// The runtime directory itself.
    pub dir: Vec<u8>,
    /// `dir/state.json`: the snapshot that a daemon keeps.
    pub state: Vec<u8>,
    /// `dir/oxiwake.sock`: the socket that a daemon listens on.
    pub socket: Vec<u8>,
    /// `dir/pending.json`: the request handed to a fresh daemon.
    pub pending: Vec<u8>,
    /// `dir/oxiwake.lock`: the singleton lock that a daemon holds for its whole
    /// life.
    pub lock: Vec<u8>,
}

/// What a [`Paths`] says.
#[verifier::ext_equal]
pub struct PathsView {
    pub dir: Seq<u8>,
    pub state: Seq<u8>,
    pub socket: Seq<u8>,
    pub pending: Seq<u8>,
    pub lock: Seq<u8>,
}

impl View for Paths {
    type V = PathsView;

    open spec fn view(&self) -> PathsView {
        PathsView {
            dir: self.dir@,
            state: self.state@,
            socket: self.socket@,
            pending: self.pending@,
            lock: self.lock@,
        }
    }
}

/// A copy of a path.
fn copy_path(path: &Vec<u8>) -> (r: Vec<u8>)
    ensures
        r@ == path@,
{
    let mut out: Vec<u8> = Vec::new();
    out.extend_from_slice(path.as_slice());
    assert(out@ =~= path@);
    out
}

impl Clone for Paths {
    fn clone(&self) -> (r: Paths)
        ensures
            r@ == self@,
    {
        Paths {
            dir: copy_path(&self.dir),
            state: copy_path(&self.state),
            socket: copy_path(&self.socket),
            pending: copy_path(&self.pending),
            lock: copy_path(&self.lock),
        }
    }
}

/// The bytes of an ASCII text.
pub open spec fn ascii(t: Seq<char>) -> Seq<u8> {
    Seq::new(t.len(), |i: int| t[i] as u8)
}

/// Append the bytes of an ASCII text.
fn push_ascii(out: &mut Vec<u8>, s: &str)
    requires
        s.is_ascii(),
    ensures
        final(out)@ == old(out)@ + ascii(s@),
{
    let n: usize = s.unicode_len();
    let mut i: usize = 0;
    while i < n
        invariant
            s.is_ascii(),
            n == s@.len(),
            0 <= i <= n,
            out@ == old(out)@ + ascii(s@).take(i as int),
        decreases n - i,
    {
        out.push(s.get_ascii(i));
        i = i + 1;
        assert(out@ =~= old(out)@ + ascii(s@).take(i as int));
    }
    assert(ascii(s@).take(n as int) =~= ascii(s@));
}

/// Whether a path is a bare drive such as `C:`.
pub open spec fn bare_drive(p: Seq<u8>) -> bool {
    p.len() == 2 && p[1] == 0x3a && (0x41 <= p[0] <= 0x5a || 0x61 <= p[0] <= 0x7a)
}

/// Whether a separator has to be added before a name is appended to a path.
pub open spec fn needs_separator(p: Platform, base: Seq<u8>) -> bool {
    &&& base.len() > 0
    &&& base.last() != 0x2f
    &&& p == Platform::Windows ==> base.last() != 0x5c && !bare_drive(base)
}

/// The separator that a platform writes.
pub open spec fn separator(p: Platform) -> u8 {
    if p == Platform::Windows {
        0x5c
    } else {
        0x2f
    }
}

/// A path with one more relative name at its end.
pub open spec fn below(p: Platform, base: Seq<u8>, name: Seq<u8>) -> Seq<u8> {
    if needs_separator(p, base) {
        base.push(separator(p)) + name
    } else {
        base + name
    }
}

/// Append a relative name to a path.
pub fn path_join(p: Platform, base: &[u8], name: &str) -> (r: Vec<u8>)
    requires
        name.is_ascii(),
    ensures
        r@ == below(p, base@, ascii(name@)),
{
    let mut out: Vec<u8> = Vec::new();
    out.extend_from_slice(base);
    assert(out@ =~= base@);
    let n: usize = base.len();
    if n > 0 {
        let last: u8 = base[n - 1];
        if p == Platform::Windows {
            let drive = n == 2 && base[1] == 0x3a && ((0x41 <= base[0] && base[0] <= 0x5a) || (0x61
                <= base[0] && base[0] <= 0x7a));
            if last != 0x2f && last != 0x5c && !drive {
                out.push(0x5c);
            }
        } else if last != 0x2f {
            out.push(0x2f);
        }
    }
    push_ascii(&mut out, name);
    out
}

/// Whether a byte separates the parts of a path on Windows.
pub open spec fn windows_separator(b: u8) -> bool {
    b == 0x2f || b == 0x5c
}

/// Whether a path starts with a drive and a separator, such as `C:\`.
pub open spec fn rooted_drive(p: Seq<u8>) -> bool {
    p.len() >= 3 && bare_drive(p.take(2)) && windows_separator(p[2])
}

/// Whether a share's name starts at position `k`, after two separators, a server
/// name and a separator.
pub open spec fn share_at(p: Seq<u8>, k: int) -> bool {
    &&& 4 <= k < p.len()
    &&& windows_separator(p[0]) && windows_separator(p[1])
    &&& forall|m: int| 2 <= m < k - 1 ==> !windows_separator(p[m])
    &&& windows_separator(p[k - 1])
    &&& !windows_separator(p[k])
}

/// Whether a path is absolute: it starts with `/` on Linux, and with a drive and
/// a separator or with a server and a share on Windows.
pub open spec fn absolute(platform: Platform, p: Seq<u8>) -> bool {
    match platform {
        Platform::Linux => p.len() > 0 && p[0] == 0x2f,
        Platform::Windows => rooted_drive(p) || exists|k: int| share_at(p, k),
        Platform::Unsupported => false,
    }
}

fn is_windows_separator(b: u8) -> (r: bool)
    ensures
        r == windows_separator(b),
{
    b == 0x2f || b == 0x5c
}

/// Whether a path starts with a server and a share.
fn has_share(p: &[u8]) -> (r: bool)
    ensures
        r == exists|k: int| share_at(p@, k),
{
    let n: usize = p.len();
    if n < 5 || !is_windows_separator(p[0]) || !is_windows_separator(p[1]) {
        return false;
    }
    let mut i: usize = 2;
    while i < n && !is_windows_separator(p[i])
        invariant
            n == p@.len(),
            2 <= i <= n,
            forall|m: int| 2 <= m < i ==> !windows_separator(p@[m]),
        decreases n - i,
    {
        i = i + 1;
    }
    proof {
        assert forall|k: int| share_at(p@, k) implies k == i + 1 by {
            if k - 1 < i {
                assert(!windows_separator(p@[k - 1]));
            }
            if i < k - 1 {
                assert(!windows_separator(p@[i as int]));
            }
        }
    }
    if i == 2 || i >= n || n - i < 2 || is_windows_separator(p[i + 1]) {
        return false;
    }
    assert(share_at(p@, i + 1));
    true
}

/// Whether a path is absolute.
pub fn is_absolute(platform: Platform, p: &[u8]) -> (r: bool)
    ensures
        r == absolute(platform, p@),
{
    match platform {
        Platform::Linux => p.len() > 0 && p[0] == 0x2f,
        Platform::Windows => {
            let drive = p.len() >= 3 && p[1] == 0x3a && ((0x41 <= p[0] && p[0] <= 0x5a) || (0x61
                <= p[0] && p[0] <= 0x7a)) && is_windows_separator(p[2]);
            drive || has_share(p)
        },
        Platform::Unsupported => false,
    }
}

/// What starts with an absolute path is absolute.
proof fn longer_paths_stay_absolute(platform: Platform, p: Seq<u8>, q: Seq<u8>)
    requires
        absolute(platform, p),
        p.is_prefix_of(q),
    ensures
        absolute(platform, q),
{
    assert forall|i: int| 0 <= i < p.len() implies q[i] == p[i] by {
        assert(q.subrange(0, p.len() as int)[i] == p[i]);
    }
    if platform == Platform::Windows {
        if rooted_drive(p) {
            assert(q.take(2) =~= p.take(2));
        } else {
            let k = choose|k: int| share_at(p, k);
            assert(share_at(q, k));
        }
    }
}

/// What stands below an absolute path is absolute.
pub proof fn below_absolute_is_absolute(platform: Platform, base: Seq<u8>, name: Seq<u8>)
    requires
        absolute(platform, base),
    ensures
        absolute(platform, below(platform, base, name)),
{
    assert(base.is_prefix_of(below(platform, base, name))) by {
        assert(base =~= below(platform, base, name).subrange(0, base.len() as int));
    }
    longer_paths_stay_absolute(platform, base, below(platform, base, name));
}

/// Every path of a located set of runtime files is absolute.
pub open spec fn all_absolute(platform: Platform, f: PathsView) -> bool {
    &&& absolute(platform, f.dir)
    &&& absolute(platform, f.state)
    &&& absolute(platform, f.socket)
    &&& absolute(platform, f.pending)
    &&& absolute(platform, f.lock)
}

/// The directory that a platform's base variable gives, as it is shown to a
/// user; none if the variable is unset or not an absolute path. It is
/// the base itself on Linux, the full runtime directory on Windows.
pub open spec fn shown_dir(p: Platform, base: Option<Seq<u8>>) -> Option<Seq<u8>> {
    match base {
        Some(b) => if !absolute(p, b) {
            None
        } else if p == Platform::Windows {
            Some(below(p, below(p, b, ascii("Freeoxide"@)), ascii("Oxiwake"@)))
        } else {
            Some(b)
        },
        None => None,
    }
}

/// The directory that holds the runtime files.
pub open spec fn runtime_dir(p: Platform, base: Option<Seq<u8>>) -> Option<Seq<u8>> {
    match shown_dir(p, base) {
        Some(d) => if p == Platform::Linux {
            Some(below(p, d, ascii("oxiwake"@)))
        } else {
            Some(d)
        },
        None => None,
    }
}

/// The well-known files in a runtime directory.
pub open spec fn files_in(p: Platform, dir: Seq<u8>) -> PathsView {
    PathsView {
        dir,
        state: below(p, dir, ascii("state.json"@)),
        socket: below(p, dir, ascii("oxiwake.sock"@)),
        pending: below(p, dir, ascii("pending.json"@)),
        lock: below(p, dir, ascii("oxiwake.lock"@)),
    }
}

/// The message for an unset base variable.
pub open spec fn unset_message(p: Platform) -> Seq<char> {
    match p {
        Platform::Linux =>
            "XDG_RUNTIME_DIR is not set; cannot determine oxiwake runtime directory (set it to your user runtime dir, e.g. /run/user/$(id -u), or run inside a systemd/logind session)"@,
        Platform::Windows =>
            "LOCALAPPDATA is not set; cannot determine oxiwake runtime directory"@,
        Platform::Unsupported => "no runtime directory is configured for this platform"@,
    }
}

/// The message for a base variable that is set to no absolute path.
pub open spec fn relative_message(p: Platform) -> Seq<char> {
    match p {
        Platform::Linux =>
            "XDG_RUNTIME_DIR is not an absolute path; cannot determine oxiwake runtime directory"@,
        Platform::Windows =>
            "LOCALAPPDATA is not an absolute path; cannot determine oxiwake runtime directory"@,
        Platform::Unsupported => "no runtime directory is configured for this platform"@,
    }
}

/// The message for a base variable that gives no directory.
pub open spec fn no_dir_message(p: Platform, base: Option<Seq<u8>>) -> Seq<char> {
    if base is None {
        unset_message(p)
    } else {
        relative_message(p)
    }
}

/// The bytes of an optional byte vector.
pub open spec fn bytes_opt(v: Option<Vec<u8>>) -> Option<Seq<u8>> {
    match v {
        Some(b) => Some(b@),
        None => None,
    }
}

/// The message used when the base variable is unset.
pub fn base_dir_unset_message(p: Platform) -> (r: &'static str)
    ensures
        r@ == unset_message(p),
{
    match p {
        Platform::Linux =>
            "XDG_RUNTIME_DIR is not set; cannot determine oxiwake runtime directory (set it to your user runtime dir, e.g. /run/user/$(id -u), or run inside a systemd/logind session)",
        Platform::Windows => "LOCALAPPDATA is not set; cannot determine oxiwake runtime directory",
        Platform::Unsupported => "no runtime directory is configured for this platform",
    }
}

/// The message used when the base variable is set to no absolute path.
pub fn base_dir_relative_message(p: Platform) -> (r: &'static str)
    ensures
        r@ == relative_message(p),
{
    match p {
        Platform::Linux =>
            "XDG_RUNTIME_DIR is not an absolute path; cannot determine oxiwake runtime directory",
        Platform::Windows =>
            "LOCALAPPDATA is not an absolute path; cannot determine oxiwake runtime directory",
        Platform::Unsupported => "no runtime directory is configured for this platform",
    }
}

impl Paths {
    /// Locate the runtime directory and the files inside it. `base` is the
    /// value of the platform's base variable (`XDG_RUNTIME_DIR` or
    /// `LOCALAPPDATA`), if it is set. All paths are absolute: a base that is not
    /// gives none.
    pub fn resolve(p: Platform, base: Option<Vec<u8>>) -> (r: Result<Paths>)
        ensures
            match runtime_dir(p, bytes_opt(base)) {
                Some(dir) => r is Ok && r->Ok_0@ == files_in(p, dir) && all_absolute(
                    p,
                    r->Ok_0@,
                ),
                None => r is Err && r->Err_0@ == ErrorView::State(
                    no_dir_message(p, bytes_opt(base)),
                ),
            },
    {
        let is_set = base.is_some();
        proof {
            reveal_strlit("oxiwake");
            reveal_strlit("state.json");
            reveal_strlit("oxiwake.sock");
            reveal_strlit("pending.json");
            reveal_strlit("oxiwake.lock");
        }
        match Self::runtime_dir_or_none(p, base) {
            Some(shown) => {
                let dir = match p {
                    Platform::Linux => path_join(p, shown.as_slice(), "oxiwake"),
                    _ => shown,
                };
                proof {
                    runtime_files_are_absolute(p, bytes_opt(base));
                }
                Ok(
                    Paths {
                        state: path_join(p, dir.as_slice(), "state.json"),
                        socket: path_join(p, dir.as_slice(), "oxiwake.sock"),
                        pending: path_join(p, dir.as_slice(), "pending.json"),
                        lock: path_join(p, dir.as_slice(), "oxiwake.lock"),
                        dir,
                    },
                )
            },
            None => {
                let message = if is_set {
                    base_dir_relative_message(p)
                } else {
                    base_dir_unset_message(p)
                };
                Err(OxiwakeError::State(message.to_string()))
            },
        }
    }

    /// The directory to show to a user, or `None` if it cannot be determined:
    /// on Linux the base without the trailing `oxiwake`, on Windows the base
    /// with `Freeoxide\Oxiwake`.
    pub fn runtime_dir_or_none(p: Platform, base: Option<Vec<u8>>) -> (r: Option<Vec<u8>>)
        ensures
            bytes_opt(r) == shown_dir(p, bytes_opt(base)),
    {
        proof {
            reveal_strlit("Freeoxide");
            reveal_strlit("Oxiwake");
        }
        match base {
            Some(b) => {
                if !is_absolute(p, b.as_slice()) {
                    return None;
                }
                match p {
                    Platform::Windows => {
                        let vendor = path_join(p, b.as_slice(), "Freeoxide");
                        Some(path_join(p, vendor.as_slice(), "Oxiwake"))
                    },
                    _ => Some(b),
                }
            },
            None => None,
        }
    }
}

/// Wherever a runtime directory is found, the directory and the files in it are
/// absolute paths, and so is the directory that is shown to a user.
pub proof fn runtime_files_are_absolute(p: Platform, base: Option<Seq<u8>>)
    ensures
        match runtime_dir(p, base) {
            Some(dir) => all_absolute(p, files_in(p, dir)) && absolute(
                p,
                shown_dir(p, base)->Some_0,
            ),
            None => true,
        },
{
    if let Some(b) = base {
        if absolute(p, b) {
            let vendor = below(p, b, ascii("Freeoxide"@));
            below_absolute_is_absolute(p, b, ascii("Freeoxide"@));
            below_absolute_is_absolute(p, vendor, ascii("Oxiwake"@));
            below_absolute_is_absolute(p, b, ascii("oxiwake"@));
            let dir = runtime_dir(p, base)->Some_0;
            below_absolute_is_absolute(p, dir, ascii("state.json"@));
            below_absolute_is_absolute(p, dir, ascii("oxiwake.sock"@));
            below_absolute_is_absolute(p, dir, ascii("pending.json"@));
            below_absolute_is_absolute(p, dir, ascii("oxiwake.lock"@));
        }
    }
}

/// The name of the hand-off file of one invocation.
pub open spec fn pending_name(pid: u32) -> Seq<char> {
    "pending."@ + decimal_text(pid as nat) + ".json"@
}

/// A decimal text is ASCII.
proof fn decimal_is_ascii(n: nat)
    ensures
        is_ascii_chars(decimal_text(n)),
    decreases n,
{
    if n >= 10 {
        decimal_is_ascii(n / 10);
    }
}

/// The hand-off file of the invocation with the given process id:
/// `dir/pending.{pid}.json`.
pub fn pending_path_for(p: Platform, dir: &[u8], pid: u32) -> (r: Vec<u8>)
    ensures
        r@ == below(p, dir@, ascii(pending_name(pid))),
{
    let name = "pending.".to_string().concat(decimal(pid as u64).as_str()).concat(".json");
    proof {
        reveal_strlit("pending.");
        reveal_strlit(".json");
        decimal_is_ascii(pid as nat);
        assert(is_ascii_chars(name@));
    }
    path_join(p, dir, name.as_str())
}

/// The file in which a failing daemon leaves its reason: `dir/startup_error`.
pub fn startup_error_path(p: Platform, dir: &[u8]) -> (r: Vec<u8>)
    ensures
        r@ == below(p, dir@, ascii("startup_error"@)),
{
    proof {
        reveal_strlit("startup_error");
    }
    path_join(p, dir, "startup_error")
}

/// The permission bits of a directory that only its owner can use.
pub const PRIVATE_MODE: u32 = 0o700;

/// The mode to give the runtime directory, or `None` if it is private already.
pub fn tighten_mode(mode: u32) -> (r: Option<u32>)
    ensures
        r == if mode & 0o777 == PRIVATE_MODE {
            None
        } else {
            Some(PRIVATE_MODE)
        },
{
    if mode & 0o777 != PRIVATE_MODE {
        Some(PRIVATE_MODE)
    } else {
        None
    }
}

/// Different names below one directory are different paths.
proof fn below_is_injective(p: Platform, dir: Seq<u8>, a: Seq<u8>, b: Seq<u8>)
    requires
        below(p, dir, a) == below(p, dir, b),
    ensures
        a == b,
{
    let base = if needs_separator(p, dir) {
        dir.push(separator(p))
    } else {
        dir
    };
    assert((base + a).len() == (base + b).len());
    assert(a.len() == b.len());
    assert forall|i: int| 0 <= i < a.len() implies a[i] == b[i] by {
        assert((base + a)[base.len() + i] == a[i]);
        assert((base + b)[base.len() + i] == b[i]);
    }
    assert(a =~= b);
}

/// The runtime files are five different paths, each below the directory.
pub proof fn runtime_files_are_distinct(p: Platform, dir: Seq<u8>)
    ensures
        ({
            let f = files_in(p, dir);
            &&& f.dir != f.state && f.dir != f.socket && f.dir != f.pending && f.dir != f.lock
            &&& f.state != f.socket && f.state != f.pending && f.state != f.lock
            &&& f.socket != f.pending && f.socket != f.lock
            &&& f.pending != f.lock
        }),
{
    reveal_strlit("state.json");
    reveal_strlit("oxiwake.sock");
    reveal_strlit("pending.json");
    reveal_strlit("oxiwake.lock");
    let f = files_in(p, dir);
    assert(f.state.len() > dir.len());
    assert(f.socket.len() > dir.len());
    assert(f.pending.len() > dir.len());
    assert(f.lock.len() > dir.len());
    let state = ascii("state.json"@);
    let socket = ascii("oxiwake.sock"@);
    let pending = ascii("pending.json"@);
    let lock = ascii("oxiwake.lock"@);
    assert(state[0] == 115 && socket[0] == 111 && pending[0] == 112 && lock[0] == 111);
    assert(socket[8] == 115 && lock[8] == 108);
    if f.state == f.socket {
        below_is_injective(p, dir, state, socket);
    }
    if f.state == f.pending {
        below_is_injective(p, dir, state, pending);
    }
    if f.state == f.lock {
        below_is_injective(p, dir, state, lock);
    }
    if f.socket == f.pending {
        below_is_injective(p, dir, socket, pending);
    }
    if f.socket == f.lock {
        below_is_injective(p, dir, socket, lock);
    }
    if f.pending == f.lock {
        below_is_injective(p, dir, pending, lock);
    }
}

/// Two invocations with different process ids hand their requests over in
/// different files, so neither overwrites the other's.
pub proof fn pending_files_do_not_collide(p: Platform, dir: Seq<u8>, a: u32, b: u32)
    requires
        a != b,
    ensures
        below(p, dir, ascii(pending_name(a))) != below(p, dir, ascii(pending_name(b))),
{
    if below(p, dir, ascii(pending_name(a))) == below(p, dir, ascii(pending_name(b))) {
        below_is_injective(p, dir, ascii(pending_name(a)), ascii(pending_name(b)));
        let na = pending_name(a);
        let nb = pending_name(b);
        let da = decimal_text(a as nat);
        let db = decimal_text(b as nat);
        assert(ascii(na).len() == na.len() && ascii(nb).len() == nb.len());
        assert(da.len() == db.len());
        decimal_is_ascii(a as nat);
        decimal_is_ascii(b as nat);
        assert forall|i: int| 0 <= i < da.len() implies da[i] == db[i] by {
            let k = "pending."@.len() + i;
            assert(na[k] == da[i]);
            assert(nb[k] == db[i]);
            assert(ascii(na)[k] == na[k] as u8);
            assert(ascii(nb)[k] == nb[k] as u8);
        }
        assert(da =~= db);
        decimal_is_injective(a as nat, b as nat);
    }
}

} // verus!
