//! Where the runtime files are.

use crate::paths::{
    absolute, ascii, below, files_in, no_dir_message, pending_name, rooted_drive, runtime_dir,
    share_at, shown_dir, windows_separator,
};
use crate::platform::Platform;
use crate::text::decimal_text;
use vstd::prelude::*;

verus! {

/// A name below a directory is the directory and the name with one separator
/// between them: the one that is there already, or else one more.
pub proof fn a_name_below_a_directory(p: Platform, dir: Seq<u8>, name: Seq<u8>)
    ensures
        dir.len() == 0 ==> below(p, dir, name) == name,
        dir.len() > 0 && dir.last() == 0x2f ==> below(p, dir, name) == dir + name,
        p != Platform::Windows && dir.len() > 0 && dir.last() != 0x2f ==> below(p, dir, name) == dir
            + seq![0x2fu8] + name,
        p == Platform::Windows && dir.len() > 0 && dir.last() == 0x5c ==> below(p, dir, name) == dir
            + name,
        p == Platform::Windows && dir.len() > 0 && dir.last() != 0x2f && dir.last() != 0x5c && (
        dir.len() != 2 || dir[1] != 0x3a) ==> below(p, dir, name) == dir + seq![0x5cu8] + name,
        below(p, dir, name).take(dir.len() as int) == dir,
        below(p, dir, name).skip(below(p, dir, name).len() - name.len()) == name,
{
    let r = below(p, dir, name);
    assert(r.take(dir.len() as int) =~= dir);
    assert(r.skip(r.len() - name.len()) =~= name);
    assert(dir.len() == 0 ==> r =~= name);
    assert(dir.push(0x2f) + name =~= dir + seq![0x2fu8] + name);
    assert(dir.push(0x5c) + name =~= dir + seq![0x5cu8] + name);
}

/// A bare drive takes a name without a separator, like a directory that ends in
/// one.
pub proof fn a_name_below_a_drive(letter: u8, name: Seq<u8>)
    requires
        0x41 <= letter <= 0x5a || 0x61 <= letter <= 0x7a,
    ensures
        below(Platform::Windows, seq![letter, 0x3au8], name) == seq![letter, 0x3au8] + name,
{
}

/// On Linux a path is absolute exactly if it starts at the root.
pub proof fn absolute_on_linux(path: Seq<u8>)
    ensures
        absolute(Platform::Linux, path) <==> path.len() > 0 && path[0] == 0x2f,
        !absolute(Platform::Unsupported, path),
{
}

/// On Windows a path is absolute if it starts with a drive and a separator, of
/// either kind, or with two separators, a server, a separator and a share.
pub proof fn absolute_on_windows(
    letter: u8,
    a: u8,
    b: u8,
    c: u8,
    server: Seq<u8>,
    rest: Seq<u8>,
)
    requires
        0x41 <= letter <= 0x5a || 0x61 <= letter <= 0x7a,
        a == 0x2f || a == 0x5c,
        b == 0x2f || b == 0x5c,
        c == 0x2f || c == 0x5c,
        server.len() > 0,
        forall|i: int| 0 <= i < server.len() ==> #[trigger] server[i] != 0x2f && server[i] != 0x5c,
        rest.len() > 0,
        rest[0] != 0x2f && rest[0] != 0x5c,
    ensures
        absolute(Platform::Windows, seq![letter, 0x3au8, a]),
        absolute(Platform::Windows, seq![letter, 0x3au8, a] + rest),
        absolute(Platform::Windows, seq![a, b] + server + seq![c] + rest),
        !absolute(Platform::Windows, seq![a, b] + server),
        !absolute(Platform::Windows, seq![a] + rest),
        !absolute(Platform::Windows, seq![letter, 0x3au8] + rest),
        !absolute(Platform::Windows, seq![letter, 0x3au8]),
{
    let root = seq![letter, 0x3au8, a];
    assert(root.take(2) =~= seq![letter, 0x3au8]);
    let drive = root + rest;
    assert(drive.take(2) =~= seq![letter, 0x3au8]);
    let share = seq![a, b] + server + seq![c] + rest;
    let k = server.len() + 3;
    assert(share_at(share, k as int)) by {
        assert forall|m: int| 2 <= m < k - 1 implies !windows_separator(share[m]) by {
            assert(share[m] == server[m - 2]);
        }
    }
    let lone = seq![a, b] + server;
    assert forall|j: int| !share_at(lone, j) by {
        if 4 <= j < lone.len() {
            assert(lone[j - 1] == server[j - 3]);
        }
    }
    assert(lone.take(2)[0] == a);
    let rooted = seq![a] + rest;
    assert(rooted[0] == a && rooted[1] == rest[0]);
    assert forall|j: int| !share_at(rooted, j) by {}
    assert(rooted.take(2)[0] == a);
    let relative = seq![letter, 0x3au8] + rest;
    assert(relative[0] == letter && relative[2] == rest[0]);
    assert forall|j: int| !share_at(relative, j) by {}
    let bare = seq![letter, 0x3au8];
    assert forall|j: int| !share_at(bare, j) by {}
}

/// Nothing else is absolute on Windows: an absolute path has one of the two forms.
pub proof fn nothing_else_is_absolute_on_windows(path: Seq<u8>)
    requires
        absolute(Platform::Windows, path),
    ensures
        path.len() >= 3,
        ({
            ||| {
                &&& 0x41 <= path[0] <= 0x5a || 0x61 <= path[0] <= 0x7a
                &&& path[1] == 0x3a
                &&& path[2] == 0x2f || path[2] == 0x5c
            }
            ||| {
                &&& path.len() >= 5
                &&& path[0] == 0x2f || path[0] == 0x5c
                &&& path[1] == 0x2f || path[1] == 0x5c
                &&& path[2] != 0x2f && path[2] != 0x5c
            }
        }),
{
    if rooted_drive(path) {
        assert(path.take(2)[0] == path[0] && path.take(2)[1] == path[1]);
    } else {
        let k = choose|k: int| share_at(path, k);
        assert(2 < k - 1);
        assert(!windows_separator(path[2]));
    }
}

/// The runtime directory is the one that the platform's variable names: its
/// `oxiwake` on Linux, its `Freeoxide\Oxiwake` on Windows. Without the variable,
/// and with one that is no absolute path, there is none.
pub proof fn the_runtime_directory_is_below_the_base(p: Platform, base: Seq<u8>)
    ensures
        p == Platform::Linux && absolute(p, base) ==> runtime_dir(p, Some(base)) == Some(
            below(p, base, ascii("oxiwake"@)),
        ) && shown_dir(p, Some(base)) == Some(base),
        p == Platform::Windows && absolute(p, base) ==> {
            &&& runtime_dir(p, Some(base)) == Some(
                below(p, below(p, base, ascii("Freeoxide"@)), ascii("Oxiwake"@)),
            )
            &&& shown_dir(p, Some(base)) == runtime_dir(p, Some(base))
        },
        !absolute(p, base) ==> runtime_dir(p, Some(base)) is None && shown_dir(p, Some(base))
            is None,
        runtime_dir(p, None) is None,
        shown_dir(p, None) is None,
        p == Platform::Unsupported ==> runtime_dir(p, Some(base)) is None,
{
}

/// The five files of a directory have their names.
pub proof fn the_files_have_their_names(p: Platform, dir: Seq<u8>, pid: u32)
    ensures
        files_in(p, dir).dir == dir,
        files_in(p, dir).state == below(p, dir, ascii("state.json"@)),
        files_in(p, dir).socket == below(p, dir, ascii("oxiwake.sock"@)),
        files_in(p, dir).pending == below(p, dir, ascii("pending.json"@)),
        files_in(p, dir).lock == below(p, dir, ascii("oxiwake.lock"@)),
        pending_name(pid) == "pending."@ + decimal_text(pid as nat) + ".json"@,
{
}

/// The bytes of an ASCII text are its characters, one by one.
pub proof fn ascii_is_byte_by_byte(t: Seq<char>, c: char)
    requires
        (c as u32) < 128,
    ensures
        ascii(Seq::empty()).len() == 0,
        ascii(t.push(c)).len() == ascii(t).len() + 1,
        ascii(t.push(c)).drop_last() == ascii(t),
        ascii(t.push(c)).last() == c as u32,
{
    assert(ascii(t.push(c)).drop_last() =~= ascii(t));
}

/// Where there is no directory, the message names the variable that is at fault
/// and says whether it is unset or not absolute.
pub proof fn the_message_names_the_variable(base: Seq<u8>)
    ensures
        no_dir_message(Platform::Linux, None)
            == "XDG_RUNTIME_DIR is not set; cannot determine oxiwake runtime directory (set it to your user runtime dir, e.g. /run/user/$(id -u), or run inside a systemd/logind session)"@,
        no_dir_message(Platform::Windows, None)
            == "LOCALAPPDATA is not set; cannot determine oxiwake runtime directory"@,
        no_dir_message(Platform::Linux, Some(base))
            == "XDG_RUNTIME_DIR is not an absolute path; cannot determine oxiwake runtime directory"@,
        no_dir_message(Platform::Windows, Some(base))
            == "LOCALAPPDATA is not an absolute path; cannot determine oxiwake runtime directory"@,
        no_dir_message(Platform::Unsupported, None)
            == "no runtime directory is configured for this platform"@,
        no_dir_message(Platform::Unsupported, Some(base))
            == "no runtime directory is configured for this platform"@,
{
}

} // verus!
