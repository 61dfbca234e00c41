//! The Explorer context-menu entries ("Copy with CopyTej" and "Move with
//! CopyTej") for files and directories: which registry keys are written, with
//! which default values, and what each failure is reported as.
use vstd::prelude::*;
use crate::text::{owned, push_str};

verus! {

/// One registry key to write with its default value, and the error reported
/// when writing it fails.
pub struct RegistryEntry {
    pub key: String,
    pub value: String,
    pub failure: String,
}

/// The menu key for files.
pub open spec fn file_shell_key() -> Seq<char> {
    "HKCU\\Software\\Classes\\*\\shell\\CopyTej"@
}

/// The menu key for directories.
pub open spec fn dir_shell_key() -> Seq<char> {
    "HKCU\\Software\\Classes\\Directory\\shell\\CopyTej"@
}

/// The move menu key for files.
pub open spec fn file_move_key() -> Seq<char> {
    "HKCU\\Software\\Classes\\*\\shell\\CopyTejMove"@
}

/// The move menu key for directories.
pub open spec fn dir_move_key() -> Seq<char> {
    "HKCU\\Software\\Classes\\Directory\\shell\\CopyTejMove"@
}

/// The label shown in the menu.
pub open spec fn menu_label() -> Seq<char> {
    "Copy with CopyTej"@
}

/// The label of the move entry.
pub open spec fn move_label() -> Seq<char> {
    "Move with CopyTej"@
}

/// The command an entry runs: the program, quoted, with the clicked path
/// quoted after it.
pub open spec fn menu_command(exe: Seq<char>) -> Seq<char> {
    "\""@ + exe + "\" \"%1\""@
}

/// The command the move entry runs: the program, quoted, `--move`, and the
/// clicked path, quoted.
pub open spec fn move_command(exe: Seq<char>) -> Seq<char> {
    "\""@ + exe + "\" --move \"%1\""@
}

/// The error of a context-menu request on a system without a registry.
pub open spec fn registry_unsupported_text() -> Seq<char> {
    "Registry operations are only supported on Windows"@
}

/// Whether an entry is the given key, value and failure text.
pub open spec fn entry_is(e: RegistryEntry, key: Seq<char>, value: Seq<char>, failure: Seq<char>) -> bool {
    e.key@ == key && e.value@ == value && e.failure@ == failure
}

fn entry(key: &str, value: &str, failure: &str) -> (e: RegistryEntry)
    ensures
        entry_is(e, key@, value@, failure@),
{
    RegistryEntry { key: owned(key), value: owned(value), failure: owned(failure) }
}

/// Builds the command an entry runs for the program at `exe`.
pub fn menu_command_for(exe: &str) -> (s: String)
    ensures
        s@ == menu_command(exe@),
{
    let mut s = owned("\"");
    push_str(&mut s, exe);
    push_str(&mut s, "\" \"%1\"");
    s
}

/// Builds the command the move entry runs for the program at `exe`.
pub fn move_command_for(exe: &str) -> (s: String)
    ensures
        s@ == move_command(exe@),
{
    let mut s = owned("\"");
    push_str(&mut s, exe);
    push_str(&mut s, "\" --move \"%1\"");
    s
}

/// The keys written to register the menu, in order: the file menu and its
/// command, the directory menu and its command, then the same two pairs for
/// moving. Registration stops at the first key that cannot be written, with
/// that entry's failure.
pub fn context_menu_entries(exe: &str) -> (v: Vec<RegistryEntry>)
    ensures
        v@.len() == 8,
        entry_is(v@[0], file_shell_key(), menu_label(), "Failed to add file context menu registry key"@),
        entry_is(
            v@[1],
            file_shell_key() + "\\command"@,
            menu_command(exe@),
            "Failed to add file command registry key"@,
        ),
        entry_is(v@[2], dir_shell_key(), menu_label(), "Failed to add directory context menu registry key"@),
        entry_is(
            v@[3],
            dir_shell_key() + "\\command"@,
            menu_command(exe@),
            "Failed to add directory command registry key"@,
        ),
        entry_is(v@[4], file_move_key(), move_label(), "Failed to add file move menu registry key"@),
        entry_is(
            v@[5],
            file_move_key() + "\\command"@,
            move_command(exe@),
            "Failed to add file move command registry key"@,
        ),
        entry_is(v@[6], dir_move_key(), move_label(), "Failed to add directory move menu registry key"@),
        entry_is(
            v@[7],
            dir_move_key() + "\\command"@,
            move_command(exe@),
            "Failed to add directory move command registry key"@,
        ),
{
    let command = menu_command_for(exe);
    let mut v: Vec<RegistryEntry> = Vec::new();
    v.push(entry("HKCU\\Software\\Classes\\*\\shell\\CopyTej", "Copy with CopyTej", "Failed to add file context menu registry key"));
    v.push(entry("HKCU\\Software\\Classes\\*\\shell\\CopyTej\\command", command.as_str(), "Failed to add file command registry key"));
    v.push(entry("HKCU\\Software\\Classes\\Directory\\shell\\CopyTej", "Copy with CopyTej", "Failed to add directory context menu registry key"));
    v.push(entry("HKCU\\Software\\Classes\\Directory\\shell\\CopyTej\\command", command.as_str(), "Failed to add directory command registry key"));
    let mv = move_command_for(exe);
    v.push(entry("HKCU\\Software\\Classes\\*\\shell\\CopyTejMove", "Move with CopyTej", "Failed to add file move menu registry key"));
    v.push(entry("HKCU\\Software\\Classes\\*\\shell\\CopyTejMove\\command", mv.as_str(), "Failed to add file move command registry key"));
    v.push(entry("HKCU\\Software\\Classes\\Directory\\shell\\CopyTejMove", "Move with CopyTej", "Failed to add directory move menu registry key"));
    v.push(entry("HKCU\\Software\\Classes\\Directory\\shell\\CopyTejMove\\command", mv.as_str(), "Failed to add directory move command registry key"));
    proof {
        reveal_strlit("HKCU\\Software\\Classes\\*\\shell\\CopyTej");
        reveal_strlit("HKCU\\Software\\Classes\\*\\shell\\CopyTej\\command");
        reveal_strlit("HKCU\\Software\\Classes\\Directory\\shell\\CopyTej");
        reveal_strlit("HKCU\\Software\\Classes\\Directory\\shell\\CopyTej\\command");
        reveal_strlit("HKCU\\Software\\Classes\\*\\shell\\CopyTejMove");
        reveal_strlit("HKCU\\Software\\Classes\\*\\shell\\CopyTejMove\\command");
        reveal_strlit("HKCU\\Software\\Classes\\Directory\\shell\\CopyTejMove");
        reveal_strlit("HKCU\\Software\\Classes\\Directory\\shell\\CopyTejMove\\command");
        reveal_strlit("\\command");
        assert(v@[1].key@ =~= file_shell_key() + "\\command"@);
        assert(v@[3].key@ =~= dir_shell_key() + "\\command"@);
        assert(v@[5].key@ =~= file_move_key() + "\\command"@);
        assert(v@[7].key@ =~= dir_move_key() + "\\command"@);
    }
    v
}

/// The keys deleted (with everything below them) to unregister the menu.
pub fn context_menu_keys() -> (v: Vec<String>)
    ensures
        v@.len() == 4,
        v@[0]@ == file_shell_key(),
        v@[1]@ == dir_shell_key(),
        v@[2]@ == file_move_key(),
        v@[3]@ == dir_move_key(),
{
    let mut v: Vec<String> = Vec::new();
    v.push(owned("HKCU\\Software\\Classes\\*\\shell\\CopyTej"));
    v.push(owned("HKCU\\Software\\Classes\\Directory\\shell\\CopyTej"));
    v.push(owned("HKCU\\Software\\Classes\\*\\shell\\CopyTejMove"));
    v.push(owned("HKCU\\Software\\Classes\\Directory\\shell\\CopyTejMove"));
    v
}

/// The error of a context-menu request on a system without a registry.
pub fn registry_unsupported_error() -> (s: String)
    ensures
        s@ == registry_unsupported_text(),
{
    owned("Registry operations are only supported on Windows")
}

} // verus!
