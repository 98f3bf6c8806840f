//! The fixed byte strings of the filesystem and command-line contract:
//! path constants, name tokens, and external-tool flags. Each constant has
//! a spec form (a byte sequence) and an executable form that is proved to
//! render exactly that sequence.

use vstd::prelude::*;

verus! {
/// The fixed directory under which kernel source trees are discovered.
pub open spec fn linux_root() -> Seq<u8> {
    seq!['/' as u8, 'u' as u8, 's' as u8, 'r' as u8, '/' as u8, 's' as u8, 'r' as u8, 'c' as u8]
}

/// Byte rendering of `linux_root`.
pub fn linux_root_vec() -> (v: Vec<u8>)
    ensures
        v@ == linux_root(),
{
    let mut v: Vec<u8> = Vec::new();
    v.push('/' as u8);
    v.push('u' as u8);
    v.push('s' as u8);
    v.push('r' as u8);
    v.push('/' as u8);
    v.push('s' as u8);
    v.push('r' as u8);
    v.push('c' as u8);
    assert(v@ =~= linux_root());
    v
}

/// Prefix a directory name must carry to count as a kernel source tree.
pub open spec fn kernel_token() -> Seq<u8> {
    seq!['l' as u8, 'i' as u8, 'n' as u8, 'u' as u8, 'x' as u8]
}

/// Byte rendering of `kernel_token`.
pub fn kernel_token_vec() -> (v: Vec<u8>)
    ensures
        v@ == kernel_token(),
{
    let mut v: Vec<u8> = Vec::new();
    v.push('l' as u8);
    v.push('i' as u8);
    v.push('n' as u8);
    v.push('u' as u8);
    v.push('x' as u8);
    assert(v@ =~= kernel_token());
    v
}

/// Suffix a directory name must carry to count as a kernel source tree.
pub open spec fn dist_token() -> Seq<u8> {
    seq!['g' as u8, 'e' as u8, 'n' as u8, 't' as u8, 'o' as u8, 'o' as u8]
}

/// Byte rendering of `dist_token`.
pub fn dist_token_vec() -> (v: Vec<u8>)
    ensures
        v@ == dist_token(),
{
    let mut v: Vec<u8> = Vec::new();
    v.push('g' as u8);
    v.push('e' as u8);
    v.push('n' as u8);
    v.push('t' as u8);
    v.push('o' as u8);
    v.push('o' as u8);
    assert(v@ =~= dist_token());
    v
}

/// Prefix stripped from a version string to obtain the bare kernel version.
pub open spec fn kver_prefix() -> Seq<u8> {
    seq!['l' as u8, 'i' as u8, 'n' as u8, 'u' as u8, 'x' as u8, '-' as u8]
}

/// Byte rendering of `kver_prefix`.
pub fn kver_prefix_vec() -> (v: Vec<u8>)
    ensures
        v@ == kver_prefix(),
{
    let mut v: Vec<u8> = Vec::new();
    v.push('l' as u8);
    v.push('i' as u8);
    v.push('n' as u8);
    v.push('u' as u8);
    v.push('x' as u8);
    v.push('-' as u8);
    assert(v@ =~= kver_prefix());
    v
}

/// Name of the current-kernel alias link under the scan root.
pub open spec fn current_alias_name() -> Seq<u8> {
    seq!['l' as u8, 'i' as u8, 'n' as u8, 'u' as u8, 'x' as u8]
}

/// Byte rendering of `current_alias_name`.
pub fn current_alias_name_vec() -> (v: Vec<u8>)
    ensures
        v@ == current_alias_name(),
{
    let mut v: Vec<u8> = Vec::new();
    v.push('l' as u8);
    v.push('i' as u8);
    v.push('n' as u8);
    v.push('u' as u8);
    v.push('x' as u8);
    assert(v@ =~= current_alias_name());
    v
}

/// Name of the configuration link inside a kernel source tree.
pub open spec fn config_link_name() -> Seq<u8> {
    seq!['.' as u8, 'c' as u8, 'o' as u8, 'n' as u8, 'f' as u8, 'i' as u8, 'g' as u8]
}

/// Byte rendering of `config_link_name`.
pub fn config_link_name_vec() -> (v: Vec<u8>)
    ensures
        v@ == config_link_name(),
{
    let mut v: Vec<u8> = Vec::new();
    v.push('.' as u8);
    v.push('c' as u8);
    v.push('o' as u8);
    v.push('n' as u8);
    v.push('f' as u8);
    v.push('i' as u8);
    v.push('g' as u8);
    assert(v@ =~= config_link_name());
    v
}

/// Build-tool flag selecting the parallelism degree.
pub open spec fn jobs_flag() -> Seq<u8> {
    seq!['-' as u8, 'j' as u8]
}

/// Byte rendering of `jobs_flag`.
pub fn jobs_flag_vec() -> (v: Vec<u8>)
    ensures
        v@ == jobs_flag(),
{
    let mut v: Vec<u8> = Vec::new();
    v.push('-' as u8);
    v.push('j' as u8);
    assert(v@ =~= jobs_flag());
    v
}

/// Initramfs-generator flag restricting the image to the host.
pub open spec fn hostonly_flag() -> Seq<u8> {
    seq!['-' as u8, '-' as u8, 'h' as u8, 'o' as u8, 's' as u8, 't' as u8, 'o' as u8, 'n' as u8, 'l' as u8, 'y' as u8]
}

/// Byte rendering of `hostonly_flag`.
pub fn hostonly_flag_vec() -> (v: Vec<u8>)
    ensures
        v@ == hostonly_flag(),
{
    let mut v: Vec<u8> = Vec::new();
    v.push('-' as u8);
    v.push('-' as u8);
    v.push('h' as u8);
    v.push('o' as u8);
    v.push('s' as u8);
    v.push('t' as u8);
    v.push('o' as u8);
    v.push('n' as u8);
    v.push('l' as u8);
    v.push('y' as u8);
    assert(v@ =~= hostonly_flag());
    v
}

/// Initramfs-generator flag naming the kernel version.
pub open spec fn kver_flag() -> Seq<u8> {
    seq!['-' as u8, '-' as u8, 'k' as u8, 'v' as u8, 'e' as u8, 'r' as u8]
}

/// Byte rendering of `kver_flag`.
pub fn kver_flag_vec() -> (v: Vec<u8>)
    ensures
        v@ == kver_flag(),
{
    let mut v: Vec<u8> = Vec::new();
    v.push('-' as u8);
    v.push('-' as u8);
    v.push('k' as u8);
    v.push('v' as u8);
    v.push('e' as u8);
    v.push('r' as u8);
    assert(v@ =~= kver_flag());
    v
}

/// Initramfs-generator flag allowing an existing image to be overwritten.
pub open spec fn force_flag() -> Seq<u8> {
    seq!['-' as u8, '-' as u8, 'f' as u8, 'o' as u8, 'r' as u8, 'c' as u8, 'e' as u8]
}

/// Byte rendering of `force_flag`.
pub fn force_flag_vec() -> (v: Vec<u8>)
    ensures
        v@ == force_flag(),
{
    let mut v: Vec<u8> = Vec::new();
    v.push('-' as u8);
    v.push('-' as u8);
    v.push('f' as u8);
    v.push('o' as u8);
    v.push('r' as u8);
    v.push('c' as u8);
    v.push('e' as u8);
    assert(v@ =~= force_flag());
    v
}

/// Build-tool target that installs kernel modules.
pub open spec fn modules_install_target() -> Seq<u8> {
    seq!['m' as u8, 'o' as u8, 'd' as u8, 'u' as u8, 'l' as u8, 'e' as u8, 's' as u8, '_' as u8, 'i' as u8, 'n' as u8, 's' as u8, 't' as u8, 'a' as u8, 'l' as u8, 'l' as u8]
}

/// Byte rendering of `modules_install_target`.
pub fn modules_install_target_vec() -> (v: Vec<u8>)
    ensures
        v@ == modules_install_target(),
{
    let mut v: Vec<u8> = Vec::new();
    v.push('m' as u8);
    v.push('o' as u8);
    v.push('d' as u8);
    v.push('u' as u8);
    v.push('l' as u8);
    v.push('e' as u8);
    v.push('s' as u8);
    v.push('_' as u8);
    v.push('i' as u8);
    v.push('n' as u8);
    v.push('s' as u8);
    v.push('t' as u8);
    v.push('a' as u8);
    v.push('l' as u8);
    v.push('l' as u8);
    assert(v@ =~= modules_install_target());
    v
}

/// Name of the external build tool.
pub open spec fn make_program() -> Seq<u8> {
    seq!['m' as u8, 'a' as u8, 'k' as u8, 'e' as u8]
}

/// Byte rendering of `make_program`.
pub fn make_program_vec() -> (v: Vec<u8>)
    ensures
        v@ == make_program(),
{
    let mut v: Vec<u8> = Vec::new();
    v.push('m' as u8);
    v.push('a' as u8);
    v.push('k' as u8);
    v.push('e' as u8);
    assert(v@ =~= make_program());
    v
}

/// Name of the external initramfs generator.
pub open spec fn dracut_program() -> Seq<u8> {
    seq!['d' as u8, 'r' as u8, 'a' as u8, 'c' as u8, 'u' as u8, 't' as u8]
}

/// Byte rendering of `dracut_program`.
pub fn dracut_program_vec() -> (v: Vec<u8>)
    ensures
        v@ == dracut_program(),
{
    let mut v: Vec<u8> = Vec::new();
    v.push('d' as u8);
    v.push('r' as u8);
    v.push('a' as u8);
    v.push('c' as u8);
    v.push('u' as u8);
    v.push('t' as u8);
    assert(v@ =~= dracut_program());
    v
}

/// Location of the compiled kernel image inside a source tree.
pub open spec fn bzimage_rel_path() -> Seq<u8> {
    seq!['a' as u8, 'r' as u8, 'c' as u8, 'h' as u8, '/' as u8, 'x' as u8, '8' as u8, '6' as u8, '/' as u8, 'b' as u8, 'o' as u8, 'o' as u8, 't' as u8, '/' as u8, 'b' as u8, 'z' as u8, 'I' as u8, 'm' as u8, 'a' as u8, 'g' as u8, 'e' as u8]
}

/// Byte rendering of `bzimage_rel_path`.
pub fn bzimage_rel_path_vec() -> (v: Vec<u8>)
    ensures
        v@ == bzimage_rel_path(),
{
    let mut v: Vec<u8> = Vec::new();
    v.push('a' as u8);
    v.push('r' as u8);
    v.push('c' as u8);
    v.push('h' as u8);
    v.push('/' as u8);
    v.push('x' as u8);
    v.push('8' as u8);
    v.push('6' as u8);
    v.push('/' as u8);
    v.push('b' as u8);
    v.push('o' as u8);
    v.push('o' as u8);
    v.push('t' as u8);
    v.push('/' as u8);
    v.push('b' as u8);
    v.push('z' as u8);
    v.push('I' as u8);
    v.push('m' as u8);
    v.push('a' as u8);
    v.push('g' as u8);
    v.push('e' as u8);
    assert(v@ =~= bzimage_rel_path());
    v
}

} // verus!
