//! The calling convention of a hot-reloadable operation: the name under
//! which its implementation is exported, where a call through its stub goes,
//! and how each argument crosses into the loaded library.

use crate::controller::{HotReloadLibInternalUseOnly, ReloadState};
use crate::text::{after_last_unique, concat2, decimal, decimal_is_injective, decimal_reads_back,
    u64_to_decimal};
use vstd::prelude::*;

verus! {

/// What every exported symbol name begins with.
pub open spec fn symbol_prefix() -> Seq<char> {
    "ridiculous_bevy_hot_"@
}

/// The name under which the implementation of the operation `fn_name` is
/// exported: the prefix, the operation's name, an underscore, and the hash of
/// its signature in base ten.
pub open spec fn exported_symbol(fn_name: Seq<char>, signature_hash: u64) -> Seq<char> {
    symbol_prefix() + fn_name + seq!['_'] + decimal(signature_hash as nat)
}

/// The name under which the implementation of `fn_name`, whose signature
/// hashes to `signature_hash`, is exported and looked up.
pub fn exported_symbol_name(fn_name: &str, signature_hash: u64) -> (r: String)
    ensures
        r@ == exported_symbol(fn_name@, signature_hash),
{
    let mut r = concat2("ridiculous_bevy_hot_", fn_name);
    proof {
        reveal_strlit("_");
        assert("_"@ =~= seq!['_']);
    }
    r.append("_");
    let digits = u64_to_decimal(signature_hash);
    r.append(digits.as_str());
    r
}

/// Two operations are exported under the same name only if they have the
/// same name and the same signature hash.
pub proof fn exported_symbols_are_distinct(
    fn_name: Seq<char>,
    signature_hash: u64,
    other_name: Seq<char>,
    other_hash: u64,
)
    requires
        exported_symbol(fn_name, signature_hash) == exported_symbol(other_name, other_hash),
    ensures
        fn_name == other_name,
        signature_hash == other_hash,
{
    let stops = seq!['_'];
    let a = fn_name + seq!['_'] + decimal(signature_hash as nat);
    let b = other_name + seq!['_'] + decimal(other_hash as nat);
    let p = symbol_prefix().len() as int;
    let sa = exported_symbol(fn_name, signature_hash);
    let sb = exported_symbol(other_name, other_hash);
    assert(sa.subrange(p, sa.len() as int) =~= a);
    assert(sb.subrange(p, sb.len() as int) =~= b);
    assert(a == b);
    tail_starts_after_name(fn_name, signature_hash);
    tail_starts_after_name(other_name, other_hash);
    assert(fn_name.len() == other_name.len());
    let n = fn_name.len() as int;
    assert(a.subrange(0, n) =~= fn_name);
    assert(b.subrange(0, n) =~= other_name);
    assert(a.subrange(n + 1, a.len() as int) =~= decimal(signature_hash as nat));
    assert(b.subrange(n + 1, b.len() as int) =~= decimal(other_hash as nat));
    decimal_is_injective(signature_hash as nat, other_hash as nat);
}

/// In a name, an underscore and a number, the last underscore is the one
/// before the number.
proof fn tail_starts_after_name(fn_name: Seq<char>, signature_hash: u64)
    ensures
        crate::text::after_last(
            fn_name + seq!['_'] + decimal(signature_hash as nat),
            seq!['_'],
        ) == fn_name.len() + 1,
{
    let stops = seq!['_'];
    let digits = decimal(signature_hash as nat);
    let s = fn_name + seq!['_'] + digits;
    let cut = fn_name.len() as int + 1;
    decimal_reads_back(signature_hash as nat);
    assert(stops.contains('_')) by {
        assert(stops[0] == '_');
    }
    assert(s[cut - 1] == '_');
    assert forall|j: int| cut <= j < s.len() implies !stops.contains(#[trigger] s[j]) by {
        assert(s[j] == digits[j - cut]);
        assert(crate::text::is_digit(digits[j - cut]));
    }
    after_last_unique(s, stops, cut);
}

/// Where a call through a stub goes.
#[derive(Clone, Copy, Debug, PartialEq, Eq, Structural)]
pub enum CallRoute {
    /// To the implementation linked into the host.
    Local,
    /// To the exported implementation in the loaded library.
    Exported,
}

/// Where calls go in `state`: into the library while a handle is held, else
/// to the local implementation.
pub open spec fn route_of(state: ReloadState) -> CallRoute {
    if state.loaded {
        CallRoute::Exported
    } else {
        CallRoute::Local
    }
}

/// Where a call through a stub goes now.
pub fn call_route(hot_reload_int: &HotReloadLibInternalUseOnly) -> (r: CallRoute)
    ensures
        r == route_of(hot_reload_int@),
{
    if hot_reload_int.library.is_some() {
        CallRoute::Exported
    } else {
        CallRoute::Local
    }
}

/// What opens the report of an exported symbol that the loaded library lacks.
pub open spec fn missing_symbol_prefix() -> Seq<char> {
    "Can't find required function "@
}

/// The report of an exported symbol that the loaded library lacks. The host
/// stops on it: the library was not built from the code the host expects.
pub fn missing_symbol_message(symbol: &str) -> (r: String)
    ensures
        r@ == missing_symbol_prefix() + symbol@,
{
    concat2("Can't find required function ", symbol)
}

/// How an argument crosses from the stub into the exported implementation.
#[derive(Clone, Copy, Debug, PartialEq, Eq, Structural)]
pub enum Passing {
    /// As the stub received it.
    ByValue,
    /// As a mutable reference to what the stub received.
    ByMutableReference,
}

/// The type name of the command buffer that a caller owns for one call.
pub open spec fn command_buffer_type() -> Seq<char> {
    "Commands"@
}

/// Whether a type, given as the segments of its path, is the command buffer:
/// a path of that one segment.
pub open spec fn names_command_buffer(type_path: Seq<String>) -> bool {
    type_path.len() == 1 && type_path[0]@ == command_buffer_type()
}

/// How an argument of the given type crosses: the command buffer by mutable
/// reference, since only references to it are laid out alike on both sides;
/// everything else as it is.
pub open spec fn passing_of(type_path: Seq<String>) -> Passing {
    if names_command_buffer(type_path) {
        Passing::ByMutableReference
    } else {
        Passing::ByValue
    }
}

/// Whether a type, given as the segments of its path, is the command buffer.
pub fn is_command_buffer(type_path: &Vec<String>) -> (r: bool)
    ensures
        r == names_command_buffer(type_path@),
{
    if type_path.len() != 1 {
        return false;
    }
    let wanted = String::from_str("Commands");
    type_path[0] == wanted
}

/// How each argument of a stub crosses into the exported implementation,
/// given the type of each as the segments of its path.
pub fn argument_passing(arg_types: &Vec<Vec<String>>) -> (r: Vec<Passing>)
    ensures
        r@.len() == arg_types@.len(),
        forall|i: int| 0 <= i < r@.len() ==> r@[i] == passing_of(#[trigger] arg_types@[i]@),
{
    let mut r: Vec<Passing> = Vec::new();
    let mut i: usize = 0;
    while i < arg_types.len()
        invariant
            i <= arg_types@.len(),
            r@.len() == i,
            forall|k: int| 0 <= k < i ==> r@[k] == passing_of(#[trigger] arg_types@[k]@),
        decreases arg_types@.len() - i,
    {
        let passing = if is_command_buffer(&arg_types[i]) {
            Passing::ByMutableReference
        } else {
            Passing::ByValue
        };
        r.push(passing);
        i += 1;
    }
    r
}

} // verus!
