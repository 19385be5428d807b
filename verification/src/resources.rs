//! Named resource tables and the renderer context.
//!
//! Resources are referred to by handle: an integer by which the owner of the
//! textures and buffers finds a resource again. A resource table maps binding
//! names to such handles.

use hashbrown::HashMap;
use vstd::prelude::*;

verus! {

/// `hashbrown::HashMap`, carried through as an opaque value. What a table
/// holds is spoken of through `table_entries` alone.
#[verifier::external_type_specification]
#[verifier::external_body]
#[verifier::reject_recursive_types(K)]
#[verifier::reject_recursive_types(V)]
#[verifier::reject_recursive_types(S)]
pub struct ExHashMap<K, V, S>(hashbrown::HashMap<K, V, S>);

/// The hash builder of a `hashbrown::HashMap` that names none, carried
/// through as an opaque value.
#[verifier::external_type_specification]
#[verifier::external_body]
pub struct ExDefaultHashBuilder(hashbrown::hash_map::DefaultHashBuilder);

/// The entries that a resource table holds: the handle stored under each
/// name, names taken as sequences of characters. It has no definition:
/// what is known of it is what `lookup` states.
pub uninterp spec fn table_entries(table: HashMap<&'static str, u64>) -> Map<Seq<char>, u64>;

/// Looks `name` up in `table` with `hashbrown::HashMap::get`.
///
/// Trusted: `get` returns the value stored under the key that equals `name`,
/// and `None` when the table holds no such key.
#[verifier::external_body]
pub(crate) fn lookup(table: &HashMap<&'static str, u64>, name: &str) -> (found: Option<u64>)
    ensures
        found == (if table_entries(*table).contains_key(name@) {
            Some(table_entries(*table)[name@])
        } else {
            None
        }),
{
    table.get(name).copied()
}

/// Compares two string slices with `==` of `str`.
///
/// Trusted: string slices are equal exactly when they hold the same
/// characters in the same order.
#[verifier::external_body]
pub(crate) fn same_name(a: &str, b: &str) -> (same: bool)
    ensures
        same == (a@ == b@),
{
    a == b
}

/// The reserved uniform name under which the renderer's built-in transform
/// is bound.
pub const BUILTIN_TRANSFORM: &'static str = "Mvp";

/// Whether `name` is the reserved name of the built-in transform uniform.
pub open spec fn is_builtin_transform(name: Seq<char>) -> bool {
    name == BUILTIN_TRANSFORM@
}

/// What the binder reads of the renderer context: the handle of the built-in
/// transform uniform that the renderer owns.
#[derive(Clone, Copy, Debug, PartialEq, Eq, Structural)]
pub struct Renderer {
    pub mvp_buf: u64,
}

} // verus!
