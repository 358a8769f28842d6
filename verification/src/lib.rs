//! Hash-consing for immutable, persistent DAGs of user-declared data.
//!
//! Within one intern table at most one live storage cell exists for any
//! structurally-equal value, so handles to equal values compare equal by
//! identity.  On top of that substrate the crate offers folded subtree
//! metadata, a structural rewrite framework with memoization, and a
//! normalization hook applied before interning.

pub mod config;
pub mod data;
pub mod hashcons;
pub mod memo;
pub mod meta;
pub mod reference;
pub mod reference_arc;
pub mod reference_rc;
pub mod rewrite;
pub mod schema_even;
pub mod schema_expr;
pub mod schema_messages;
pub mod table;
pub mod table_hashmap_fallback_weak;
pub mod table_tov_weak_table;
pub mod table_vec_linear_weak;
pub mod table_vec_sorted_weak;
pub mod tableshared_mutex;
pub mod tableshared_sharded;
pub mod weak_entry;
