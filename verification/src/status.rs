//! Remote migration progress: a tree model of decoded chain state and the
//! readers that derive progress, limits and balance from it.
//!
//! The remote schema is not known at build time, so decoded storage values
//! are modelled as a dynamically-typed tree with option-returning accessors:
//! named composites, named variants with fields, unsigned-integer leaves, and
//! an opaque catch-all for shapes the core never reads.

use vstd::prelude::*;

use crate::text::{str_contains, str_eq};

verus! {

/// A decoded chain-storage value, as far as the core reads it.
#[derive(Debug)]
pub enum ChainValue {
    /// A record of named fields.
    Composite(Vec<(String, ChainValue)>),
    /// An enum value: the variant's name and its named fields.
    Variant(String, Vec<(String, ChainValue)>),
    /// An unsigned-integer leaf.
    Uint(u128),
    /// Any other shape; the core never looks inside it.
    Opaque,
}

/// The first field named `name`, if any.
pub open spec fn spec_lookup(fields: Seq<(String, ChainValue)>, name: Seq<char>) -> Option<
    ChainValue,
>
    decreases fields.len(),
{
    if fields.len() == 0 {
        None
    } else if fields[0].0@ == name {
        Some(fields[0].1)
    } else {
        spec_lookup(fields.drop_first(), name)
    }
}

/// Skipping fields whose names all differ from `name` does not change the
/// lookup's result.
proof fn lemma_lookup_skip(fields: Seq<(String, ChainValue)>, name: Seq<char>, i: int)
    requires
        0 <= i <= fields.len(),
        forall|j: int| 0 <= j < i ==> fields[j].0@ != name,
    ensures
        spec_lookup(fields, name) == spec_lookup(fields.skip(i), name),
    decreases i,
{
    if i > 0 {
        lemma_lookup_skip(fields, name, i - 1);
        assert(fields.skip(i - 1).drop_first() =~= fields.skip(i));
        assert(fields.skip(i - 1)[0] == fields[i - 1]);
    } else {
        assert(fields.skip(0) =~= fields);
    }
}

impl ChainValue {
    /// The named fields of a composite or variant value.
    pub open spec fn spec_fields(self) -> Option<Seq<(String, ChainValue)>> {
        match self {
            ChainValue::Composite(fs) => Some(fs@),
            ChainValue::Variant(_, fs) => Some(fs@),
            _ => None,
        }
    }

    /// The value of the first field named `name`, if this value has named
    /// fields and one of them is so named.
    pub open spec fn spec_at(self, name: Seq<char>) -> Option<ChainValue> {
        match self.spec_fields() {
            Some(fs) => spec_lookup(fs, name),
            None => None,
        }
    }

    /// Path lookup by field name.
    pub fn at(&self, name: &str) -> (r: Option<&ChainValue>)
        ensures
            match r {
                Some(v) => self.spec_at(name@) == Some(*v),
                None => self.spec_at(name@) is None,
            },
    {
        let fields: &Vec<(String, ChainValue)> = match self {
            ChainValue::Composite(fs) => fs,
            ChainValue::Variant(_, fs) => fs,
            _ => { return None },
        };
        let ghost all: Seq<(String, ChainValue)> = fields@;
        let mut i: usize = 0;
        while i < fields.len()
            invariant
                i <= fields.len(),
                fields@ == all,
                self.spec_fields() == Some(all),
                forall|j: int| 0 <= j < i ==> all[j].0@ != name@,
            decreases fields.len() - i,
        {
            let entry = &fields[i];
            if str_eq(entry.0.as_str(), name) {
                proof {
                    lemma_lookup_skip(all, name@, i as int);
                    assert(all.skip(i as int)[0] == all[i as int]);
                }
                return Some(&entry.1);
            }
            i = i + 1;
        }
        proof {
            lemma_lookup_skip(all, name@, i as int);
            assert(all.skip(i as int).len() == 0);
        }
        None
    }

    /// The value as an unsigned-integer leaf.
    pub fn as_u128(&self) -> (r: Option<u128>)
        ensures
            match r {
                Some(n) => self is Uint && self->Uint_0 == n,
                None => !(self is Uint),
            },
    {
        match self {
            ChainValue::Uint(n) => Some(*n),
            _ => None,
        }
    }

    /// Is this value a variant whose name carries the completion marker?
    pub open spec fn spec_complete_marker(self) -> bool {
        self is Variant && str_contains(self->Variant_0@, "Complete"@)
    }
}

/// A named sub-value is a variant marked complete.
pub open spec fn spec_field_complete(v: ChainValue, name: Seq<char>) -> bool {
    match v.spec_at(name) {
        Some(sub) => sub.spec_complete_marker(),
        None => false,
    }
}

/// The unsigned-integer leaf at a named field, or zero when the field is
/// absent or not such a leaf.
pub open spec fn spec_field_uint(v: ChainValue, name: Seq<char>) -> int {
    match v.spec_at(name) {
        Some(ChainValue::Uint(n)) => n as int,
        _ => 0,
    }
}

/// A snapshot of remote migration progress.
#[derive(Debug, Clone, Copy, PartialEq, Eq, Structural)]
pub struct MigrationStatus {
    /// The top trie's migration has completed.
    pub top_complete: bool,
    /// The child tries' migration has completed.
    pub child_complete: bool,
    /// Bytes migrated so far.
    pub size: u64,
    /// Top-trie items migrated so far.
    pub top_items: u64,
    /// Child-trie items migrated so far.
    pub child_items: u64,
}

impl MigrationStatus {
    /// The migration is complete exactly when both sub-migrations are.
    pub fn is_complete(&self) -> (r: bool)
        ensures
            r == (self.top_complete && self.child_complete),
    {
        self.top_complete && self.child_complete
    }
}

/// Reads the field at `name` as an unsigned integer, zero when absent.
fn field_uint(decoded: &ChainValue, name: &str) -> (r: u128)
    ensures
        r as int == spec_field_uint(*decoded, name@),
{
    match decoded.at(name) {
        Some(v) => match v.as_u128() {
            Some(n) => n,
            None => 0,
        },
        None => 0,
    }
}

/// Parses a decoded migration-progress value: each sub-progress is complete
/// when its variant carries the completion marker, and the counters are the
/// unsigned leaves of the respective fields, cast to machine words and
/// zero when absent.
pub fn parse_migration_status(decoded: &ChainValue) -> (r: MigrationStatus)
    ensures
        r.top_complete == spec_field_complete(*decoded, "progress_top"@),
        r.child_complete == spec_field_complete(*decoded, "progress_child"@),
        r.size == spec_field_uint(*decoded, "size"@) as u64,
        r.top_items == spec_field_uint(*decoded, "top_items"@) as u64,
        r.child_items == spec_field_uint(*decoded, "child_items"@) as u64,
{
    let top_complete = match decoded.at("progress_top") {
        Some(v) => match v {
            ChainValue::Variant(name, _) => crate::text::contains_sub(name.as_str(), "Complete"),
            _ => false,
        },
        None => false,
    };
    let child_complete = match decoded.at("progress_child") {
        Some(v) => match v {
            ChainValue::Variant(name, _) => crate::text::contains_sub(name.as_str(), "Complete"),
            _ => false,
        },
        None => false,
    };
    let size = #[verifier::truncate] (field_uint(decoded, "size") as u64);
    let top_items = #[verifier::truncate] (field_uint(decoded, "top_items") as u64);
    let child_items = #[verifier::truncate] (field_uint(decoded, "child_items") as u64);
    MigrationStatus { top_complete, child_complete, size, top_items, child_items }
}

/// Parses the chain's configured per-operation ceilings from a decoded
/// limits value: the size and item leaves, cast to machine words and
/// zero when absent.
pub fn parse_max_limits(decoded: &ChainValue) -> (r: (u32, u32))
    ensures
        r.0 == spec_field_uint(*decoded, "size"@) as u32,
        r.1 == spec_field_uint(*decoded, "item"@) as u32,
{
    let size = #[verifier::truncate] (field_uint(decoded, "size") as u32);
    let item = #[verifier::truncate] (field_uint(decoded, "item") as u32);
    (size, item)
}

/// The free balance under an account-info value: the unsigned leaf at
/// `data.free`, zero when any step of the path is absent.
pub open spec fn spec_free_balance(v: ChainValue) -> int {
    match v.spec_at("data"@) {
        Some(data) => spec_field_uint(data, "free"@),
        None => 0,
    }
}

/// Reads an account's free balance from its decoded account info.
pub fn free_balance_of(account_info: &ChainValue) -> (r: u128)
    ensures
        r as int == spec_free_balance(*account_info),
{
    match account_info.at("data") {
        Some(data) => field_uint(data, "free"),
        None => 0,
    }
}

} // verus!
