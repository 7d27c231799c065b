//! The known subtypes of partition tables.
use vstd::prelude::*;
use vstd::string::*;
use crate::catalog::{Catalog, Domain};
use crate::client::Client;

verus! {

/// A family of partition types within one scheme of partition table.
#[derive(Clone, Copy, Debug)]
pub struct PartitionTableSubType {
    /// The scheme of the table, such as `dos` or `gpt`.
    pub ty: &'static str,
    /// The subtype, such as `linux`.
    pub subtype: &'static str,
    /// What the subtype is called.
    pub name: &'static str,
}

impl PartitionTableSubType {
    /// A subtype of the given scheme, with its name.
    pub fn new(ty: &'static str, subtype: &'static str, name: &'static str) -> (r: Self)
        ensures
            r.ty == ty,
            r.subtype == subtype,
            r.name == name,
    {
        Self { ty, subtype, name }
    }
}

/// Number of known subtypes.
pub const PARTITION_TABLE_SUBTYPES_LEN: usize = 11;

/// Row `i` of the table of known subtypes.
pub open spec fn partition_table_subtype(i: int) -> PartitionTableSubType {
    if i == 0 {
        PartitionTableSubType { ty: "dos", subtype: "generic", name: "Generic" }
    } else if i == 1 {
        PartitionTableSubType { ty: "dos", subtype: "linux", name: "Linux" }
    } else if i == 2 {
        PartitionTableSubType { ty: "dos", subtype: "microsoft", name: "Windows" }
    } else if i == 3 {
        PartitionTableSubType { ty: "dos", subtype: "other", name: "Other" }
    } else if i == 4 {
        PartitionTableSubType { ty: "gpt", subtype: "generic", name: "Generic" }
    } else if i == 5 {
        PartitionTableSubType { ty: "gpt", subtype: "linux", name: "Linux" }
    } else if i == 6 {
        PartitionTableSubType { ty: "gpt", subtype: "microsoft", name: "Windows" }
    } else if i == 7 {
        PartitionTableSubType { ty: "gpt", subtype: "apple", name: "Mac OS X" }
    } else if i == 8 {
        PartitionTableSubType { ty: "gpt", subtype: "other", name: "Other" }
    } else if i == 9 {
        PartitionTableSubType { ty: "apm", subtype: "apple", name: "Mac OS X" }
    } else {
        PartitionTableSubType { ty: "apm", subtype: "microsoft", name: "Windows" }
    }
}

/// Reads row `i` of the table of known subtypes; the last one where `i` is beyond the end.
pub fn partition_table_subtype_at(i: usize) -> (r: PartitionTableSubType)
    ensures
        r == partition_table_subtype(i as int),
{
    if i == 0 {
        PartitionTableSubType { ty: "dos", subtype: "generic", name: "Generic" }
    } else if i == 1 {
        PartitionTableSubType { ty: "dos", subtype: "linux", name: "Linux" }
    } else if i == 2 {
        PartitionTableSubType { ty: "dos", subtype: "microsoft", name: "Windows" }
    } else if i == 3 {
        PartitionTableSubType { ty: "dos", subtype: "other", name: "Other" }
    } else if i == 4 {
        PartitionTableSubType { ty: "gpt", subtype: "generic", name: "Generic" }
    } else if i == 5 {
        PartitionTableSubType { ty: "gpt", subtype: "linux", name: "Linux" }
    } else if i == 6 {
        PartitionTableSubType { ty: "gpt", subtype: "microsoft", name: "Windows" }
    } else if i == 7 {
        PartitionTableSubType { ty: "gpt", subtype: "apple", name: "Mac OS X" }
    } else if i == 8 {
        PartitionTableSubType { ty: "gpt", subtype: "other", name: "Other" }
    } else if i == 9 {
        PartitionTableSubType { ty: "apm", subtype: "apple", name: "Mac OS X" }
    } else {
        PartitionTableSubType { ty: "apm", subtype: "microsoft", name: "Windows" }
    }
}

/// The subtypes of a scheme of partition table among the first `upto` rows,
/// in the order of the table.
pub open spec fn subtypes_of(table_type: Seq<char>, upto: int) -> Seq<Seq<char>>
    decreases upto,
{
    if upto <= 0 {
        Seq::empty()
    } else {
        let before = subtypes_of(table_type, upto - 1);
        let row = partition_table_subtype(upto - 1);
        if row.ty@ == table_type {
            before.push(row.subtype@)
        } else {
            before
        }
    }
}

/// The first row below `upto` for a scheme and a subtype.
pub open spec fn subtype_row(table_type: Seq<char>, subtype: Seq<char>, upto: int) -> Option<int>
    decreases upto,
{
    if upto <= 0 {
        None
    } else {
        match subtype_row(table_type, subtype, upto - 1) {
            Some(i) => Some(i),
            None => {
                let row = partition_table_subtype(upto - 1);
                if row.ty@ == table_type && row.subtype@ == subtype {
                    Some(upto - 1)
                } else {
                    None
                }
            },
        }
    }
}

/// What a subtype of a scheme is called, as the catalog gives it.
pub open spec fn subtype_text(catalog: Catalog, table_type: Seq<char>, subtype: Seq<char>) -> Option<
    Seq<char>,
> {
    match subtype_row(table_type, subtype, PARTITION_TABLE_SUBTYPES_LEN as int) {
        Some(i) => Some(
            catalog.text(
                Domain::Package,
                Some("partition-subtype"@),
                partition_table_subtype(i).name@,
            ),
        ),
        None => None,
    }
}

/// True when the strings are, one for one, the texts.
pub open spec fn spells(strings: Seq<&str>, texts: Seq<Seq<char>>) -> bool {
    &&& strings.len() == texts.len()
    &&& forall|j: int| 0 <= j < strings.len() ==> (#[trigger] strings[j])@ == texts[j]
}

impl Client {
    /// Returns all known subtypes for `partition_table_type` (e.g. `dos` or
    /// `gpt`), in the order of the table.
    pub fn partition_table_subtypes(&self, partition_table_type: &str) -> (r: Vec<&'static str>)
        ensures
            spells(r@, subtypes_of(partition_table_type@, PARTITION_TABLE_SUBTYPES_LEN as int)),
    {
        let mut out: Vec<&'static str> = Vec::new();
        let mut i: usize = 0;
        while i < PARTITION_TABLE_SUBTYPES_LEN
            invariant
                i <= PARTITION_TABLE_SUBTYPES_LEN,
                spells(out@, subtypes_of(partition_table_type@, i as int)),
            decreases PARTITION_TABLE_SUBTYPES_LEN - i,
        {
            let row = partition_table_subtype_at(i);
            if row.ty.eq(partition_table_type) {
                out.push(row.subtype);
            }
            i += 1;
        }
        out
    }

    /// Returns a human-readable localized description for
    /// `partition_table_type` (e.g. `dos` or `gpt`) and
    /// `partition_table_subtype` (e.g. `linux`), if the two are known.
    pub fn partition_table_subtype_for_display(
        &self,
        partition_table_type: &str,
        partition_table_subtype: &str,
    ) -> (r: Option<String>)
        ensures
            crate::text::chars_of(r) == subtype_text(
                self@.catalog,
                partition_table_type@,
                partition_table_subtype@,
            ),
    {
        let mut i: usize = 0;
        while i < PARTITION_TABLE_SUBTYPES_LEN
            invariant
                i <= PARTITION_TABLE_SUBTYPES_LEN,
                subtype_row(partition_table_type@, partition_table_subtype@, i as int) is None,
            decreases PARTITION_TABLE_SUBTYPES_LEN - i,
        {
            let row = partition_table_subtype_at(i);
            if row.ty.eq(partition_table_type) && row.subtype.eq(partition_table_subtype) {
                proof {
                    lemma_subtype_row_stays(
                        partition_table_type@,
                        partition_table_subtype@,
                        i as int + 1,
                        PARTITION_TABLE_SUBTYPES_LEN as int,
                    );
                }
                return Some(
                    self.catalog().lookup(
                        Domain::Package,
                        Some("partition-subtype"),
                        row.name,
                    ).to_owned(),
                );
            }
            i += 1;
        }
        None
    }
}

/// A row found among the first rows is the row found among more of them.
pub proof fn lemma_subtype_row_stays(table_type: Seq<char>, subtype: Seq<char>, i: int, upto: int)
    requires
        0 <= i <= upto,
        subtype_row(table_type, subtype, i) is Some,
    ensures
        subtype_row(table_type, subtype, upto) == subtype_row(table_type, subtype, i),
    decreases upto - i,
{
    if i < upto {
        lemma_subtype_row_stays(table_type, subtype, i, upto - 1);
    }
}

} // verus!
