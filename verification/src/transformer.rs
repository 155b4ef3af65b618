//! The capability every column transformer offers to the pipeline.

use crate::types::{Column, ColumnView};
use vstd::prelude::*;

pub mod redacted;

verus! {

/// A strategy bound to one (database, table, column) triple that maps each
/// value of that column to its replacement.
pub trait Transformer {
    /// The identifier of the strategy.
    spec fn spec_id(&self) -> Seq<char>;

    /// The database the instance is bound to.
    spec fn spec_database_name(&self) -> Seq<char>;

    /// The table the instance is bound to.
    spec fn spec_table_name(&self) -> Seq<char>;

    /// The column the instance is bound to.
    spec fn spec_column_name(&self) -> Seq<char>;

    /// The replacement of `column`: a function of the instance and the value
    /// alone.
    spec fn spec_transform(&self, column: ColumnView) -> ColumnView;

    /// The identifier belongs to the strategy, not to the instance: any two
    /// values of the implementing type have the same one.
    proof fn lemma_id_is_constant(&self, other: &Self) where Self: Sized
        ensures
            self.spec_id() == other.spec_id(),
    ;

    /// A short, stable, machine-readable identifier of the strategy.
    fn id(&self) -> (id: &str)
        ensures
            id@ == self.spec_id(),
    ;

    /// A human-readable explanation of the strategy, for help texts. Nothing
    /// depends on what it says.
    fn description(&self) -> (description: &str);

    /// The database the instance is bound to.
    fn database_name(&self) -> (name: &str)
        ensures
            name@ == self.spec_database_name(),
    ;

    /// The table the instance is bound to.
    fn table_name(&self) -> (name: &str)
        ensures
            name@ == self.spec_table_name(),
    ;

    /// The column the instance is bound to.
    fn column_name(&self) -> (name: &str)
        ensures
            name@ == self.spec_column_name(),
    ;

    /// Replaces one value. Never fails; the replacement keeps the name of the
    /// column it came from.
    fn transform(&self, column: Column) -> (transformed: Column)
        ensures
            transformed@ == self.spec_transform(column@),
            transformed@.name() == column@.name(),
    ;
}

} // verus!
