//! Backend-specific SQL for creating a table and its indexes.
use crate::meta::{ColumnMeta, ForeignKeyMeta, IndexMeta};
use vstd::prelude::*;

verus! {

/// The metadata of a table, as a generator reads it.
#[derive(Debug, PartialEq)]
pub struct TableSchema {
    pub name: &'static str,
    pub columns: Vec<ColumnMeta>,
    pub indexes: Vec<IndexMeta>,
}

/// Generates backend-specific SQL from table metadata.
pub trait Generator {
    /// Whether a text is the `CREATE TABLE` statement of a table.
    open spec fn creates_table(&self, schema: TableSchema, statement: Seq<char>) -> bool {
        arbitrary()
    }

    /// Whether a text is the `CREATE INDEX` statement of an index.
    open spec fn creates_index(
        &self,
        schema: TableSchema,
        index: IndexMeta,
        statement: Seq<char>,
    ) -> bool {
        arbitrary()
    }

    /// The statements that create a table and its indexes: the table first, then its indexes in
    /// order.
    fn create_table(&self, schema: &TableSchema) -> (statements: Vec<String>)
        ensures
            statements@.len() == schema.indexes@.len() + 1,
            self.creates_table(*schema, statements@[0]@),
            forall|i: int|
                0 <= i < schema.indexes@.len() ==> self.creates_index(
                    *schema,
                    schema.indexes@[i],
                    (#[trigger] statements@[i + 1])@,
                ),
    {
        let mut statements: Vec<String> = Vec::new();
        statements.push(self.create_table_statement(schema));
        let mut i: usize = 0;
        while i < schema.indexes.len()
            invariant
                i <= schema.indexes@.len(),
                statements@.len() == i + 1,
                self.creates_table(*schema, statements@[0]@),
                forall|k: int|
                    0 <= k < i ==> self.creates_index(
                        *schema,
                        schema.indexes@[k],
                        (#[trigger] statements@[k + 1])@,
                    ),
            decreases schema.indexes@.len() - i,
        {
            let ghost before = statements@;
            statements.push(self.create_index_statement(schema, &schema.indexes[i]));
            proof {
                assert forall|k: int| 0 <= k < i + 1 implies self.creates_index(
                    *schema,
                    schema.indexes@[k],
                    (#[trigger] statements@[k + 1])@,
                ) by {
                    if k < i {
                        assert(statements@[k + 1] == before[k + 1]);
                    }
                }
            }
            i = i + 1;
        }
        statements
    }

    /// The `CREATE TABLE` statement.
    fn create_table_statement(&self, schema: &TableSchema) -> (statement: String)
        ensures
            self.creates_table(*schema, statement@),
    ;

    /// The `CREATE INDEX` statement of one index.
    fn create_index_statement(&self, table: &TableSchema, index: &IndexMeta) -> (statement: String)
        ensures
            self.creates_index(*table, *index, statement@),
    ;

    /// The SQL of one column definition.
    fn column_definition(&self, column: &ColumnMeta) -> String;

    /// The SQL of one foreign-key reference.
    fn foreign_key_reference(&self, reference: &ForeignKeyMeta) -> String;
}

} // verus!
