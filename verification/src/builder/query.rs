//! Building a database query from a table, columns, conditions and an order.
use crate::text::{clone_optional, clone_texts};
use vstd::prelude::*;

verus! {

/// A query on one table.
#[derive(Debug)]
pub struct Query {
    pub table: String,
    pub columns: Vec<String>,
    pub conditions: Vec<String>,
    pub order_by: Option<String>,
}

/// Collects the parts of a query. Columns and conditions pile up in the
/// order they are added, over every build; the table and the order are
/// replaced when set again.
#[derive(Debug)]
pub struct SqlQueryBuilder {
    pub table: String,
    pub columns: Vec<String>,
    pub conditions: Vec<String>,
    pub order_by: Option<String>,
}

impl SqlQueryBuilder {
    /// A builder with an empty table name, no columns, no conditions and no
    /// order.
    pub fn new() -> (builder: Self)
        ensures
            builder.table@.len() == 0,
            builder.columns@.len() == 0,
            builder.conditions@.len() == 0,
            builder.order_by is None,
    {
        SqlQueryBuilder { table: String::new(), columns: Vec::new(), conditions: Vec::new(), order_by: None }
    }

    /// Sets the table.
    pub fn set_table(&mut self, table: &str) -> (builder: &mut Self)
        ensures
            builder.table@ == table@,
            builder.columns == old(self).columns,
            builder.conditions == old(self).conditions,
            builder.order_by == old(self).order_by,
            *final(self) == *final(builder),
    {
        self.table = table.to_string();
        self
    }

    /// Adds a column behind those added before.
    pub fn add_column(&mut self, column: &str) -> (builder: &mut Self)
        ensures
            builder.table == old(self).table,
            builder.columns@.len() == old(self).columns@.len() + 1,
            builder.columns@.drop_last() == old(self).columns@,
            builder.columns@.last()@ == column@,
            builder.conditions == old(self).conditions,
            builder.order_by == old(self).order_by,
            *final(self) == *final(builder),
    {
        self.columns.push(column.to_string());
        proof {
            assert(self.columns@.drop_last() =~= old(self).columns@);
        }
        self
    }

    /// Adds a condition behind those added before.
    pub fn add_condition(&mut self, condition: &str) -> (builder: &mut Self)
        ensures
            builder.table == old(self).table,
            builder.columns == old(self).columns,
            builder.conditions@.len() == old(self).conditions@.len() + 1,
            builder.conditions@.drop_last() == old(self).conditions@,
            builder.conditions@.last()@ == condition@,
            builder.order_by == old(self).order_by,
            *final(self) == *final(builder),
    {
        self.conditions.push(condition.to_string());
        proof {
            assert(self.conditions@.drop_last() =~= old(self).conditions@);
        }
        self
    }

    /// Sets the order.
    pub fn set_order_by(&mut self, order_by: &str) -> (builder: &mut Self)
        ensures
            builder.table == old(self).table,
            builder.columns == old(self).columns,
            builder.conditions == old(self).conditions,
            builder.order_by is Some,
            builder.order_by->0@ == order_by@,
            *final(self) == *final(builder),
    {
        self.order_by = Some(order_by.to_string());
        self
    }

    /// The query made of the parts collected so far. The builder keeps them.
    pub fn build(&self) -> (query: Query)
        ensures
            query.table == self.table,
            query.columns@ == self.columns@,
            query.conditions@ == self.conditions@,
            query.order_by == self.order_by,
    {
        Query {
            table: self.table.clone(),
            columns: clone_texts(&self.columns),
            conditions: clone_texts(&self.conditions),
            order_by: clone_optional(&self.order_by),
        }
    }
}

} // verus!
