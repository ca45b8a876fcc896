//! Requests accepted by the administrative operations.

use vstd::prelude::*;

verus! {

/// `serde_json::Value`, a key as the request gave it. It is carried
/// through as it is; nothing is claimed of what it holds.
#[verifier::external_type_specification]
#[verifier::external_body]
pub struct ExJsonValue(serde_json::Value);

/// Asks for the table or view called `name` to be dropped.
#[derive(Clone, Debug)]
pub struct DropTableRequest {
    pub name: String,
}

impl DropTableRequest {
    /// A request to drop the entity called `name`.
    pub fn new(name: String) -> (r: Self)
        ensures
            r.name == name,
    {
        DropTableRequest { name }
    }
}

/// Asks for the row to be deleted whose primary key, in the column
/// `primary_key_column`, is `value`.
#[derive(Debug)]
pub struct DeleteRowRequest {
    pub primary_key_column: String,
    pub value: serde_json::Value,
}

/// Asks for the rows to be deleted whose primary keys, in the column
/// `primary_key_column`, are `values`.
#[derive(Debug)]
pub struct DeleteRowsRequest {
    pub primary_key_column: String,
    pub values: Vec<serde_json::Value>,
}

impl DeleteRowsRequest {
    /// The requests for the single rows, in the order of the keys: one for
    /// each key, all for the same column.
    pub fn singles(self) -> (r: Vec<DeleteRowRequest>)
        ensures
            r@.len() == self.values@.len(),
            forall|i: int|
                0 <= i < r@.len() ==> {
                    &&& (#[trigger] r@[i]).primary_key_column@ == self.primary_key_column@
                    &&& r@[i].value == self.values@[i]
                },
    {
        let DeleteRowsRequest { primary_key_column, values } = self;
        let mut values = values;
        let ghost keys = values@;
        let mut reversed: Vec<DeleteRowRequest> = Vec::new();
        while values.len() > 0
            invariant
                values@.len() + reversed@.len() == keys.len(),
                values@ == keys.subrange(0, values@.len() as int),
                forall|i: int|
                    0 <= i < reversed@.len() ==> {
                        &&& (#[trigger] reversed@[i]).primary_key_column@ == primary_key_column@
                        &&& reversed@[i].value == keys[keys.len() - 1 - i]
                    },
            decreases values@.len(),
        {
            let value = values.pop().unwrap();
            reversed.push(DeleteRowRequest { primary_key_column: primary_key_column.clone(), value });
        }
        let mut singles: Vec<DeleteRowRequest> = Vec::new();
        let ghost all = reversed@;
        while reversed.len() > 0
            invariant
                all.len() == keys.len(),
                reversed@.len() + singles@.len() == all.len(),
                reversed@ == all.subrange(0, reversed@.len() as int),
                forall|i: int|
                    0 <= i < all.len() ==> {
                        &&& (#[trigger] all[i]).primary_key_column@ == primary_key_column@
                        &&& all[i].value == keys[keys.len() - 1 - i]
                    },
                forall|i: int|
                    0 <= i < singles@.len() ==> #[trigger] singles@[i] == all[all.len() - 1 - i],
            decreases reversed@.len(),
        {
            let single = reversed.pop().unwrap();
            singles.push(single);
        }
        singles
    }
}

} // verus!
