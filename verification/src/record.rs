use vstd::prelude::*;

verus! {

/// The address of a stored record: the table it lives in and its key
/// within that table.
#[derive(Debug)]
pub struct RecordId {
    pub table: String,
    pub key: String,
}

/// Length of a key made up by the store for a new record.
pub const GENERATED_KEY_LEN: usize = 20;

/// A character that the store uses in keys it makes up: an ASCII digit or
/// a lower-case ASCII letter.
pub open spec fn is_key_char(c: char) -> bool {
    ('0' <= c && c <= '9') || ('a' <= c && c <= 'z')
}

/// A key of the shape that the store makes up for a new record.
pub open spec fn is_generated_key(key: Seq<char>) -> bool {
    &&& key.len() == GENERATED_KEY_LEN
    &&& forall|i: int| 0 <= i < key.len() ==> is_key_char(#[trigger] key[i])
}

/// Makes up a fresh random key for a new record.
///
/// Calls `surrealdb_core::sql::Id::rand` and takes the key's raw text with
/// `Id::to_raw`. The store's source makes that key with
/// `nanoid!(20, &ID_CHARS)`: 20 characters drawn from the ASCII digits and
/// lower-case ASCII letters. Which characters come out is left to chance,
/// so the contract states the key's shape and nothing more.
#[verifier::external_body]
pub(crate) fn random_record_key() -> (key: String)
    ensures
        is_generated_key(key@),
{
    surrealdb_core::sql::Id::rand().to_raw()
}

impl RecordId {
    /// The address of a new record of `table`, under a fresh random key.
    pub fn new_in(table: &str) -> (id: Self)
        ensures
            id.table@ == table@,
            is_generated_key(id.key@),
    {
        RecordId { table: String::from_str(table), key: random_record_key() }
    }
}

impl Clone for RecordId {
    fn clone(&self) -> (res: Self)
        ensures
            res == *self,
    {
        RecordId { table: self.table.clone(), key: self.key.clone() }
    }
}

} // verus!
