//! The header tables that go with the requests of a session, built as the
//! broker client's own table type.

use crate::session::{PublishView, QueueBindView, Publish, QueueBind};
use lapin::types::{AMQPValue, FieldTable};
use vstd::prelude::*;

verus! {

/// The broker client's table of named values, `lapin::types::FieldTable`.
/// Nothing of its inside is visible here; [`table_entries`] names what it holds.
#[verifier::external_type_specification]
#[verifier::external_body]
pub struct ExFieldTable(lapin::types::FieldTable);

/// The text entries of a table: for each key under which the table holds a
/// long string, that string.
pub uninterp spec fn table_entries(table: FieldTable) -> Map<Seq<char>, Seq<char>>;

/// The entries of a table that holds nothing.
pub open spec fn no_entries() -> Map<Seq<char>, Seq<char>> {
    Map::empty()
}

/// `FieldTable::default()`: a table over an empty map, so one that holds no
/// entry at all.
#[verifier::external_body]
fn empty_table() -> (table: FieldTable)
    ensures
        table_entries(table) == no_entries(),
{
    FieldTable::default()
}

/// `FieldTable::insert` with a long-string value: the table's map takes the
/// value under the key, in place of what the key held before, and keeps
/// every other entry.
#[verifier::external_body]
fn insert_text(table: &mut FieldTable, key: &str, value: &str)
    ensures
        table_entries(*final(table)) == table_entries(*old(table)).insert(key@, value@),
{
    table.insert(key.into(), AMQPValue::LongString(value.into()));
}

/// The headers of a published message: its origin under `from-id`.
pub open spec fn publish_entries(request: PublishView) -> Map<Seq<char>, Seq<char>> {
    no_entries().insert("from-id"@, request.from_id)
}

/// The arguments of a binding: the service and the identity that a message
/// must carry, and the rule that it must carry both.
pub open spec fn binding_entries(bind: QueueBindView) -> Map<Seq<char>, Seq<char>> {
    no_entries().insert("service"@, bind.service).insert(
        "id"@,
        bind.id,
    ).insert("x-match"@, "all"@)
}

/// A binding asks for exactly three things: the service, the identity, and
/// that a message match both.
pub proof fn law_binding_asks_for_both(bind: QueueBindView)
    ensures
        binding_entries(bind).dom() == set!["service"@, "id"@, "x-match"@],
        binding_entries(bind)["service"@] == bind.service,
        binding_entries(bind)["id"@] == bind.id,
        binding_entries(bind)["x-match"@] == "all"@,
{
    reveal_strlit("service");
    reveal_strlit("id");
    reveal_strlit("x-match");
    assert("x-match"@[0] != "service"@[0]);
}

/// The table for a request that takes no arguments.
pub fn no_arguments() -> (table: FieldTable)
    ensures
        table_entries(table) == no_entries(),
{
    empty_table()
}

/// The header table of a published message.
pub fn publish_headers(request: &Publish) -> (table: FieldTable)
    ensures
        table_entries(table) == publish_entries(request@),
{
    let mut table = empty_table();
    insert_text(&mut table, "from-id", request.from_id.as_str());
    table
}

/// The argument table of a binding.
pub fn binding_arguments(bind: &QueueBind) -> (table: FieldTable)
    ensures
        table_entries(table) == binding_entries(bind@),
{
    let mut table = empty_table();
    insert_text(&mut table, "service", bind.service.as_str());
    insert_text(&mut table, "id", bind.id.as_str());
    insert_text(&mut table, "x-match", "all");
    table
}

} // verus!
