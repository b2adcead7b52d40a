use crate::user_command::{CommandView, UserCommand};
use indexmap::IndexMap;
use vstd::prelude::*;

verus! {

#[verifier::external_type_specification]
#[verifier::external_body]
#[verifier::reject_recursive_types(K)]
#[verifier::reject_recursive_types(V)]
#[verifier::reject_recursive_types(S)]
pub struct ExIndexMap<K, V, S>(IndexMap<K, V, S>);

/// The entries of a command map in order: each name with the command stored under it.
pub uninterp spec fn command_entries(m: IndexMap<String, UserCommand>) -> Seq<(Seq<char>, CommandView)>;

/// Some entry carries `name`.
pub open spec fn has_name(entries: Seq<(Seq<char>, CommandView)>, name: Seq<char>) -> bool {
    exists|i: int| 0 <= i < entries.len() && #[trigger] entries[i].0 == name
}

/// No two entries carry the same name.
pub open spec fn names_distinct(entries: Seq<(Seq<char>, CommandView)>) -> bool {
    forall|i: int, j: int|
        0 <= i < entries.len() && 0 <= j < entries.len() && i != j ==> #[trigger] entries[i].0
            != #[trigger] entries[j].0
}

/// The position of the entry that carries `name` (meaningful when there is one).
pub open spec fn position_of(entries: Seq<(Seq<char>, CommandView)>, name: Seq<char>) -> int {
    choose|i: int| 0 <= i < entries.len() && #[trigger] entries[i].0 == name
}

/// The command stored under `name`, if any.
pub open spec fn command_named(entries: Seq<(Seq<char>, CommandView)>, name: Seq<char>) -> Option<
    CommandView,
> {
    if has_name(entries, name) {
        Some(entries[position_of(entries, name)].1)
    } else {
        None
    }
}

/// Entries after storing `c` under `name`: a name already present keeps its place and takes
/// the new command; a new name goes last.
pub open spec fn insert_entry(
    entries: Seq<(Seq<char>, CommandView)>,
    name: Seq<char>,
    c: CommandView,
) -> Seq<(Seq<char>, CommandView)> {
    if has_name(entries, name) {
        entries.update(position_of(entries, name), (name, c))
    } else {
        entries.push((name, c))
    }
}

/// Entries after storing each of `added` in turn.
pub open spec fn insert_entries(
    entries: Seq<(Seq<char>, CommandView)>,
    added: Seq<(Seq<char>, CommandView)>,
) -> Seq<(Seq<char>, CommandView)>
    decreases added.len(),
{
    if added.len() == 0 {
        entries
    } else {
        insert_entry(
            insert_entries(entries, added.drop_last()),
            added.last().0,
            added.last().1,
        )
    }
}

/// Storing an entry keeps the names distinct, keeps every other name's command, and
/// makes `name` hold `c`.
pub proof fn lemma_insert_entry(
    entries: Seq<(Seq<char>, CommandView)>,
    name: Seq<char>,
    c: CommandView,
)
    requires
        names_distinct(entries),
    ensures
        names_distinct(insert_entry(entries, name, c)),
        command_named(insert_entry(entries, name, c), name) == Some(c),
        forall|k: Seq<char>|
            k != name ==> #[trigger] command_named(insert_entry(entries, name, c), k)
                == command_named(entries, k),
        insert_entry(entries, name, c).len() >= entries.len(),
        insert_entry(entries, name, c).len() > 0,
{
    let r = insert_entry(entries, name, c);
    if has_name(entries, name) {
        let p = position_of(entries, name);
        assert(r[p].0 == name);
    } else {
        assert(r[entries.len() as int].0 == name);
    }
    assert(has_name(r, name));
    let q = position_of(r, name);
    assert(r[q] == (name, c));
    assert forall|k: Seq<char>| k != name implies #[trigger] command_named(r, k) == command_named(
        entries,
        k,
    ) by {
        if has_name(entries, k) {
            let p = position_of(entries, k);
            assert(r[p].0 == k);
        }
        if has_name(r, k) {
            let p = position_of(r, k);
            assert(entries[p].0 == k);
        }
    }
}

/// Storing several entries keeps the names distinct.
pub proof fn lemma_insert_entries_distinct(
    entries: Seq<(Seq<char>, CommandView)>,
    added: Seq<(Seq<char>, CommandView)>,
)
    requires
        names_distinct(entries),
    ensures
        names_distinct(insert_entries(entries, added)),
    decreases added.len(),
{
    if added.len() > 0 {
        lemma_insert_entries_distinct(entries, added.drop_last());
        lemma_insert_entry(insert_entries(entries, added.drop_last()), added.last().0, added.last().1);
    }
}

/// Relies on `IndexMap::new`: a new map holds no entries.
#[verifier::external_body]
pub(crate) fn new_command_map() -> (m: IndexMap<String, UserCommand>)
    ensures
        command_entries(m) == Seq::<(Seq<char>, CommandView)>::empty(),
{
    IndexMap::new()
}

/// Relies on `IndexMap::insert`: a key already present keeps its place and takes the new
/// value; a new key is appended last.
#[verifier::external_body]
pub(crate) fn insert_command(m: &mut IndexMap<String, UserCommand>, name: String, command: UserCommand)
    requires
        names_distinct(command_entries(*old(m))),
    ensures
        command_entries(*final(m)) == insert_entry(command_entries(*old(m)), name@, command@),
{
    m.insert(name, command);
}

/// Relies on `IndexMap::len`: the number of entries.
#[verifier::external_body]
pub(crate) fn command_count(m: &IndexMap<String, UserCommand>) -> (n: usize)
    ensures
        n == command_entries(*m).len(),
{
    m.len()
}

/// Relies on `IndexMap::get_index`: the entry at a position below the length.
#[verifier::external_body]
pub(crate) fn command_at(m: &IndexMap<String, UserCommand>, i: usize) -> (r: Option<
    (&String, &UserCommand),
>)
    ensures
        r is Some <==> i < command_entries(*m).len(),
        r matches Some(e) ==> e.0@ == command_entries(*m)[i as int].0 && e.1@ == command_entries(
            *m,
        )[i as int].1,
{
    m.get_index(i)
}

/// Relies on `IndexMap::get`: the value stored under a key equal to `name`.
#[verifier::external_body]
pub(crate) fn get_command<'a>(m: &'a IndexMap<String, UserCommand>, name: &str) -> (r: Option<
    &'a UserCommand,
>)
    requires
        names_distinct(command_entries(*m)),
    ensures
        r is Some <==> has_name(command_entries(*m), name@),
        r matches Some(c) ==> command_named(command_entries(*m), name@) == Some(c@),
{
    m.get(name)
}

} // verus!
