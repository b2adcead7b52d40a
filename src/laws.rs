use crate::command_map::{
    command_named, has_name, insert_entries, lemma_insert_entries_distinct,
    lemma_insert_entry, names_distinct, position_of,
};
use crate::hoi::{config_of_document, empty_config, merged, ConfigDocument, Hoi};
use crate::user_command::CommandView;
use vstd::prelude::*;

verus! {

/// After storing several entries, a name holds the command that the last of them with that
/// name carries, or, when none carries it, what it held before.
pub proof fn lemma_insert_entries_lookup(
    acc: Seq<(Seq<char>, CommandView)>,
    added: Seq<(Seq<char>, CommandView)>,
    k: Seq<char>,
)
    requires
        names_distinct(acc),
        names_distinct(added),
    ensures
        command_named(insert_entries(acc, added), k) == if has_name(added, k) {
            command_named(added, k)
        } else {
            command_named(acc, k)
        },
    decreases added.len(),
{
    if added.len() > 0 {
        let prefix = added.drop_last();
        let last = added.last();
        assert(names_distinct(prefix)) by {
            assert forall|i: int, j: int|
                0 <= i < prefix.len() && 0 <= j < prefix.len() && i != j implies #[trigger] prefix[i].0
                != #[trigger] prefix[j].0 by {
                assert(prefix[i] == added[i] && prefix[j] == added[j]);
            }
        }
        lemma_insert_entries_lookup(acc, prefix, k);
        lemma_insert_entries_distinct(acc, prefix);
        lemma_insert_entry(insert_entries(acc, prefix), last.0, last.1);
        let n = added.len() - 1;
        assert(added[n].0 == last.0);
        if k == last.0 {
            assert(has_name(added, k));
            let p = position_of(added, k);
            assert(p == n);
        } else {
            if has_name(added, k) {
                let p = position_of(added, k);
                assert(p < n);
                assert(prefix[p] == added[p]);
                assert(has_name(prefix, k));
                let q = position_of(prefix, k);
                assert(added[q] == prefix[q]);
            } else {
                assert(!has_name(prefix, k)) by {
                    if has_name(prefix, k) {
                        let q = position_of(prefix, k);
                        assert(added[q] == prefix[q]);
                    }
                }
            }
        }
    }
}

/// Merge precedence: a command that the local configuration declares is, in the effective
/// configuration, exactly the local definition (it replaces a global command of the same
/// name as a whole), and a command that only the global configuration declares survives
/// unchanged.
pub proof fn lemma_merge_precedence(global: Hoi, local: Hoi, name: Seq<char>)
    requires
        global.wf(),
        local.wf(),
    ensures
        has_name(local@.commands, name) ==> command_named(
            merged(Some(global@), Some(local@)).commands,
            name,
        ) == command_named(local@.commands, name),
        !has_name(local@.commands, name) ==> command_named(
            merged(Some(global@), Some(local@)).commands,
            name,
        ) == command_named(global@.commands, name),
{
    let empty = empty_config().commands;
    assert(names_distinct(empty));
    lemma_insert_entries_distinct(empty, global@.commands);
    lemma_insert_entries_lookup(empty, global@.commands, name);
    let after_global = insert_entries(empty, global@.commands);
    lemma_insert_entries_lookup(after_global, local@.commands, name);
    assert(!has_name(empty, name));
}

/// Entrypoint precedence: a non-empty entrypoint that the local document declares wins;
/// failing that, one that the global document declares; failing both, the one that the
/// global configuration carries, which for a loaded document is the default.
pub proof fn lemma_entrypoint_precedence(global: Hoi, local: Hoi)
    ensures
        local@.entrypoint_declared && local@.entrypoint.len() > 0 ==> merged(
            Some(global@),
            Some(local@),
        ).entrypoint == local@.entrypoint,
        !(local@.entrypoint_declared && local@.entrypoint.len() > 0) && global@.entrypoint_declared
            && global@.entrypoint.len() > 0 ==> merged(Some(global@), Some(local@)).entrypoint
            == global@.entrypoint,
        !global@.entrypoint_declared && !local@.entrypoint_declared && global@.entrypoint.len()
            > 0 ==> merged(Some(global@), Some(local@)).entrypoint == global@.entrypoint,
{
}

/// Document defaults: a document that names no entrypoint runs commands through
/// `bash -e -c "$@"`, and one that names no version has version `1`.
pub proof fn lemma_document_defaults(doc: ConfigDocument)
    ensures
        doc.entrypoint is None ==> config_of_document(doc).entrypoint == seq![
            "bash"@,
            "-e"@,
            "-c"@,
            "$@"@,
        ],
        doc.version is None ==> config_of_document(doc).version == "1"@,
{
    reveal_strlit("1");
}

} // verus!
