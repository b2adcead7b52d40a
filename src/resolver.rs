use crate::command_map::{command_at, command_count, command_entries, get_command, has_name};
use crate::hoi::{Hoi, HoiError};
use crate::user_command::CommandView;
use vstd::prelude::*;

verus! {

/// The entry's alias is `token`.
pub open spec fn alias_is(entry: (Seq<char>, CommandView), token: Seq<char>) -> bool {
    entry.1.alias == Some(token)
}

/// Entry `i` is the first whose alias is `token`.
pub open spec fn first_with_alias(
    entries: Seq<(Seq<char>, CommandView)>,
    token: Seq<char>,
    i: int,
) -> bool {
    &&& 0 <= i < entries.len()
    &&& alias_is(entries[i], token)
    &&& forall|j: int| 0 <= j < i ==> !alias_is(#[trigger] entries[j], token)
}

/// The name of the first command whose alias is `token`, if any.
pub open spec fn alias_owner(entries: Seq<(Seq<char>, CommandView)>, token: Seq<char>) -> Option<
    Seq<char>,
> {
    if exists|i: int| first_with_alias(entries, token, i) {
        Some(entries[choose|i: int| first_with_alias(entries, token, i)].0)
    } else {
        None
    }
}

/// The command name that `token` stands for: the owner of that alias, else the token itself
/// when a command has that name, else nothing.
pub open spec fn resolved_name(entries: Seq<(Seq<char>, CommandView)>, token: Seq<char>) -> Option<
    Seq<char>,
> {
    match alias_owner(entries, token) {
        Some(name) => Some(name),
        None => if has_name(entries, token) {
            Some(token)
        } else {
            None
        },
    }
}

/// Looks up a command by its alias: the name of the first command, in declaration order,
/// whose alias equals `alias`.
pub fn find_command_by_alias(hoi: &Hoi, alias: &str) -> (r: Option<String>)
    ensures
        r.deep_view() == alias_owner(hoi@.commands, alias@),
{
    let ghost entries = command_entries(hoi.commands);
    let wanted = alias.to_owned();
    let n = command_count(&hoi.commands);
    let mut i: usize = 0;
    while i < n
        invariant
            i <= n,
            n == entries.len(),
            entries == command_entries(hoi.commands),
            wanted@ == alias@,
            forall|j: int| 0 <= j < i ==> !alias_is(#[trigger] entries[j], alias@),
        decreases n - i,
    {
        match command_at(&hoi.commands, i) {
            Some((name, c)) => {
                match &c.alias {
                    Some(a) => {
                        if a.eq(&wanted) {
                            proof {
                                assert(first_with_alias(entries, alias@, i as int));
                                let k = choose|k: int| first_with_alias(entries, alias@, k);
                                assert(k == i) by {
                                    if k < i {
                                        assert(!alias_is(entries[k], alias@));
                                    } else if k > i {
                                        assert(!alias_is(entries[i as int], alias@));
                                    }
                                }
                            }
                            return Some(name.clone());
                        }
                    },
                    None => {},
                }
            },
            None => {},
        }
        i += 1;
    }
    None
}

/// Resolves a user-supplied token to a command name: an alias takes precedence, then the
/// token as a command name. Fails with `CommandNotFound` when neither matches.
pub fn resolve_command(hoi: &Hoi, token: &str) -> (r: Result<String, HoiError>)
    requires
        hoi.wf(),
    ensures
        match r {
            Ok(name) => resolved_name(hoi@.commands, token@) == Some(name@),
            Err(e) => {
                &&& resolved_name(hoi@.commands, token@) is None
                &&& e matches HoiError::CommandNotFound(t) && t@ == token@
            },
        },
{
    match find_command_by_alias(hoi, token) {
        Some(name) => Ok(name),
        None => {
            if get_command(&hoi.commands, token).is_some() {
                Ok(token.to_owned())
            } else {
                Err(HoiError::CommandNotFound(token.to_owned()))
            }
        },
    }
}

} // verus!
