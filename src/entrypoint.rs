use crate::command_map::{command_named, get_command};
use crate::hoi::{Hoi, HoiError};
use crate::resolver::{resolve_command, resolved_name};
use vstd::prelude::*;

verus! {

/// A program and the arguments to start it with.
#[derive(Debug)]
pub struct Invocation {
    pub program: String,
    pub args: Vec<String>,
}

/// The entrypoint token that stands for the command text.
pub open spec fn placeholder() -> Seq<char> {
    "$@"@
}

/// One template token with the placeholder replaced by the command text.
pub open spec fn substitute_token(token: Seq<char>, cmd: Seq<char>) -> Seq<char> {
    if token == placeholder() {
        cmd
    } else {
        token
    }
}

/// The template with each placeholder replaced by the command text; without a placeholder,
/// the command text is appended as a last token.
pub open spec fn substituted(template: Seq<Seq<char>>, cmd: Seq<char>) -> Seq<Seq<char>> {
    if template.contains(placeholder()) {
        template.map_values(|t: Seq<char>| substitute_token(t, cmd))
    } else {
        template.push(cmd)
    }
}

/// The whole command line: the substituted template followed by the extra arguments.
pub open spec fn expanded(template: Seq<Seq<char>>, cmd: Seq<char>, extra: Seq<Seq<char>>) -> Seq<
    Seq<char>,
> {
    substituted(template, cmd) + extra
}

/// The invocation whose program and arguments, in order, make up `line`.
pub open spec fn runs(inv: Invocation, line: Seq<Seq<char>>) -> bool {
    &&& line.len() > 0
    &&& inv.program@ == line[0]
    &&& inv.args.deep_view() == line.drop_first()
}

/// Expands the entrypoint template for a command: each `$@` token becomes the command text
/// as one argument (the text is appended when no token is `$@`), then `extra` follows.
/// The first token is the program, the rest its arguments.
pub fn expand_entrypoint(entrypoint: &Vec<String>, cmd: &str, extra: &Vec<String>) -> (r:
    Invocation)
    ensures
        runs(r, expanded(entrypoint.deep_view(), cmd@, extra.deep_view())),
{
    let ghost template = entrypoint.deep_view();
    let ghost f = |t: Seq<char>| substitute_token(t, cmd@);
    let marker = "$@".to_owned();
    let mut line: Vec<String> = Vec::new();
    let mut found = false;
    let mut i: usize = 0;
    while i < entrypoint.len()
        invariant
            i <= entrypoint.len(),
            template == entrypoint.deep_view(),
            f == (|t: Seq<char>| substitute_token(t, cmd@)),
            marker@ == placeholder(),
            line.deep_view() == template.take(i as int).map_values(f),
            found == template.take(i as int).contains(placeholder()),
        decreases entrypoint.len() - i,
    {
        let ghost before = line.deep_view();
        let arg = &entrypoint[i];
        assert(arg@ == template[i as int]);
        if arg.eq(&marker) {
            line.push(cmd.to_owned());
            found = true;
        } else {
            line.push(arg.clone());
        }
        assert(line.deep_view() =~= before.push(f(template[i as int])));
        assert(template.take(i + 1) =~= template.take(i as int).push(template[i as int]));
        assert(template.take(i + 1).map_values(f) =~= template.take(i as int).map_values(f).push(
            f(template[i as int]),
        ));
        proof {
            if found {
                if template[i as int] == placeholder() {
                    assert(template.take(i + 1)[i as int] == placeholder());
                } else {
                    let k = choose|k: int|
                        0 <= k < i && template.take(i as int)[k] == placeholder();
                    assert(template.take(i + 1)[k] == placeholder());
                }
            } else {
                assert forall|k: int| 0 <= k < i + 1 implies #[trigger] template.take(i + 1)[k]
                    != placeholder() by {
                    if k < i {
                        assert(template.take(i as int)[k] == template.take(i + 1)[k]);
                    }
                }
            }
        }
        i += 1;
    }
    assert(template.take(entrypoint.len() as int) =~= template);
    if !found {
        let ghost before = line.deep_view();
        line.push(cmd.to_owned());
        assert(line.deep_view() =~= before.push(cmd@));
    }
    let ghost whole = substituted(template, cmd@);
    assert(line.deep_view() =~= whole);
    let mut args: Vec<String> = Vec::new();
    let mut k: usize = 1;
    while k < line.len()
        invariant
            1 <= k <= line.len(),
            line.deep_view() == whole,
            args.deep_view() =~= whole.subrange(1, k as int),
        decreases line.len() - k,
    {
        let ghost before = args.deep_view();
        args.push(line[k].clone());
        assert(args.deep_view() =~= before.push(whole[k as int]));
        k += 1;
    }
    let mut j: usize = 0;
    while j < extra.len()
        invariant
            j <= extra.len(),
            line.deep_view() == whole,
            args.deep_view() =~= whole.drop_first() + extra.deep_view().take(j as int),
        decreases extra.len() - j,
    {
        let ghost before = args.deep_view();
        args.push(extra[j].clone());
        assert(args.deep_view() =~= before.push(extra.deep_view()[j as int]));
        j += 1;
    }
    assert(extra.deep_view().take(extra.len() as int) =~= extra.deep_view());
    let program = line[0].clone();
    let r = Invocation { program, args };
    assert(expanded(template, cmd@, extra.deep_view()).drop_first() =~= whole.drop_first()
        + extra.deep_view());
    r
}

impl Hoi {
    /// The invocation that running `token` with `extra` arguments makes: the token is
    /// resolved to a command, whose text is placed into the entrypoint.
    pub fn prepare_command(&self, token: &str, extra: &Vec<String>) -> (r: Result<
        Invocation,
        HoiError,
    >)
        requires
            self.wf(),
        ensures
            match resolved_name(self@.commands, token@) {
                Some(name) => r matches Ok(inv) && runs(
                    inv,
                    expanded(
                        self@.entrypoint,
                        command_named(self@.commands, name).unwrap().cmd,
                        extra.deep_view(),
                    ),
                ),
                None => r matches Err(HoiError::CommandNotFound(t)) && t@ == token@,
            },
    {
        let name = match resolve_command(self, token) {
            Ok(name) => name,
            Err(e) => {
                return Err(e);
            },
        };
        match get_command(&self.commands, name.as_str()) {
            Some(c) => Ok(expand_entrypoint(&self.entrypoint, c.cmd.as_str(), extra)),
            None => Err(HoiError::CommandNotFound(token.to_owned())),
        }
    }
}

} // verus!
