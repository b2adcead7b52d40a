use vstd::prelude::*;

verus! {

/// What a command line asks for.
#[derive(Debug)]
pub enum Request {
    /// Write a starter configuration into the working directory.
    Init,
    /// Show the commands.
    List,
    /// Run the command that `token` names, with the remaining arguments.
    Run { token: String, args: Vec<String> },
}

/// Reads the arguments after the program name: none lists the commands, `init` writes a
/// starter configuration, anything else names a command to run with the rest as its
/// arguments.
pub fn parse_request(args: &Vec<String>) -> (r: Request)
    ensures
        args@.len() == 0 ==> r is List,
        args@.len() > 0 && args@[0]@ == "init"@ ==> r is Init,
        args@.len() > 0 && args@[0]@ != "init"@ ==> (r matches Request::Run { token, args: rest }
            && token@ == args@[0]@ && rest.deep_view() == args.deep_view().drop_first()),
{
    if args.len() == 0 {
        return Request::List;
    }
    let init = "init".to_owned();
    if args[0].eq(&init) {
        return Request::Init;
    }
    let mut rest: Vec<String> = Vec::new();
    let mut i: usize = 1;
    while i < args.len()
        invariant
            1 <= i <= args.len(),
            rest.deep_view() =~= args.deep_view().subrange(1, i as int),
        decreases args.len() - i,
    {
        let ghost before = rest.deep_view();
        rest.push(args[i].clone());
        assert(rest.deep_view() =~= before.push(args.deep_view()[i as int]));
        i += 1;
    }
    Request::Run { token: args[0].clone(), args: rest }
}

} // verus!
