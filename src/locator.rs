use vstd::prelude::*;

verus! {

/// The name of a project configuration file.
pub const LOCAL_CONFIG_FILE: &'static str = ".hoi.yml";

/// The directory, under the home directory, that holds the global configuration file.
pub const GLOBAL_CONFIG_DIR: &'static str = ".hoi";

/// The name of the global configuration file.
pub const GLOBAL_CONFIG_FILE: &'static str = ".hoi.global.yml";

/// The directories are searched from the nearest outwards: `present[i]` says whether the
/// `i`-th of them, the working directory being the first, holds a configuration file.
/// The result is the nearest one that does.
pub open spec fn is_nearest(present: Seq<bool>, i: int) -> bool {
    &&& 0 <= i < present.len()
    &&& present[i]
    &&& forall|j: int| 0 <= j < i ==> !#[trigger] present[j]
}

/// Picks the local configuration among the directories from the working directory up to the
/// root: the index of the nearest that holds a file, or `None` when none does.
pub fn nearest_config(present: &Vec<bool>) -> (r: Option<usize>)
    ensures
        match r {
            Some(i) => is_nearest(present@, i as int),
            None => forall|j: int| 0 <= j < present@.len() ==> !#[trigger] present@[j],
        },
{
    let mut i: usize = 0;
    while i < present.len()
        invariant
            i <= present.len(),
            forall|j: int| 0 <= j < i ==> !#[trigger] present@[j],
        decreases present.len() - i,
    {
        if present[i] {
            return Some(i);
        }
        i += 1;
    }
    None
}

/// An environment file next to the local configuration, and whether its values replace
/// variables that are already set.
#[derive(Debug)]
pub struct EnvFile {
    pub name: &'static str,
    pub overrides: bool,
}

/// The environment files to load, in order: `.env` first without replacing anything, then
/// `.env.local`, whose values replace those already set.
pub fn environment_files() -> (r: Vec<EnvFile>)
    ensures
        r@.len() == 2,
        r@[0].name@ == ".env"@,
        !r@[0].overrides,
        r@[1].name@ == ".env.local"@,
        r@[1].overrides,
{
    let mut r: Vec<EnvFile> = Vec::new();
    r.push(EnvFile { name: ".env", overrides: false });
    r.push(EnvFile { name: ".env.local", overrides: true });
    r
}

} // verus!
