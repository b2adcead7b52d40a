use crate::command_map::{
    command_count, command_at, command_entries, insert_command, insert_entries,
    lemma_insert_entry, names_distinct, new_command_map,
};
use crate::user_command::{command_of_document, CommandDocument, CommandView, UserCommand};
use indexmap::IndexMap;
use vstd::prelude::*;

verus! {

#[verifier::external_type_specification]
#[verifier::external_body]
pub struct ExIoError(std::io::Error);

#[verifier::external_type_specification]
#[verifier::external_body]
pub struct ExYamlError(serde_yaml::Error);

/// The ways in which finding, loading or using a configuration fails.
#[derive(Debug)]
pub enum HoiError {
    /// A file could not be read, or a process could not be started.
    Io(std::io::Error),
    /// A configuration document is not well-formed.
    YamlParsing(serde_yaml::Error),
    /// No command has the given name or alias.
    CommandNotFound(String),
    /// There is neither a local nor a global configuration file.
    ConfigNotFound,
    /// A configuration declares no command.
    NoCommandsDefined,
}

/// A configuration: the settings of one document, or the effective result of merging.
#[derive(Debug)]
pub struct Hoi {
    pub version: String,
    pub description: String,
    /// The program template through which every command runs.
    pub entrypoint: Vec<String>,
    /// The entrypoint was declared by a document rather than filled in by default.
    pub entrypoint_declared: bool,
    /// The commands by name, in the order in which they were declared.
    pub commands: IndexMap<String, UserCommand>,
}

/// What a configuration holds, as mathematical values.
pub struct HoiView {
    pub version: Seq<char>,
    pub description: Seq<char>,
    pub entrypoint: Seq<Seq<char>>,
    pub entrypoint_declared: bool,
    pub commands: Seq<(Seq<char>, CommandView)>,
}

impl View for Hoi {
    type V = HoiView;

    open spec fn view(&self) -> HoiView {
        HoiView {
            version: self.version@,
            description: self.description@,
            entrypoint: self.entrypoint.deep_view(),
            entrypoint_declared: self.entrypoint_declared,
            commands: command_entries(self.commands),
        }
    }
}

impl Hoi {
    /// Command names are unique.
    pub open spec fn wf(&self) -> bool {
        names_distinct(command_entries(self.commands))
    }
}

/// A configuration document as parsed, before defaults apply.
#[derive(Debug)]
pub struct ConfigDocument {
    pub version: Option<String>,
    pub description: Option<String>,
    pub entrypoint: Option<Vec<String>>,
    /// The command entries in document order.
    pub commands: Option<Vec<(String, CommandDocument)>>,
}

/// The configuration with nothing in it, from which merging starts.
pub open spec fn empty_config() -> HoiView {
    HoiView {
        version: Seq::empty(),
        description: Seq::empty(),
        entrypoint: Seq::empty(),
        entrypoint_declared: false,
        commands: Seq::empty(),
    }
}

/// The command entries of a document, each normalised.
pub open spec fn document_entries(list: Seq<(String, CommandDocument)>) -> Seq<(Seq<char>, CommandView)> {
    list.map_values(|e: (String, CommandDocument)| (e.0@, command_of_document(e.1)))
}

/// A document declares at least one command.
pub open spec fn declares_commands(doc: ConfigDocument) -> bool {
    doc.commands matches Some(list) && list@.len() > 0
}

/// The configuration that a document describes, each absent field taking its default.
pub open spec fn config_of_document(doc: ConfigDocument) -> HoiView {
    HoiView {
        version: match doc.version {
            Some(v) => v@,
            None => spec_default_version(),
        },
        description: match doc.description {
            Some(d) => d@,
            None => spec_default_description(),
        },
        entrypoint: match doc.entrypoint {
            Some(e) => e.deep_view(),
            None => spec_default_entrypoint(),
        },
        entrypoint_declared: doc.entrypoint is Some,
        commands: match doc.commands {
            Some(list) => insert_entries(Seq::empty(), document_entries(list@)),
            None => Seq::empty(),
        },
    }
}

/// `acc` with the settings of `layer` on top: a non-empty entrypoint replaces the current
/// one when the layer declared it or none is set yet, so that a declared entrypoint beats
/// the default; a non-empty description replaces the current one, unless
/// `description_if_unset` holds and a description is already there; each command replaces
/// the one of the same name.
pub open spec fn overlay(acc: HoiView, layer: HoiView, description_if_unset: bool) -> HoiView {
    HoiView {
        version: acc.version,
        description: if layer.description.len() > 0 && (!description_if_unset
            || acc.description.len() == 0) {
            layer.description
        } else {
            acc.description
        },
        entrypoint: if layer.entrypoint.len() > 0 && (layer.entrypoint_declared
            || acc.entrypoint.len() == 0) {
            layer.entrypoint
        } else {
            acc.entrypoint
        },
        entrypoint_declared: if layer.entrypoint.len() > 0 && layer.entrypoint_declared {
            true
        } else {
            acc.entrypoint_declared
        },
        commands: insert_entries(acc.commands, layer.commands),
    }
}

/// The effective configuration: the global one folded into the empty configuration, then
/// the local one on top.
pub open spec fn merged(global: Option<HoiView>, local: Option<HoiView>) -> HoiView {
    let g = match global {
        Some(g) => overlay(empty_config(), g, true),
        None => empty_config(),
    };
    match local {
        Some(l) => overlay(g, l, false),
        None => g,
    }
}

/// The view of a configuration that may be absent.
pub open spec fn view_of(c: Option<Hoi>) -> Option<HoiView> {
    match c {
        Some(h) => Some(h@),
        None => None,
    }
}

/// What a configuration source contributes: the configuration if it loaded, else nothing.
pub open spec fn contribution(source: Option<Result<Hoi, HoiError>>) -> Option<HoiView> {
    match source {
        Some(Ok(h)) => Some(h@),
        _ => None,
    }
}

/// The version recorded for a document that declares none.
pub open spec fn spec_default_version() -> Seq<char> {
    seq!['1']
}

/// The description recorded for a document that declares none: empty.
pub open spec fn spec_default_description() -> Seq<char> {
    Seq::empty()
}

/// The entrypoint used when a document declares none: `bash -e -c "$@"`.
pub open spec fn spec_default_entrypoint() -> Seq<Seq<char>> {
    seq!["bash"@, "-e"@, "-c"@, "$@"@]
}

/// Returns the default description string for a configuration.
pub fn default_description() -> (r: String)
    ensures
        r@ == spec_default_description(),
{
    String::new()
}

/// Returns the default version string for a configuration.
pub fn default_version() -> (r: String)
    ensures
        r@ == spec_default_version(),
{
    let r = "1".to_owned();
    proof {
        reveal_strlit("1");
    }
    r
}

/// Returns the entrypoint used when a configuration names none.
pub fn default_entrypoint() -> (r: Vec<String>)
    ensures
        r.deep_view() == spec_default_entrypoint(),
{
    let mut r: Vec<String> = Vec::new();
    r.push("bash".to_owned());
    r.push("-e".to_owned());
    r.push("-c".to_owned());
    r.push("$@".to_owned());
    assert(r.deep_view() =~= spec_default_entrypoint()) by {
        assert(r.deep_view()[0] == "bash"@);
        assert(r.deep_view()[1] == "-e"@);
        assert(r.deep_view()[2] == "-c"@);
        assert(r.deep_view()[3] == "$@"@);
    }
    r
}

impl Default for Hoi {
    /// The empty configuration: no description, no entrypoint, no commands.
    fn default() -> (r: Hoi)
        ensures
            r@ == empty_config(),
            r.wf(),
    {
        let r = Hoi {
            version: String::new(),
            description: String::new(),
            entrypoint: Vec::new(),
            entrypoint_declared: false,
            commands: new_command_map(),
        };
        assert(r.entrypoint.deep_view() =~= Seq::empty());
        r
    }
}

/// Stores each entry of `layer` in `commands`, in order.
fn insert_all(commands: &mut IndexMap<String, UserCommand>, layer: &IndexMap<String, UserCommand>)
    requires
        names_distinct(command_entries(*old(commands))),
    ensures
        names_distinct(command_entries(*final(commands))),
        command_entries(*final(commands)) == insert_entries(
            command_entries(*old(commands)),
            command_entries(*layer),
        ),
{
    let ghost start = command_entries(*commands);
    let ghost added = command_entries(*layer);
    let n = command_count(layer);
    let mut i: usize = 0;
    while i < n
        invariant
            i <= n,
            n == added.len(),
            added == command_entries(*layer),
            names_distinct(command_entries(*commands)),
            command_entries(*commands) == insert_entries(start, added.take(i as int)),
        decreases n - i,
    {
        let entry = command_at(layer, i);
        match entry {
            Some((name, c)) => {
                proof {
                    lemma_insert_entry(command_entries(*commands), name@, c@);
                }
                insert_command(commands, name.clone(), c.duplicate());
                assert(added.take(i + 1).drop_last() =~= added.take(i as int));
            },
            None => {},
        }
        i += 1;
    }
    assert(added.take(n as int) =~= added);
}

/// Folds `layer` onto `acc` as `overlay` describes.
fn overlay_config(acc: Hoi, layer: Hoi, description_if_unset: bool) -> (r: Hoi)
    requires
        acc.wf(),
    ensures
        r.wf(),
        r@ == overlay(acc@, layer@, description_if_unset),
{
    let Hoi { version, description, entrypoint, entrypoint_declared, mut commands } = acc;
    insert_all(&mut commands, &layer.commands);
    let Hoi {
        description: layer_description,
        entrypoint: layer_entrypoint,
        entrypoint_declared: layer_declared,
        ..
    } = layer;
    let description = if !layer_description.as_str().is_empty() && (!description_if_unset
        || description.as_str().is_empty()) {
        layer_description
    } else {
        description
    };
    let takes_entrypoint = !layer_entrypoint.is_empty() && (layer_declared
        || entrypoint.is_empty());
    let entrypoint_declared = if !layer_entrypoint.is_empty() && layer_declared {
        true
    } else {
        entrypoint_declared
    };
    let entrypoint = if takes_entrypoint {
        layer_entrypoint
    } else {
        entrypoint
    };
    Hoi { version, description, entrypoint, entrypoint_declared, commands }
}

impl Hoi {
    /// Builds the configuration that a parsed document describes: absent fields take their
    /// defaults and aliases are trimmed. A document without commands is refused.
    pub fn from_document(doc: &ConfigDocument) -> (r: Result<Hoi, HoiError>)
        ensures
            r is Ok <==> declares_commands(*doc),
            r matches Err(e) ==> e is NoCommandsDefined,
            r matches Ok(h) ==> h.wf() && h@ == config_of_document(*doc),
    {
        let version = match &doc.version {
            Some(v) => v.clone(),
            None => default_version(),
        };
        let description = match &doc.description {
            Some(d) => d.clone(),
            None => default_description(),
        };
        let entrypoint = match &doc.entrypoint {
            Some(e) => copy_strings(e),
            None => default_entrypoint(),
        };
        let mut commands = new_command_map();
        match &doc.commands {
            Some(list) => {
                let ghost added = document_entries(list@);
                let mut i: usize = 0;
                while i < list.len()
                    invariant
                        i <= list.len(),
                        added == document_entries(list@),
                        names_distinct(command_entries(commands)),
                        command_entries(commands) == insert_entries(
                            Seq::empty(),
                            added.take(i as int),
                        ),
                        i > 0 ==> command_entries(commands).len() > 0,
                    decreases list.len() - i,
                {
                    let (name, c) = &list[i];
                    let command = UserCommand::from_document(c);
                    proof {
                        lemma_insert_entry(command_entries(commands), name@, command@);
                    }
                    insert_command(&mut commands, name.clone(), command);
                    assert(added.take(i + 1).drop_last() =~= added.take(i as int));
                    i += 1;
                }
                assert(added.take(list.len() as int) =~= added);
            },
            None => {},
        }
        if command_count(&commands) == 0 {
            return Err(HoiError::NoCommandsDefined);
        }
        let entrypoint_declared = doc.entrypoint.is_some();
        Ok(Hoi { version, description, entrypoint, entrypoint_declared, commands })
    }

    /// Merges the global and the local configuration: starting from the empty
    /// configuration, the global one is folded in, then the local one on top of it, so that
    /// the most specific non-empty value wins (a declared entrypoint beating the default one)
    /// and a local command replaces a global command of the same name.
    pub fn merge(global: Option<Hoi>, local: Option<Hoi>) -> (r: Hoi)
        ensures
            r.wf(),
            r@ == merged(view_of(global), view_of(local)),
    {
        let mut current = Hoi::default();
        match global {
            Some(g) => {
                current = overlay_config(current, g, true);
            },
            None => {},
        }
        match local {
            Some(l) => {
                current = overlay_config(current, l, false);
            },
            None => {},
        }
        current
    }

    /// The effective configuration from the two sources, each absent (`None`), failed to
    /// load (`Some(Err(_))`) or loaded. A source that failed to load contributes nothing.
    /// With neither source present the result is `ConfigNotFound`; when the merge holds
    /// no command it is `NoCommandsDefined`.
    pub fn resolve(global: Option<Result<Hoi, HoiError>>, local: Option<Result<Hoi, HoiError>>) -> (r:
        Result<Hoi, HoiError>)
        ensures
            match r {
                Ok(h) => {
                    &&& !(global is None && local is None)
                    &&& h.wf()
                    &&& h@ == merged(contribution(global), contribution(local))
                    &&& h@.commands.len() > 0
                },
                Err(e) => if global is None && local is None {
                    e is ConfigNotFound
                } else {
                    &&& e is NoCommandsDefined
                    &&& merged(contribution(global), contribution(local)).commands.len() == 0
                },
            },
    {
        if global.is_none() && local.is_none() {
            return Err(HoiError::ConfigNotFound);
        }
        let g = match global {
            Some(Ok(h)) => Some(h),
            _ => None,
        };
        let l = match local {
            Some(Ok(h)) => Some(h),
            _ => None,
        };
        let m = Hoi::merge(g, l);
        if command_count(&m.commands) == 0 {
            return Err(HoiError::NoCommandsDefined);
        }
        Ok(m)
    }
}

/// A copy of a list of strings.
fn copy_strings(v: &Vec<String>) -> (r: Vec<String>)
    ensures
        r.deep_view() == v.deep_view(),
{
    let mut r: Vec<String> = Vec::new();
    let mut i: usize = 0;
    while i < v.len()
        invariant
            i <= v.len(),
            r.deep_view() =~= v.deep_view().take(i as int),
        decreases v.len() - i,
    {
        let ghost before = r.deep_view();
        r.push(v[i].clone());
        assert(r.deep_view() =~= before.push(v.deep_view()[i as int]));
        assert(v.deep_view().take(i + 1) =~= v.deep_view().take(i as int).push(
            v.deep_view()[i as int],
        ));
        i += 1;
    }
    assert(v.deep_view().take(v.len() as int) =~= v.deep_view());
    r
}

} // verus!
