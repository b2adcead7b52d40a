use vstd::prelude::*;

verus! {

/// One named, runnable command of a configuration.
#[derive(Debug)]
pub struct UserCommand {
    /// The shell text to run; it may span several lines.
    pub cmd: String,
    /// An alternate lookup key: trimmed, and never empty.
    pub alias: Option<String>,
    /// The text shown beside the command in the listing.
    pub description: String,
}

/// What a command holds, as mathematical values.
pub struct CommandView {
    pub cmd: Seq<char>,
    pub alias: Option<Seq<char>>,
    pub description: Seq<char>,
}

impl View for UserCommand {
    type V = CommandView;

    open spec fn view(&self) -> CommandView {
        CommandView { cmd: self.cmd@, alias: self.alias.deep_view(), description: self.description@ }
    }
}

/// A command as a configuration document states it, before defaults apply.
#[derive(Debug)]
pub struct CommandDocument {
    pub cmd: String,
    pub alias: Option<String>,
    pub description: Option<String>,
}

/// What `str::trim` makes of a text: the text without leading and trailing white space.
pub uninterp spec fn trim_of(s: Seq<char>) -> Seq<char>;

/// An alias as a lookup key: the trimmed text, or nothing when that is empty.
pub open spec fn trimmed_alias(alias: Option<Seq<char>>) -> Option<Seq<char>> {
    match alias {
        Some(a) => if trim_of(a).len() == 0 {
            None
        } else {
            Some(trim_of(a))
        },
        None => None,
    }
}

/// The command that a document entry describes: its alias trimmed, its description
/// empty when the document gives none.
pub open spec fn command_of_document(doc: CommandDocument) -> CommandView {
    CommandView {
        cmd: doc.cmd@,
        alias: trimmed_alias(doc.alias.deep_view()),
        description: match doc.description {
            Some(d) => d@,
            None => Seq::empty(),
        },
    }
}

/// Relies on `str::trim`: the text with leading and trailing white space removed.
#[verifier::external_body]
fn trim(s: &str) -> (r: &str)
    ensures
        r@ == trim_of(s@),
{
    s.trim()
}

/// Normalises an alias: surrounding white space is removed, and an alias that is empty
/// after that counts as absent.
pub fn trimmed(alias: Option<String>) -> (r: Option<String>)
    ensures
        r.deep_view() == trimmed_alias(alias.deep_view()),
{
    match alias {
        Some(a) => {
            let t = trim(a.as_str());
            if t.is_empty() {
                None
            } else {
                Some(t.to_owned())
            }
        },
        None => None,
    }
}

impl UserCommand {
    /// Builds a command from a document entry, applying the field defaults.
    pub fn from_document(doc: &CommandDocument) -> (r: UserCommand)
        ensures
            r@ == command_of_document(*doc),
    {
        let alias = match &doc.alias {
            Some(a) => trimmed(Some(a.clone())),
            None => None,
        };
        let description = match &doc.description {
            Some(d) => d.clone(),
            None => String::new(),
        };
        UserCommand { cmd: doc.cmd.clone(), alias, description }
    }

    /// A command with the same fields.
    pub fn duplicate(&self) -> (r: UserCommand)
        ensures
            r@ == self@,
    {
        let alias = match &self.alias {
            Some(a) => Some(a.clone()),
            None => None,
        };
        UserCommand { cmd: self.cmd.clone(), alias, description: self.description.clone() }
    }
}

} // verus!
