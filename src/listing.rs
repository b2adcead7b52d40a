use crate::command_map::{command_at, command_count, command_entries};
use crate::hoi::Hoi;
use crate::user_command::CommandView;
use rand::seq::SliceRandom;
use tabled::builder::Builder;
use tabled::settings::object::Columns;
use tabled::settings::{Alignment, Modify, Padding, Style};
use vstd::prelude::*;

verus! {

/// The facts that the listing may show.
pub open spec fn fact_texts() -> Seq<Seq<char>> {
    seq![
        "In Dutch, 'hoi' is an informal way to say 'hi'."@,
        "Hoi configuration files use YAML format."@,
        "You can add custom commands to Hoi by editing your .hoi.yml file."@,
        "Hoi searches for .hoi.yml in your current directory and up through parent directories."@,
        "Hoi also looks for a global config at ~/.hoi/.hoi.global.yml."@,
        "Global commands are available in all projects and mixed with local commands."@,
        "You can add detailed descriptions to your commands in the .hoi.yml file."@,
        "You can create multi-line commands using the pipe operator (|) in YAML."@,
        "Hoi is designed to help teams standardize their development workflows."@,
        "In Hawaiian, 'hoi hoi' means to entertain, amuse, charm, delight, encourage, or please."@,
        "In Japanese, 'hoi hoi' is a way of describing an action or task that is done quickly and without much thought."@,
        "In Korean, 'hoi hoi' is used when you do something like magic."@,
    ]
}

/// The facts that the listing may show, in a fixed order.
pub fn did_you_know_facts() -> (r: Vec<&'static str>)
    ensures
        r@.map_values(|s: &'static str| s@) == fact_texts(),
{
    let mut r: Vec<&'static str> = Vec::new();
    r.push("In Dutch, 'hoi' is an informal way to say 'hi'.");
    r.push("Hoi configuration files use YAML format.");
    r.push("You can add custom commands to Hoi by editing your .hoi.yml file.");
    r.push("Hoi searches for .hoi.yml in your current directory and up through parent directories.");
    r.push("Hoi also looks for a global config at ~/.hoi/.hoi.global.yml.");
    r.push("Global commands are available in all projects and mixed with local commands.");
    r.push("You can add detailed descriptions to your commands in the .hoi.yml file.");
    r.push("You can create multi-line commands using the pipe operator (|) in YAML.");
    r.push("Hoi is designed to help teams standardize their development workflows.");
    r.push(
        "In Hawaiian, 'hoi hoi' means to entertain, amuse, charm, delight, encourage, or please.",
    );
    r.push(
        "In Japanese, 'hoi hoi' is a way of describing an action or task that is done quickly and without much thought.",
    );
    r.push("In Korean, 'hoi hoi' is used when you do something like magic.");
    assert(r@.map_values(|s: &'static str| s@) =~= fact_texts());
    r
}

/// Relies on rand's `SliceRandom::choose` with the thread-local generator: some element of
/// the slice, or `None` when the slice is empty.
#[verifier::external_body]
fn choose_fact(facts: &[&'static str]) -> (r: Option<&'static str>)
    ensures
        r is None <==> facts@.len() == 0,
        r matches Some(f) ==> facts@.contains(f),
{
    facts.choose(&mut rand::thread_rng()).copied()
}

/// A fact drawn at random from `did_you_know_facts`.
pub fn get_random_did_you_know() -> (r: &'static str)
    ensures
        fact_texts().contains(r@),
{
    let facts = did_you_know_facts();
    match choose_fact(facts.as_slice()) {
        Some(f) => {
            proof {
                let k = choose|k: int| 0 <= k < facts@.len() && facts@[k] == f;
                assert(fact_texts()[k] == f@);
            }
            f
        },
        None => "Hoi is a command-line tool.",
    }
}

/// The alias column of a command: the alias, or empty.
pub open spec fn alias_cell(alias: Option<Seq<char>>) -> Seq<char> {
    match alias {
        Some(a) => a,
        None => Seq::empty(),
    }
}

/// The table row of one command: name, alias, description.
pub open spec fn command_row(entry: (Seq<char>, CommandView)) -> Seq<Seq<char>> {
    seq![entry.0, alias_cell(entry.1.alias), entry.1.description]
}

/// The header row and the row of the built-in `init` command.
pub open spec fn fixed_rows() -> Seq<Seq<Seq<char>>> {
    seq![
        seq!["Command"@, "Alias"@, "Description"@],
        seq!["init"@, ""@, "Create a new .hoi.yml configuration file in the current directory."@],
    ]
}

/// The rows of the command table: the fixed rows, then one per command in order.
pub open spec fn table_rows(entries: Seq<(Seq<char>, CommandView)>) -> Seq<Seq<Seq<char>>> {
    fixed_rows() + entries.map_values(|e: (Seq<char>, CommandView)| command_row(e))
}

/// A row of three cells.
fn row(a: String, b: String, c: String) -> (r: Vec<String>)
    ensures
        r.deep_view() == seq![a@, b@, c@],
{
    let mut r: Vec<String> = Vec::new();
    r.push(a);
    r.push(b);
    r.push(c);
    assert(r.deep_view() =~= seq![a@, b@, c@]);
    r
}

/// The rows of the command table for a configuration.
pub fn command_rows(hoi: &Hoi) -> (r: Vec<Vec<String>>)
    ensures
        r.deep_view() == table_rows(hoi@.commands),
{
    let ghost entries = command_entries(hoi.commands);
    let ghost f = |e: (Seq<char>, CommandView)| command_row(e);
    let mut rows: Vec<Vec<String>> = Vec::new();
    rows.push(row("Command".to_owned(), "Alias".to_owned(), "Description".to_owned()));
    rows.push(
        row(
            "init".to_owned(),
            "".to_owned(),
            "Create a new .hoi.yml configuration file in the current directory.".to_owned(),
        ),
    );
    assert(rows.deep_view() =~= fixed_rows());
    let n = command_count(&hoi.commands);
    let mut i: usize = 0;
    while i < n
        invariant
            i <= n,
            n == entries.len(),
            entries == command_entries(hoi.commands),
            f == (|e: (Seq<char>, CommandView)| command_row(e)),
            rows.deep_view() =~= fixed_rows() + entries.take(i as int).map_values(f),
        decreases n - i,
    {
        match command_at(&hoi.commands, i) {
            Some((name, c)) => {
                let alias = match &c.alias {
                    Some(a) => a.clone(),
                    None => String::new(),
                };
                let ghost before = rows.deep_view();
                rows.push(row(name.clone(), alias, c.description.clone()));
                assert(rows.deep_view() =~= before.push(f(entries[i as int])));
                assert(entries.take(i + 1).map_values(f) =~= entries.take(i as int).map_values(
                    f,
                ).push(f(entries[i as int])));
            },
            None => {},
        }
        i += 1;
    }
    assert(entries.take(n as int) =~= entries);
    rows
}

/// What tabled prints for these rows in the listing's style.
pub uninterp spec fn blank_table(rows: Seq<Seq<Seq<char>>>) -> Seq<char>;

/// Relies on tabled: a `Builder` made from the rows, built into a table with the blank style,
/// one space of padding left and right, every column aligned left, and printed.
#[verifier::external_body]
fn render_table(rows: Vec<Vec<String>>) -> (r: String)
    ensures
        r@ == blank_table(rows.deep_view()),
{
    let mut table = Builder::from(rows).build();
    table.with(Style::blank()).with(Padding::new(1, 1, 0, 0)).with(
        Modify::new(Columns::new(..)).with(Alignment::left()),
    );
    table.to_string()
}

/// The full listing: greeting, a fact, usage, the description when there is one, and the
/// command table.
pub open spec fn listing_text(description: Seq<char>, fact: Seq<char>, table: Seq<char>) -> Seq<
    char,
> {
    "Hoi Hoi!\n\nDid you know? "@ + fact
        + "\n\nUsage:\n  hoi [command|alias] (command options) (command arguments...)\n"@ + (if description.len() > 0 {
        "\n"@ + description + "\n\n"@
    } else {
        "\n"@
    }) + table + "\n\n"@
}

/// The text shown when the tool runs without arguments, with `fact` as its fact.
pub fn listing(hoi: &Hoi, fact: &str) -> (r: String)
    ensures
        r@ == listing_text(hoi@.description, fact@, blank_table(table_rows(hoi@.commands))),
{
    let table = render_table(command_rows(hoi));
    let mut out = "Hoi Hoi!\n\nDid you know? ".to_owned();
    out.append(fact);
    out.append("\n\nUsage:\n  hoi [command|alias] (command options) (command arguments...)\n");
    if !hoi.description.as_str().is_empty() {
        out.append("\n");
        out.append(hoi.description.as_str());
        out.append("\n\n");
    } else {
        out.append("\n");
    }
    out.append(table.as_str());
    out.append("\n\n");
    assert(out@ =~= listing_text(
        hoi@.description,
        fact@,
        blank_table(table_rows(hoi@.commands)),
    ));
    out
}

/// The text shown when the tool runs without arguments, with a fact drawn at random.
pub fn display_text(hoi: &Hoi) -> (r: String)
    ensures
        exists|fact: Seq<char>|
            fact_texts().contains(fact) && r@ == listing_text(
                hoi@.description,
                fact,
                blank_table(table_rows(hoi@.commands)),
            ),
{
    let fact = get_random_did_you_know();
    listing(hoi, fact)
}

} // verus!
