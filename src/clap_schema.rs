use vstd::prelude::*;

use crate::catalog::{Alias, Descriptor};
use crate::schema::Schema;

verus! {

#[verifier::external_type_specification]
#[verifier::external_body]
pub struct ExClapCommand(clap::Command);

/// A clap command as the schema sees it: its name, and its aliases in order
/// with whether each is listed.
pub uninterp spec fn clap_entry(c: clap::Command) -> (Seq<char>, Seq<(Seq<char>, bool)>);

/// The subcommands of a clap command, in order, each as `clap_entry` sees it.
pub uninterp spec fn clap_subcommands(c: clap::Command) -> Seq<
    (Seq<char>, Seq<(Seq<char>, bool)>),
>;

/// Relies on clap::Command::new: a command with this name, no alias and no
/// subcommand.
#[verifier::external_body]
fn clap_new(name: &String) -> (r: clap::Command)
    ensures
        clap_entry(r) == (name@, Seq::<(Seq<char>, bool)>::empty()),
        clap_subcommands(r) == Seq::<(Seq<char>, Seq<(Seq<char>, bool)>)>::empty(),
{
    clap::Command::new(name.clone())
}

/// Relies on clap::Command::alias: appends an unlisted alias.
#[verifier::external_body]
fn clap_alias(c: clap::Command, name: &String) -> (r: clap::Command)
    ensures
        clap_entry(r) == (clap_entry(c).0, clap_entry(c).1.push((name@, false))),
        clap_subcommands(r) == clap_subcommands(c),
{
    c.alias(name.clone())
}

/// Relies on clap::Command::visible_alias: appends a listed alias.
#[verifier::external_body]
fn clap_visible_alias(c: clap::Command, name: &String) -> (r: clap::Command)
    ensures
        clap_entry(r) == (clap_entry(c).0, clap_entry(c).1.push((name@, true))),
        clap_subcommands(r) == clap_subcommands(c),
{
    c.visible_alias(name.clone())
}

/// Relies on clap::Command::subcommand: appends `sub` to the subcommands.
#[verifier::external_body]
fn clap_subcommand(app: clap::Command, sub: clap::Command) -> (r: clap::Command)
    ensures
        clap_entry(r) == clap_entry(app),
        clap_subcommands(r) == clap_subcommands(app).push(clap_entry(sub)),
{
    app.subcommand(sub)
}

/// The clap entry that a descriptor should become.
pub open spec fn entry_model(d: Descriptor) -> (Seq<char>, Seq<(Seq<char>, bool)>) {
    (d.name@, d.aliases@.map_values(|a: Alias| (a.name@, a.visible)))
}

/// The clap subcommand of one schema entry: its name and its aliases,
/// listed or not.
pub fn clap_subcommand_for(d: &Descriptor) -> (r: clap::Command)
    ensures
        clap_entry(r) == entry_model(*d),
        clap_subcommands(r) == Seq::<(Seq<char>, Seq<(Seq<char>, bool)>)>::empty(),
{
    let mut sub = clap_new(&d.name);
    let mut i: usize = 0;
    while i < d.aliases.len()
        invariant
            i <= d.aliases@.len(),
            clap_entry(sub) == (
                d.name@,
                d.aliases@.take(i as int).map_values(|a: Alias| (a.name@, a.visible)),
            ),
            clap_subcommands(sub) == Seq::<(Seq<char>, Seq<(Seq<char>, bool)>)>::empty(),
        decreases d.aliases@.len() - i,
    {
        let alias = &d.aliases[i];
        if alias.visible {
            sub = clap_visible_alias(sub, &alias.name);
        } else {
            sub = clap_alias(sub, &alias.name);
        }
        assert(d.aliases@.take(i + 1).map_values(|a: Alias| (a.name@, a.visible)) =~= d.aliases@.take(
            i as int,
        ).map_values(|a: Alias| (a.name@, a.visible)).push((alias.name@, alias.visible)));
        i = i + 1;
    }
    assert(d.aliases@.take(d.aliases@.len() as int) =~= d.aliases@);
    sub
}

/// Adds one subcommand to `root` for each entry of the schema, in order.
/// Commands that the schema left out get no subcommand, so clap rejects
/// their names as it rejects any unknown name.
pub fn clap_command(root: clap::Command, schema: &Schema) -> (r: clap::Command)
    ensures
        clap_entry(r) == clap_entry(root),
        clap_subcommands(r) == clap_subcommands(root) + schema.entries@.map_values(
            |d: Descriptor| entry_model(d),
        ),
{
    let mut app = root;
    let mut k: usize = 0;
    while k < schema.entries.len()
        invariant
            k <= schema.entries@.len(),
            clap_entry(app) == clap_entry(root),
            clap_subcommands(app) == clap_subcommands(root) + schema.entries@.take(
                k as int,
            ).map_values(|d: Descriptor| entry_model(d)),
        decreases schema.entries@.len() - k,
    {
        let sub = clap_subcommand_for(&schema.entries[k]);
        app = clap_subcommand(app, sub);
        assert(schema.entries@.take(k + 1).map_values(|d: Descriptor| entry_model(d))
            =~= schema.entries@.take(k as int).map_values(|d: Descriptor| entry_model(d)).push(
            entry_model(schema.entries@[k as int]),
        ));
        assert(clap_subcommands(root) + schema.entries@.take(k + 1).map_values(
            |d: Descriptor| entry_model(d),
        ) =~= (clap_subcommands(root) + schema.entries@.take(k as int).map_values(
            |d: Descriptor| entry_model(d),
        )).push(entry_model(schema.entries@[k as int])));
        k = k + 1;
    }
    assert(schema.entries@.take(schema.entries@.len() as int) =~= schema.entries@);
    app
}

} // verus!
