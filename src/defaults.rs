use vstd::prelude::*;

use crate::capability::{Capability, CapabilitySet};
use crate::catalog::{Alias, CommandKind, Descriptor, Handler, HelpCategory};
use crate::schema::{build_schema, enabled, Schema};

verus! {

impl HelpCategory {
    /// The heading printed above the commands of this category.
    pub open spec fn heading_text(self) -> Seq<char> {
        match self {
            HelpCategory::CommonCommands => "Common Commands"@,
            HelpCategory::EditingChanges => "Editing Changes"@,
            HelpCategory::RewritingChanges => "Rewriting Changes"@,
            HelpCategory::WorkingCopy => "Working Copy"@,
            HelpCategory::FileOperations => "File Operations"@,
            HelpCategory::ReviewCommands => "Review Commands"@,
            HelpCategory::References => "References (Bookmarks & Tags)"@,
            HelpCategory::OperationLog => "Operation Log"@,
            HelpCategory::WorkspaceManagement => "Workspace"@,
            HelpCategory::Advanced => "Advanced"@,
            HelpCategory::ConfigurationHelp => "Configuration & Help"@,
            HelpCategory::GitIntegration => "Git Integration"@,
            HelpCategory::Development => "Development"@,
        }
    }

    pub fn heading(&self) -> (r: &'static str)
        ensures
            r@ == self.heading_text(),
    {
        match self {
            HelpCategory::CommonCommands => "Common Commands",
            HelpCategory::EditingChanges => "Editing Changes",
            HelpCategory::RewritingChanges => "Rewriting Changes",
            HelpCategory::WorkingCopy => "Working Copy",
            HelpCategory::FileOperations => "File Operations",
            HelpCategory::ReviewCommands => "Review Commands",
            HelpCategory::References => "References (Bookmarks & Tags)",
            HelpCategory::OperationLog => "Operation Log",
            HelpCategory::WorkspaceManagement => "Workspace",
            HelpCategory::Advanced => "Advanced",
            HelpCategory::ConfigurationHelp => "Configuration & Help",
            HelpCategory::GitIntegration => "Git Integration",
            HelpCategory::Development => "Development",
        }
    }
}

/// The canonical name under which each command is invoked.
pub open spec fn command_name(k: CommandKind) -> Seq<char> {
    match k {
        CommandKind::Abandon => "abandon"@,
        CommandKind::Absorb => "absorb"@,
        CommandKind::Bench => "bench"@,
        CommandKind::Bisect => "bisect"@,
        CommandKind::Bookmark => "bookmark"@,
        CommandKind::Commit => "commit"@,
        CommandKind::Config => "config"@,
        CommandKind::Debug => "debug"@,
        CommandKind::Describe => "describe"@,
        CommandKind::Diff => "diff"@,
        CommandKind::Diffedit => "diffedit"@,
        CommandKind::Duplicate => "duplicate"@,
        CommandKind::Edit => "edit"@,
        CommandKind::Evolog => "evolog"@,
        CommandKind::File => "file"@,
        CommandKind::Fix => "fix"@,
        CommandKind::Gerrit => "gerrit"@,
        CommandKind::Git => "git"@,
        CommandKind::Help => "help"@,
        CommandKind::Interdiff => "interdiff"@,
        CommandKind::Log => "log"@,
        CommandKind::Metaedit => "metaedit"@,
        CommandKind::New => "new"@,
        CommandKind::Next => "next"@,
        CommandKind::Operation => "operation"@,
        CommandKind::Parallelize => "parallelize"@,
        CommandKind::Prev => "prev"@,
        CommandKind::Rebase => "rebase"@,
        CommandKind::Redo => "redo"@,
        CommandKind::Resolve => "resolve"@,
        CommandKind::Restore => "restore"@,
        CommandKind::Revert => "revert"@,
        CommandKind::Root => "root"@,
        CommandKind::Run => "run"@,
        CommandKind::Show => "show"@,
        CommandKind::Sign => "sign"@,
        CommandKind::SimplifyParents => "simplify-parents"@,
        CommandKind::Sparse => "sparse"@,
        CommandKind::Split => "split"@,
        CommandKind::Squash => "squash"@,
        CommandKind::Status => "status"@,
        CommandKind::Tag => "tag"@,
        CommandKind::Undo => "undo"@,
        CommandKind::Unsign => "unsign"@,
        CommandKind::Util => "util"@,
        CommandKind::Version => "version"@,
        CommandKind::Workspace => "workspace"@,
    }
}

pub fn command_name_str(k: CommandKind) -> (r: &'static str)
    ensures
        r@ == command_name(k),
{
    match k {
        CommandKind::Abandon => "abandon",
        CommandKind::Absorb => "absorb",
        CommandKind::Bench => "bench",
        CommandKind::Bisect => "bisect",
        CommandKind::Bookmark => "bookmark",
        CommandKind::Commit => "commit",
        CommandKind::Config => "config",
        CommandKind::Debug => "debug",
        CommandKind::Describe => "describe",
        CommandKind::Diff => "diff",
        CommandKind::Diffedit => "diffedit",
        CommandKind::Duplicate => "duplicate",
        CommandKind::Edit => "edit",
        CommandKind::Evolog => "evolog",
        CommandKind::File => "file",
        CommandKind::Fix => "fix",
        CommandKind::Gerrit => "gerrit",
        CommandKind::Git => "git",
        CommandKind::Help => "help",
        CommandKind::Interdiff => "interdiff",
        CommandKind::Log => "log",
        CommandKind::Metaedit => "metaedit",
        CommandKind::New => "new",
        CommandKind::Next => "next",
        CommandKind::Operation => "operation",
        CommandKind::Parallelize => "parallelize",
        CommandKind::Prev => "prev",
        CommandKind::Rebase => "rebase",
        CommandKind::Redo => "redo",
        CommandKind::Resolve => "resolve",
        CommandKind::Restore => "restore",
        CommandKind::Revert => "revert",
        CommandKind::Root => "root",
        CommandKind::Run => "run",
        CommandKind::Show => "show",
        CommandKind::Sign => "sign",
        CommandKind::SimplifyParents => "simplify-parents",
        CommandKind::Sparse => "sparse",
        CommandKind::Split => "split",
        CommandKind::Squash => "squash",
        CommandKind::Status => "status",
        CommandKind::Tag => "tag",
        CommandKind::Undo => "undo",
        CommandKind::Unsign => "unsign",
        CommandKind::Util => "util",
        CommandKind::Version => "version",
        CommandKind::Workspace => "workspace",
    }
}

/// The help category of each command; the help command has none.
pub open spec fn category_of(k: CommandKind) -> Option<HelpCategory> {
    match k {
        CommandKind::Abandon => Some(HelpCategory::EditingChanges),
        CommandKind::Absorb => Some(HelpCategory::RewritingChanges),
        CommandKind::Bench => Some(HelpCategory::Development),
        CommandKind::Bisect => Some(HelpCategory::Advanced),
        CommandKind::Bookmark => Some(HelpCategory::References),
        CommandKind::Commit => Some(HelpCategory::CommonCommands),
        CommandKind::Config => Some(HelpCategory::ConfigurationHelp),
        CommandKind::Debug => Some(HelpCategory::ConfigurationHelp),
        CommandKind::Describe => Some(HelpCategory::EditingChanges),
        CommandKind::Diff => Some(HelpCategory::CommonCommands),
        CommandKind::Diffedit => Some(HelpCategory::RewritingChanges),
        CommandKind::Duplicate => Some(HelpCategory::EditingChanges),
        CommandKind::Edit => Some(HelpCategory::EditingChanges),
        CommandKind::Evolog => Some(HelpCategory::ReviewCommands),
        CommandKind::File => Some(HelpCategory::FileOperations),
        CommandKind::Fix => Some(HelpCategory::Advanced),
        CommandKind::Gerrit => Some(HelpCategory::GitIntegration),
        CommandKind::Git => Some(HelpCategory::GitIntegration),
        CommandKind::Help => None,
        CommandKind::Interdiff => Some(HelpCategory::ReviewCommands),
        CommandKind::Log => Some(HelpCategory::CommonCommands),
        CommandKind::Metaedit => Some(HelpCategory::EditingChanges),
        CommandKind::New => Some(HelpCategory::EditingChanges),
        CommandKind::Next => Some(HelpCategory::WorkingCopy),
        CommandKind::Operation => Some(HelpCategory::OperationLog),
        CommandKind::Parallelize => Some(HelpCategory::RewritingChanges),
        CommandKind::Prev => Some(HelpCategory::WorkingCopy),
        CommandKind::Rebase => Some(HelpCategory::RewritingChanges),
        CommandKind::Redo => Some(HelpCategory::OperationLog),
        CommandKind::Resolve => Some(HelpCategory::FileOperations),
        CommandKind::Restore => Some(HelpCategory::EditingChanges),
        CommandKind::Revert => Some(HelpCategory::EditingChanges),
        CommandKind::Root => Some(HelpCategory::WorkspaceManagement),
        CommandKind::Run => Some(HelpCategory::Advanced),
        CommandKind::Show => Some(HelpCategory::CommonCommands),
        CommandKind::Sign => Some(HelpCategory::Advanced),
        CommandKind::SimplifyParents => Some(HelpCategory::RewritingChanges),
        CommandKind::Sparse => Some(HelpCategory::FileOperations),
        CommandKind::Split => Some(HelpCategory::RewritingChanges),
        CommandKind::Squash => Some(HelpCategory::RewritingChanges),
        CommandKind::Status => Some(HelpCategory::CommonCommands),
        CommandKind::Tag => Some(HelpCategory::References),
        CommandKind::Undo => Some(HelpCategory::OperationLog),
        CommandKind::Unsign => Some(HelpCategory::Advanced),
        CommandKind::Util => Some(HelpCategory::ConfigurationHelp),
        CommandKind::Version => Some(HelpCategory::ConfigurationHelp),
        CommandKind::Workspace => Some(HelpCategory::WorkspaceManagement),
    }
}

/// The capability that each command needs to be compiled in.
pub open spec fn capability_of(k: CommandKind) -> Option<Capability> {
    match k {
        CommandKind::Abandon => None,
        CommandKind::Absorb => None,
        CommandKind::Bench => Some(Capability::Bench),
        CommandKind::Bisect => None,
        CommandKind::Bookmark => None,
        CommandKind::Commit => None,
        CommandKind::Config => None,
        CommandKind::Debug => None,
        CommandKind::Describe => None,
        CommandKind::Diff => None,
        CommandKind::Diffedit => None,
        CommandKind::Duplicate => None,
        CommandKind::Edit => None,
        CommandKind::Evolog => None,
        CommandKind::File => None,
        CommandKind::Fix => None,
        CommandKind::Gerrit => Some(Capability::Git),
        CommandKind::Git => Some(Capability::Git),
        CommandKind::Help => None,
        CommandKind::Interdiff => None,
        CommandKind::Log => None,
        CommandKind::Metaedit => None,
        CommandKind::New => None,
        CommandKind::Next => None,
        CommandKind::Operation => None,
        CommandKind::Parallelize => None,
        CommandKind::Prev => None,
        CommandKind::Rebase => None,
        CommandKind::Redo => None,
        CommandKind::Resolve => None,
        CommandKind::Restore => None,
        CommandKind::Revert => None,
        CommandKind::Root => None,
        CommandKind::Run => None,
        CommandKind::Show => None,
        CommandKind::Sign => None,
        CommandKind::SimplifyParents => None,
        CommandKind::Sparse => None,
        CommandKind::Split => None,
        CommandKind::Squash => None,
        CommandKind::Status => None,
        CommandKind::Tag => None,
        CommandKind::Undo => None,
        CommandKind::Unsign => None,
        CommandKind::Util => None,
        CommandKind::Version => None,
        CommandKind::Workspace => None,
    }
}

/// The aliases of each command, as name and whether it is listed.
pub open spec fn aliases_of(k: CommandKind) -> Seq<(Seq<char>, bool)> {
    match k {
        CommandKind::Evolog => seq![("obslog"@, false), ("evolution-log"@, true)],
        CommandKind::Operation => seq![("op"@, true)],
        _ => Seq::empty(),
    }
}

/// Whether each command is left out of listings.
pub open spec fn hidden_of(k: CommandKind) -> bool {
    k == CommandKind::Run
}

/// `d` is the catalog's descriptor of command `k`.
pub open spec fn describes(d: Descriptor, k: CommandKind) -> bool {
    &&& d.name@ == command_name(k)
    &&& d.aliases@.map_values(|a: Alias| (a.name@, a.visible)) == aliases_of(k)
    &&& d.hidden == hidden_of(k)
    &&& d.category == category_of(k)
    &&& d.requires == capability_of(k)
    &&& d.handler == Handler::Direct(k)
}

/// The number of commands of the binary.
pub const KIND_COUNT: usize = 47;

/// The position of each command in the catalog.
pub open spec fn rank(k: CommandKind) -> int {
    match k {
        CommandKind::Abandon => 0,
        CommandKind::Absorb => 1,
        CommandKind::Bench => 2,
        CommandKind::Bisect => 3,
        CommandKind::Bookmark => 4,
        CommandKind::Commit => 5,
        CommandKind::Config => 6,
        CommandKind::Debug => 7,
        CommandKind::Describe => 8,
        CommandKind::Diff => 9,
        CommandKind::Diffedit => 10,
        CommandKind::Duplicate => 11,
        CommandKind::Edit => 12,
        CommandKind::Evolog => 13,
        CommandKind::File => 14,
        CommandKind::Fix => 15,
        CommandKind::Gerrit => 16,
        CommandKind::Git => 17,
        CommandKind::Help => 18,
        CommandKind::Interdiff => 19,
        CommandKind::Log => 20,
        CommandKind::Metaedit => 21,
        CommandKind::New => 22,
        CommandKind::Next => 23,
        CommandKind::Operation => 24,
        CommandKind::Parallelize => 25,
        CommandKind::Prev => 26,
        CommandKind::Rebase => 27,
        CommandKind::Redo => 28,
        CommandKind::Resolve => 29,
        CommandKind::Restore => 30,
        CommandKind::Revert => 31,
        CommandKind::Root => 32,
        CommandKind::Run => 33,
        CommandKind::Show => 34,
        CommandKind::Sign => 35,
        CommandKind::SimplifyParents => 36,
        CommandKind::Sparse => 37,
        CommandKind::Split => 38,
        CommandKind::Squash => 39,
        CommandKind::Status => 40,
        CommandKind::Tag => 41,
        CommandKind::Undo => 42,
        CommandKind::Unsign => 43,
        CommandKind::Util => 44,
        CommandKind::Version => 45,
        CommandKind::Workspace => 46,
    }
}

/// The command at position `i` of the catalog.
pub fn kind_at(i: usize) -> (k: CommandKind)
    requires
        i < KIND_COUNT,
    ensures
        rank(k) == i,
{
    match i {
        0 => CommandKind::Abandon,
        1 => CommandKind::Absorb,
        2 => CommandKind::Bench,
        3 => CommandKind::Bisect,
        4 => CommandKind::Bookmark,
        5 => CommandKind::Commit,
        6 => CommandKind::Config,
        7 => CommandKind::Debug,
        8 => CommandKind::Describe,
        9 => CommandKind::Diff,
        10 => CommandKind::Diffedit,
        11 => CommandKind::Duplicate,
        12 => CommandKind::Edit,
        13 => CommandKind::Evolog,
        14 => CommandKind::File,
        15 => CommandKind::Fix,
        16 => CommandKind::Gerrit,
        17 => CommandKind::Git,
        18 => CommandKind::Help,
        19 => CommandKind::Interdiff,
        20 => CommandKind::Log,
        21 => CommandKind::Metaedit,
        22 => CommandKind::New,
        23 => CommandKind::Next,
        24 => CommandKind::Operation,
        25 => CommandKind::Parallelize,
        26 => CommandKind::Prev,
        27 => CommandKind::Rebase,
        28 => CommandKind::Redo,
        29 => CommandKind::Resolve,
        30 => CommandKind::Restore,
        31 => CommandKind::Revert,
        32 => CommandKind::Root,
        33 => CommandKind::Run,
        34 => CommandKind::Show,
        35 => CommandKind::Sign,
        36 => CommandKind::SimplifyParents,
        37 => CommandKind::Sparse,
        38 => CommandKind::Split,
        39 => CommandKind::Squash,
        40 => CommandKind::Status,
        41 => CommandKind::Tag,
        42 => CommandKind::Undo,
        43 => CommandKind::Unsign,
        44 => CommandKind::Util,
        45 => CommandKind::Version,
        _ => CommandKind::Workspace,
    }
}

/// `c` is the binary's catalog: one descriptor per command, in order.
pub open spec fn is_default_catalog(c: Seq<Descriptor>) -> bool {
    &&& c.len() == KIND_COUNT
    &&& forall|i: int|
        0 <= i < c.len() ==> (#[trigger] c[i]).handler is Direct && describes(
            c[i],
            c[i].handler->Direct_0,
        ) && rank(c[i].handler->Direct_0) == i
}

fn capability(k: CommandKind) -> (r: Option<Capability>)
    ensures
        r == capability_of(k),
{
    match k {
        CommandKind::Git | CommandKind::Gerrit => Some(Capability::Git),
        CommandKind::Bench => Some(Capability::Bench),
        _ => None,
    }
}

fn category(k: CommandKind) -> (r: Option<HelpCategory>)
    ensures
        r == category_of(k),
{
    match k {
        CommandKind::Abandon => Some(HelpCategory::EditingChanges),
        CommandKind::Absorb => Some(HelpCategory::RewritingChanges),
        CommandKind::Bench => Some(HelpCategory::Development),
        CommandKind::Bisect => Some(HelpCategory::Advanced),
        CommandKind::Bookmark => Some(HelpCategory::References),
        CommandKind::Commit => Some(HelpCategory::CommonCommands),
        CommandKind::Config => Some(HelpCategory::ConfigurationHelp),
        CommandKind::Debug => Some(HelpCategory::ConfigurationHelp),
        CommandKind::Describe => Some(HelpCategory::EditingChanges),
        CommandKind::Diff => Some(HelpCategory::CommonCommands),
        CommandKind::Diffedit => Some(HelpCategory::RewritingChanges),
        CommandKind::Duplicate => Some(HelpCategory::EditingChanges),
        CommandKind::Edit => Some(HelpCategory::EditingChanges),
        CommandKind::Evolog => Some(HelpCategory::ReviewCommands),
        CommandKind::File => Some(HelpCategory::FileOperations),
        CommandKind::Fix => Some(HelpCategory::Advanced),
        CommandKind::Gerrit => Some(HelpCategory::GitIntegration),
        CommandKind::Git => Some(HelpCategory::GitIntegration),
        CommandKind::Help => None,
        CommandKind::Interdiff => Some(HelpCategory::ReviewCommands),
        CommandKind::Log => Some(HelpCategory::CommonCommands),
        CommandKind::Metaedit => Some(HelpCategory::EditingChanges),
        CommandKind::New => Some(HelpCategory::EditingChanges),
        CommandKind::Next => Some(HelpCategory::WorkingCopy),
        CommandKind::Operation => Some(HelpCategory::OperationLog),
        CommandKind::Parallelize => Some(HelpCategory::RewritingChanges),
        CommandKind::Prev => Some(HelpCategory::WorkingCopy),
        CommandKind::Rebase => Some(HelpCategory::RewritingChanges),
        CommandKind::Redo => Some(HelpCategory::OperationLog),
        CommandKind::Resolve => Some(HelpCategory::FileOperations),
        CommandKind::Restore => Some(HelpCategory::EditingChanges),
        CommandKind::Revert => Some(HelpCategory::EditingChanges),
        CommandKind::Root => Some(HelpCategory::WorkspaceManagement),
        CommandKind::Run => Some(HelpCategory::Advanced),
        CommandKind::Show => Some(HelpCategory::CommonCommands),
        CommandKind::Sign => Some(HelpCategory::Advanced),
        CommandKind::SimplifyParents => Some(HelpCategory::RewritingChanges),
        CommandKind::Sparse => Some(HelpCategory::FileOperations),
        CommandKind::Split => Some(HelpCategory::RewritingChanges),
        CommandKind::Squash => Some(HelpCategory::RewritingChanges),
        CommandKind::Status => Some(HelpCategory::CommonCommands),
        CommandKind::Tag => Some(HelpCategory::References),
        CommandKind::Undo => Some(HelpCategory::OperationLog),
        CommandKind::Unsign => Some(HelpCategory::Advanced),
        CommandKind::Util => Some(HelpCategory::ConfigurationHelp),
        CommandKind::Version => Some(HelpCategory::ConfigurationHelp),
        CommandKind::Workspace => Some(HelpCategory::WorkspaceManagement),
    }
}

/// The catalog's descriptor of command `k`.
pub fn descriptor(k: CommandKind) -> (r: Descriptor)
    ensures
        describes(r, k),
{
    let mut aliases: Vec<Alias> = Vec::new();
    match k {
        CommandKind::Evolog => {
            aliases.push(Alias { name: String::from_str("obslog"), visible: false });
            aliases.push(Alias { name: String::from_str("evolution-log"), visible: true });
        },
        CommandKind::Operation => {
            aliases.push(Alias { name: String::from_str("op"), visible: true });
        },
        _ => {},
    }
    let r = Descriptor {
        name: String::from_str(command_name_str(k)),
        aliases,
        hidden: k == CommandKind::Run,
        category: category(k),
        requires: capability(k),
        handler: Handler::Direct(k),
    };
    assert(r.aliases@.map_values(|a: Alias| (a.name@, a.visible)) =~= aliases_of(k));
    r
}

/// The binary's catalog: every command, with its aliases, help category and
/// capability requirement.
pub fn default_catalog() -> (r: Vec<Descriptor>)
    ensures
        is_default_catalog(r@),
{
    let mut c: Vec<Descriptor> = Vec::new();
    let mut i: usize = 0;
    while i < KIND_COUNT
        invariant
            i <= KIND_COUNT,
            c@.len() == i,
            forall|j: int|
                0 <= j < i ==> (#[trigger] c@[j]).handler is Direct && describes(
                    c@[j],
                    c@[j].handler->Direct_0,
                ) && rank(c@[j].handler->Direct_0) == j,
        decreases KIND_COUNT - i,
    {
        c.push(descriptor(kind_at(i)));
        i = i + 1;
    }
    c
}

/// The schema of a binary with capabilities `caps`, built from its catalog.
pub fn default_schema(caps: &CapabilitySet) -> (r: Schema)
    ensures
        exists|c: Seq<Descriptor>| is_default_catalog(c) && r.entries@ == enabled(c, *caps),
{
    build_schema(default_catalog(), caps)
}

} // verus!
