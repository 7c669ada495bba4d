use vstd::prelude::*;

use crate::capability::Capability;

verus! {

/// A heading under which commands are grouped in help output. It has no
/// effect on matching or dispatch.
#[derive(Clone, Copy, Debug, PartialEq, Eq, Structural)]
pub enum HelpCategory {
    CommonCommands,
    EditingChanges,
    RewritingChanges,
    WorkingCopy,
    FileOperations,
    ReviewCommands,
    References,
    OperationLog,
    WorkspaceManagement,
    Advanced,
    ConfigurationHelp,
    GitIntegration,
    Development,
}

/// The handler routines known to the binary, one per top-level command.
#[derive(Clone, Copy, Debug, PartialEq, Eq, Structural)]
pub enum CommandKind {
    Abandon,
    Absorb,
    Bench,
    Bisect,
    Bookmark,
    Commit,
    Config,
    Debug,
    Describe,
    Diff,
    Diffedit,
    Duplicate,
    Edit,
    Evolog,
    File,
    Fix,
    Gerrit,
    Git,
    Help,
    Interdiff,
    Log,
    Metaedit,
    New,
    Next,
    Operation,
    Parallelize,
    Prev,
    Rebase,
    Redo,
    Resolve,
    Restore,
    Revert,
    Root,
    Run,
    Show,
    Sign,
    SimplifyParents,
    Sparse,
    Split,
    Squash,
    Status,
    Tag,
    Undo,
    Unsign,
    Util,
    Version,
    Workspace,
}

/// What runs when a command is dispatched: a handler routine directly, or a
/// routine reached through a deprecated name that warns before running it.
#[derive(Clone, Debug, PartialEq, Eq)]
pub enum Handler {
    Direct(CommandKind),
    Renamed { old_name: String, new_name: String, target: CommandKind },
}

/// Another name under which a command can be invoked.
#[derive(Clone, Debug, PartialEq, Eq)]
pub struct Alias {
    pub name: String,
    /// Whether the alias is shown in listings.
    pub visible: bool,
}

/// One entry of the command catalog.
#[derive(Clone, Debug, PartialEq, Eq)]
pub struct Descriptor {
    pub name: String,
    pub aliases: Vec<Alias>,
    /// A hidden command is left out of listings but can still be invoked.
    pub hidden: bool,
    pub category: Option<HelpCategory>,
    /// The capability without which the command is not compiled in.
    pub requires: Option<Capability>,
    pub handler: Handler,
}

impl Descriptor {
    /// Every name the command answers to: the canonical name first, then its
    /// aliases in order.
    pub open spec fn names(self) -> Seq<Seq<char>> {
        seq![self.name@] + self.aliases@.map_values(|a: Alias| a.name@)
    }

    /// The `p`-th entry of `names`.
    pub fn name_at(&self, p: usize) -> (r: &String)
        requires
            p <= self.aliases@.len(),
        ensures
            r@ == self.names()[p as int],
    {
        if p == 0 {
            &self.name
        } else {
            &self.aliases[p - 1].name
        }
    }

    /// Whether `s` is one of the command's names.
    pub fn answers_to(&self, s: &String) -> (r: bool)
        ensures
            r == self.names().contains(s@),
    {
        if self.name.eq(s) {
            assert(self.names()[0] == s@);
            return true;
        }
        let mut i: usize = 0;
        while i < self.aliases.len()
            invariant
                i <= self.aliases@.len(),
                forall|q: int| 0 <= q < i + 1 ==> self.names()[q] != s@,
            decreases self.aliases@.len() - i,
        {
            assert(self.names()[i + 1] == self.aliases@[i as int].name@);
            if self.aliases[i].name.eq(s) {
                assert(self.names()[i + 1] == s@);
                return true;
            }
            i = i + 1;
        }
        false
    }

    /// Every name of the command is non-empty.
    pub open spec fn names_nonempty(self) -> bool {
        forall|p: int| 0 <= p < self.names().len() ==> #[trigger] self.names()[p].len() > 0
    }

    pub fn has_empty_name(&self) -> (r: bool)
        ensures
            r == !self.names_nonempty(),
    {
        if self.name.as_str().is_empty() {
            assert(self.names()[0].len() == 0);
            return true;
        }
        let mut i: usize = 0;
        while i < self.aliases.len()
            invariant
                i <= self.aliases@.len(),
                forall|q: int| 0 <= q < i + 1 ==> #[trigger] self.names()[q].len() > 0,
            decreases self.aliases@.len() - i,
        {
            assert(self.names()[i + 1] == self.aliases@[i as int].name@);
            if self.aliases[i].name.as_str().is_empty() {
                assert(self.names()[i + 1].len() == 0);
                return true;
            }
            i = i + 1;
        }
        false
    }

    /// Whether some name of the command is listed twice.
    pub fn repeats_a_name(&self) -> (r: bool)
        ensures
            r == !self.names().no_duplicates(),
    {
        let mut i: usize = 0;
        while i < self.aliases.len()
            invariant
                i <= self.aliases@.len(),
                forall|p: int, q: int|
                    0 <= p < i + 1 && 0 <= q < i + 1 && p != q ==> self.names()[p]
                        != self.names()[q],
            decreases self.aliases@.len() - i,
        {
            assert(self.names()[i + 1] == self.aliases@[i as int].name@);
            if self.name.eq(&self.aliases[i].name) {
                assert(self.names()[0] == self.names()[i + 1]);
                return true;
            }
            let mut k: usize = 0;
            while k < i
                invariant
                    i < self.aliases@.len(),
                    k <= i,
                    self.names()[i + 1] == self.aliases@[i as int].name@,
                    forall|p: int, q: int|
                        0 <= p < i + 1 && 0 <= q < i + 1 && p != q ==> self.names()[p]
                            != self.names()[q],
                    forall|p: int| 0 <= p < k + 1 ==> #[trigger] self.names()[p] != self.names()[i + 1],
                decreases i - k,
            {
                assert(self.names()[k + 1] == self.aliases@[k as int].name@);
                if self.aliases[k].name.eq(&self.aliases[i].name) {
                    assert(self.names()[k + 1] == self.names()[i + 1]);
                    return true;
                }
                k = k + 1;
            }
            i = i + 1;
        }
        false
    }

    /// Whether the two commands answer to a common name.
    pub fn shares_name_with(&self, other: &Descriptor) -> (r: bool)
        ensures
            r == !names_disjoint(*self, *other),
    {
        if other.answers_to(&self.name) {
            assert(self.names().contains(self.names()[0]));
            return true;
        }
        let mut i: usize = 0;
        while i < self.aliases.len()
            invariant
                i <= self.aliases@.len(),
                forall|q: int| 0 <= q < i + 1 ==> !other.names().contains(#[trigger] self.names()[q]),
            decreases self.aliases@.len() - i,
        {
            assert(self.names()[i + 1] == self.aliases@[i as int].name@);
            if other.answers_to(&self.aliases[i].name) {
                assert(self.names().contains(self.names()[i + 1]));
                return true;
            }
            i = i + 1;
        }
        false
    }
}

/// No name of `a` is a name of `b`.
pub open spec fn names_disjoint(a: Descriptor, b: Descriptor) -> bool {
    forall|s: Seq<char>| #[trigger] a.names().contains(s) ==> !b.names().contains(s)
}

/// Every name, canonical or alias, belongs to one descriptor and occurs once.
pub open spec fn distinct_names(c: Seq<Descriptor>) -> bool {
    &&& forall|i: int| 0 <= i < c.len() ==> (#[trigger] c[i]).names().no_duplicates()
    &&& forall|i: int, j: int|
        0 <= i < c.len() && 0 <= j < c.len() && i != j ==> names_disjoint(#[trigger] c[i], #[trigger] c[j])
}

/// A catalog from which a consistent schema can be built: no empty name and
/// no name used twice.
pub open spec fn well_formed(c: Seq<Descriptor>) -> bool {
    &&& forall|i: int| 0 <= i < c.len() ==> (#[trigger] c[i]).names_nonempty()
    &&& distinct_names(c)
}

/// A defect found by the consistency check of a catalog.
#[derive(Clone, Copy, Debug, PartialEq, Eq, Structural)]
pub enum CatalogError {
    /// The descriptor at this position has an empty name or alias.
    EmptyName { descriptor: usize },
    /// The descriptor at this position lists one name twice.
    RepeatedName { descriptor: usize },
    /// The descriptors at these positions answer to a common name.
    SharedName { first: usize, second: usize },
}

/// Consistency check of a catalog, meant to run in automated tests of the
/// binary. Names of descriptors whose capability is off are checked too: a
/// name stays reserved whether or not its command is compiled in.
pub fn check_catalog(c: &Vec<Descriptor>) -> (r: Result<(), CatalogError>)
    ensures
        r is Ok <==> well_formed(c@),
        match r {
            Ok(()) => true,
            Err(CatalogError::EmptyName { descriptor }) => descriptor < c@.len()
                && !c@[descriptor as int].names_nonempty(),
            Err(CatalogError::RepeatedName { descriptor }) => descriptor < c@.len()
                && !c@[descriptor as int].names().no_duplicates(),
            Err(CatalogError::SharedName { first, second }) => first < second < c@.len()
                && !names_disjoint(c@[first as int], c@[second as int]),
        },
{
    let n = c.len();
    let mut i: usize = 0;
    while i < n
        invariant
            n == c@.len(),
            i <= n,
            forall|k: int| 0 <= k < i ==> (#[trigger] c@[k]).names_nonempty(),
            forall|k: int| 0 <= k < i ==> (#[trigger] c@[k]).names().no_duplicates(),
            forall|k: int, l: int|
                0 <= k < i && k < l < n ==> names_disjoint(#[trigger] c@[k], #[trigger] c@[l]),
        decreases n - i,
    {
        if c[i].has_empty_name() {
            return Err(CatalogError::EmptyName { descriptor: i });
        }
        if c[i].repeats_a_name() {
            return Err(CatalogError::RepeatedName { descriptor: i });
        }
        let mut j: usize = i + 1;
        while j < n
            invariant
                n == c@.len(),
                i < n,
                i + 1 <= j <= n,
                forall|l: int| i < l < j ==> names_disjoint(c@[i as int], #[trigger] c@[l]),
            decreases n - j,
        {
            if c[i].shares_name_with(&c[j]) {
                return Err(CatalogError::SharedName { first: i, second: j });
            }
            j = j + 1;
        }
        i = i + 1;
    }
    assert forall|k: int, l: int|
        0 <= k < n && 0 <= l < n && k != l implies names_disjoint(#[trigger] c@[k], #[trigger] c@[l]) by {
        if l < k {
            assert(names_disjoint(c@[l], c@[k]));
        }
    }
    Ok(())
}

} // verus!
