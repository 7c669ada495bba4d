use vstd::prelude::*;

use crate::capability::CapabilitySet;
use crate::catalog::{distinct_names, names_disjoint, Descriptor};
use crate::deprecation::{plan, steps_view, strings_view, Step};

verus! {

/// The descriptors of a catalog whose capability requirement `caps` meets,
/// in catalog order.
pub open spec fn enabled(c: Seq<Descriptor>, caps: CapabilitySet) -> Seq<Descriptor>
    decreases c.len(),
{
    if c.len() == 0 {
        Seq::empty()
    } else {
        let rest = enabled(c.drop_last(), caps);
        if caps.allows(c.last().requires) {
            rest.push(c.last())
        } else {
            rest
        }
    }
}

/// The position of the first entry of `e` that answers to `s`.
pub open spec fn lookup(e: Seq<Descriptor>, s: Seq<char>) -> Option<int>
    decreases e.len(),
{
    if e.len() == 0 {
        None
    } else {
        match lookup(e.drop_last(), s) {
            Some(k) => Some(k),
            None => if e.last().names().contains(s) {
                Some(e.len() - 1)
            } else {
                None
            },
        }
    }
}

/// The argument schema of one binary: the commands that are compiled in,
/// each matchable under its name and its aliases.
#[derive(Clone, Debug)]
pub struct Schema {
    pub entries: Vec<Descriptor>,
}

/// One decoded invocation: the schema entry it selects and the arguments,
/// already validated by the matching engine, that the handler receives.
#[derive(Clone, Debug, PartialEq, Eq)]
pub struct ParsedCommand {
    pub entry: usize,
    pub args: Vec<String>,
}

/// A failure of decoding. It is raised only when the matching engine hands
/// over a name that the schema does not hold, which is a defect of the
/// binary and never an error of the user.
#[derive(Clone, Debug, PartialEq, Eq)]
pub enum ParseError {
    Unregistered { name: String },
}

/// Builds the schema of a binary with capabilities `caps`: a command whose
/// capability is off is left out entirely.
pub fn build_schema(catalog: Vec<Descriptor>, caps: &CapabilitySet) -> (r: Schema)
    ensures
        r.entries@ == enabled(catalog@, *caps),
{
    let ghost c = catalog@;
    let mut rest = catalog;
    let mut entries: Vec<Descriptor> = Vec::new();
    let ghost mut i: int = 0;
    while rest.len() > 0
        invariant
            0 <= i <= c.len(),
            rest@ == c.skip(i),
            entries@ == enabled(c.take(i), *caps),
        decreases rest@.len(),
    {
        let d = rest.remove(0);
        proof {
            assert(c.take(i + 1).drop_last() =~= c.take(i));
            assert(c.skip(i + 1) =~= c.skip(i).remove(0));
        }
        if caps.permits(d.requires) {
            entries.push(d);
        }
        proof {
            i = i + 1;
        }
    }
    assert(c.take(c.len() as int) =~= c);
    Schema { entries }
}

impl Schema {
    /// The position of the first entry that answers to `name`.
    pub fn find(&self, name: &String) -> (r: Option<usize>)
        ensures
            match r {
                Some(k) => lookup(self.entries@, name@) == Some(k as int),
                None => lookup(self.entries@, name@) is None,
            },
    {
        let ghost e = self.entries@;
        let mut k: usize = 0;
        while k < self.entries.len()
            invariant
                k <= e.len(),
                e == self.entries@,
                lookup(e.take(k as int), name@) is None,
            decreases e.len() - k,
        {
            assert(e.take(k + 1).drop_last() =~= e.take(k as int));
            if self.entries[k].answers_to(name) {
                proof {
                    lemma_lookup_kept(e, k + 1, e.len() as int, name@);
                    assert(e.take(e.len() as int) =~= e);
                }
                return Some(k);
            }
            k = k + 1;
        }
        assert(e.take(e.len() as int) =~= e);
        None
    }

    /// Decodes the name and arguments that the matching engine produced into
    /// a command of this schema.
    pub fn parse(&self, name: &String, args: Vec<String>) -> (r: Result<ParsedCommand, ParseError>)
        ensures
            match lookup(self.entries@, name@) {
                Some(k) => r matches Ok(cmd) && cmd.entry == k && cmd.args == args,
                None => r matches Err(ParseError::Unregistered { name: n }) && n@ == name@,
            },
    {
        match self.find(name) {
            Some(k) => Ok(ParsedCommand { entry: k, args }),
            None => Err(ParseError::Unregistered { name: name.clone() }),
        }
    }

    /// Routes a decoded command to the handler of its entry, handing it the
    /// command's arguments unchanged.
    pub fn dispatch(&self, cmd: ParsedCommand) -> (r: Vec<Step>)
        requires
            cmd.entry < self.entries@.len(),
        ensures
            steps_view(r@) == plan(self.entries@[cmd.entry as int].handler, strings_view(cmd.args@)),
    {
        self.entries[cmd.entry].handler.invocation(cmd.args)
    }
}

/// Decodes one invocation and routes it: the steps that running it takes,
/// or the decoding failure.
pub fn run_command(schema: &Schema, name: &String, args: Vec<String>) -> (r: Result<
    Vec<Step>,
    ParseError,
>)
    ensures
        match lookup(schema.entries@, name@) {
            Some(k) => r matches Ok(steps) && steps_view(steps@) == plan(
                schema.entries@[k].handler,
                strings_view(args@),
            ),
            None => r matches Err(ParseError::Unregistered { name: n }) && n@ == name@,
        },
{
    proof {
        lemma_lookup_found(schema.entries@, name@);
    }
    match schema.parse(name, args) {
        Ok(cmd) => Ok(schema.dispatch(cmd)),
        Err(e) => Err(e),
    }
}

/// What `lookup` finds: the first entry that answers to `s`, if any does.
pub proof fn lemma_lookup_found(e: Seq<Descriptor>, s: Seq<char>)
    ensures
        match lookup(e, s) {
            Some(k) => 0 <= k < e.len() && e[k].names().contains(s) && forall|l: int|
                0 <= l < k ==> !(#[trigger] e[l]).names().contains(s),
            None => forall|l: int| 0 <= l < e.len() ==> !(#[trigger] e[l]).names().contains(s),
        },
    decreases e.len(),
{
    if e.len() > 0 {
        lemma_lookup_found(e.drop_last(), s);
        assert forall|l: int| 0 <= l < e.len() - 1 implies e[l] == e.drop_last()[l] by {}
    }
}

/// Every entry of `enabled(c, caps)` is a descriptor of `c` that `caps`
/// allows.
proof fn lemma_enabled_from(c: Seq<Descriptor>, caps: CapabilitySet)
    ensures
        forall|x: Descriptor|
            #[trigger] enabled(c, caps).contains(x) ==> c.contains(x) && caps.allows(x.requires),
    decreases c.len(),
{
    if c.len() > 0 {
        let d = c.drop_last();
        lemma_enabled_from(d, caps);
        let e = enabled(c, caps);
        let ed = enabled(d, caps);
        assert forall|x: Descriptor| #[trigger] e.contains(x) implies c.contains(x) && caps.allows(
            x.requires,
        ) by {
            let k = choose|k: int| 0 <= k < e.len() && e[k] == x;
            if k < ed.len() {
                assert(ed[k] == x);
                assert(ed.contains(x));
                let i = choose|i: int| 0 <= i < d.len() && d[i] == x;
                assert(c[i] == x);
            } else {
                assert(c[c.len() - 1] == x);
            }
        }
    }
}

/// A descriptor that `caps` allows stays in `enabled(c, caps)`.
proof fn lemma_enabled_keeps(c: Seq<Descriptor>, caps: CapabilitySet, i: int)
    requires
        0 <= i < c.len(),
        caps.allows(c[i].requires),
    ensures
        enabled(c, caps).contains(c[i]),
    decreases c.len(),
{
    let e = enabled(c, caps);
    if i == c.len() - 1 {
        assert(e[e.len() - 1] == c[i]);
    } else {
        let d = c.drop_last();
        assert(d[i] == c[i]);
        lemma_enabled_keeps(d, caps, i);
        let k = choose|k: int| 0 <= k < enabled(d, caps).len() && enabled(d, caps)[k] == c[i];
        assert(e[k] == c[i]);
    }
}

/// Leaving commands out keeps the names distinct.
proof fn lemma_enabled_distinct(c: Seq<Descriptor>, caps: CapabilitySet)
    requires
        distinct_names(c),
    ensures
        distinct_names(enabled(c, caps)),
    decreases c.len(),
{
    if c.len() > 0 {
        let d = c.drop_last();
        assert forall|i: int, j: int|
            0 <= i < d.len() && 0 <= j < d.len() && i != j implies names_disjoint(
            #[trigger] d[i],
            #[trigger] d[j],
        ) by {
            assert(d[i] == c[i] && d[j] == c[j]);
        }
        assert forall|i: int| 0 <= i < d.len() implies (#[trigger] d[i]).names().no_duplicates() by {
            assert(d[i] == c[i]);
        }
        lemma_enabled_distinct(d, caps);
        lemma_enabled_from(d, caps);
        let last = c.last();
        let ed = enabled(d, caps);
        let e = enabled(c, caps);
        if caps.allows(last.requires) {
            assert forall|k: int| 0 <= k < ed.len() implies names_disjoint(
                #[trigger] ed[k],
                last,
            ) && names_disjoint(last, ed[k]) by {
                assert(ed.contains(ed[k]));
                let i = choose|i: int| 0 <= i < d.len() && d[i] == ed[k];
                assert(c[i] == ed[k]);
                assert(names_disjoint(c[i], c[c.len() - 1]));
                assert(names_disjoint(c[c.len() - 1], c[i]));
            }
            assert forall|i: int, j: int|
                0 <= i < e.len() && 0 <= j < e.len() && i != j implies names_disjoint(
                #[trigger] e[i],
                #[trigger] e[j],
            ) by {
                if i < ed.len() && j < ed.len() {
                    assert(e[i] == ed[i] && e[j] == ed[j]);
                } else if i < ed.len() {
                    assert(e[i] == ed[i] && e[j] == last);
                } else {
                    assert(e[j] == ed[j] && e[i] == last);
                }
            }
            assert forall|i: int| 0 <= i < e.len() implies (#[trigger] e[i]).names().no_duplicates() by {
                if i < ed.len() {
                    assert(e[i] == ed[i]);
                } else {
                    assert(e[i] == c[c.len() - 1]);
                }
            }
        }
    }
}

/// A command that is compiled in has exactly one entry in the schema that
/// answers to its name, that entry is the command's own descriptor, and
/// decoding the name selects it.
pub proof fn lemma_enabled_command_has_one_entry(c: Seq<Descriptor>, caps: CapabilitySet, i: int)
    requires
        distinct_names(c),
        0 <= i < c.len(),
        caps.allows(c[i].requires),
    ensures
        ({
            let e = enabled(c, caps);
            exists|k: int|
                0 <= k < e.len() && e[k] == c[i] && lookup(e, c[i].name@) == Some(k) && forall|
                    l: int,
                | 0 <= l < e.len() && (#[trigger] e[l]).names().contains(c[i].name@) ==> l == k
        }),
{
    let e = enabled(c, caps);
    lemma_enabled_keeps(c, caps, i);
    lemma_enabled_distinct(c, caps);
    lemma_lookup_found(e, c[i].name@);
    let k = choose|k: int| 0 <= k < e.len() && e[k] == c[i];
    assert(e[k].names()[0] == c[i].name@);
    assert(e[k].names().contains(c[i].name@));
    assert forall|l: int|
        0 <= l < e.len() && (#[trigger] e[l]).names().contains(c[i].name@) implies l == k by {
        if l != k {
            assert(names_disjoint(e[k], e[l]));
        }
    }
    assert(0 <= k < e.len() && e[k] == c[i] && lookup(e, c[i].name@) == Some(k));
}

/// A command whose capability is off has no entry under any of its names:
/// decoding one of them fails exactly as decoding a name that no command of
/// the catalog has.
pub proof fn lemma_disabled_command_is_absent(
    c: Seq<Descriptor>,
    caps: CapabilitySet,
    i: int,
    s: Seq<char>,
    unknown: Seq<char>,
)
    requires
        distinct_names(c),
        0 <= i < c.len(),
        !caps.allows(c[i].requires),
        c[i].names().contains(s),
        forall|j: int| 0 <= j < c.len() ==> !(#[trigger] c[j]).names().contains(unknown),
    ensures
        forall|k: int|
            0 <= k < enabled(c, caps).len() ==> !(#[trigger] enabled(c, caps)[k]).names().contains(
                s,
            ),
        lookup(enabled(c, caps), s) is None,
        lookup(enabled(c, caps), s) == lookup(enabled(c, caps), unknown),
{
    let e = enabled(c, caps);
    lemma_enabled_from(c, caps);
    assert forall|k: int| 0 <= k < e.len() implies !(#[trigger] e[k]).names().contains(s) by {
        assert(e.contains(e[k]));
        let j = choose|j: int| 0 <= j < c.len() && c[j] == e[k];
        assert(j != i);
        assert(names_disjoint(c[i], c[j]));
    }
    assert forall|k: int| 0 <= k < e.len() implies !(#[trigger] e[k]).names().contains(unknown) by {
        assert(e.contains(e[k]));
        let j = choose|j: int| 0 <= j < c.len() && c[j] == e[k];
        assert(!c[j].names().contains(unknown));
    }
    lemma_lookup_found(e, s);
    lemma_lookup_found(e, unknown);
}

/// Decoding any alias of a command that is compiled in selects the same
/// entry as decoding its canonical name.
pub proof fn lemma_alias_selects_same_entry(c: Seq<Descriptor>, caps: CapabilitySet, i: int, p: int)
    requires
        distinct_names(c),
        0 <= i < c.len(),
        caps.allows(c[i].requires),
        0 <= p < c[i].aliases@.len(),
    ensures
        lookup(enabled(c, caps), c[i].aliases@[p].name@) == lookup(enabled(c, caps), c[i].name@),
        lookup(enabled(c, caps), c[i].name@) is Some,
{
    let e = enabled(c, caps);
    let a = c[i].aliases@[p].name@;
    lemma_enabled_command_has_one_entry(c, caps, i);
    lemma_enabled_distinct(c, caps);
    let k = choose|k: int|
        0 <= k < e.len() && e[k] == c[i] && lookup(e, c[i].name@) == Some(k) && forall|l: int|
            0 <= l < e.len() && (#[trigger] e[l]).names().contains(c[i].name@) ==> l == k;
    assert(e[k].names()[p + 1] == a);
    assert(e[k].names().contains(a));
    lemma_lookup_found(e, a);
    let m = lookup(e, a)->Some_0;
    if m != k {
        assert(names_disjoint(e[m], e[k]));
    }
}

/// Once a prefix of `e` holds a match, every longer prefix finds the same.
proof fn lemma_lookup_kept(e: Seq<Descriptor>, n: int, m: int, s: Seq<char>)
    requires
        0 <= n <= m <= e.len(),
        lookup(e.take(n), s) is Some,
    ensures
        lookup(e.take(m), s) == lookup(e.take(n), s),
    decreases m - n,
{
    if m > n {
        lemma_lookup_kept(e, n, m - 1, s);
        assert(e.take(m).drop_last() =~= e.take(m - 1));
    }
}

} // verus!
