use vstd::prelude::*;

use crate::catalog::{CommandKind, Handler};

verus! {

/// One observable effect of running a command, in order: a line written to
/// the warning channel of the output sink, or the call of a handler routine
/// with the decoded arguments.
#[derive(Clone, Debug, PartialEq, Eq)]
pub enum Step {
    Warn(String),
    Invoke { handler: CommandKind, args: Vec<String> },
}

/// The mathematical value of a [`Step`].
pub enum StepView {
    Warn(Seq<char>),
    Invoke { handler: CommandKind, args: Seq<Seq<char>> },
}

pub open spec fn strings_view(v: Seq<String>) -> Seq<Seq<char>> {
    v.map_values(|a: String| a@)
}

impl View for Step {
    type V = StepView;

    open spec fn view(&self) -> StepView {
        match self {
            Step::Warn(line) => StepView::Warn(line@),
            Step::Invoke { handler, args } => StepView::Invoke {
                handler: *handler,
                args: strings_view(args@),
            },
        }
    }
}

pub open spec fn steps_view(v: Seq<Step>) -> Seq<StepView> {
    v.map_values(|s: Step| s@)
}

/// First warning of a renamed command: the old name is deprecated in favour
/// of the new one, and both currently do the same.
pub open spec fn deprecation_notice(old_name: Seq<char>, new_name: Seq<char>) -> Seq<char> {
    "`jj "@ + old_name + "` is deprecated; use `jj "@ + new_name
        + "` instead, which is equivalent"@
}

/// Second warning of a renamed command: the old name will stop working.
pub open spec fn removal_notice(old_name: Seq<char>) -> Seq<char> {
    "`jj "@ + old_name + "` will be removed in a future version, and this will be a hard error"@
}

/// What running handler `h` on `args` does, in order.
pub open spec fn plan(h: Handler, args: Seq<Seq<char>>) -> Seq<StepView> {
    match h {
        Handler::Direct(k) => seq![StepView::Invoke { handler: k, args }],
        Handler::Renamed { old_name, new_name, target } => seq![
            StepView::Warn(deprecation_notice(old_name@, new_name@)),
            StepView::Warn(removal_notice(old_name@)),
            StepView::Invoke { handler: target, args },
        ],
    }
}

/// Keeps the command `old_name`, renamed to `new_name`, as a deprecated
/// alias whose handler warns twice and then runs `target` unchanged.
pub fn renamed_cmd(old_name: &str, new_name: &str, target: CommandKind) -> (r: Handler)
    ensures
        r matches Handler::Renamed { old_name: o, new_name: n, target: t } && o@ == old_name@
            && n@ == new_name@ && t == target,
{
    Handler::Renamed { old_name: old_name.to_owned(), new_name: new_name.to_owned(), target }
}

fn deprecation_line(old_name: &String, new_name: &String) -> (r: String)
    ensures
        r@ == deprecation_notice(old_name@, new_name@),
{
    let mut line = String::from_str("`jj ");
    line.append(old_name.as_str());
    line.append("` is deprecated; use `jj ");
    line.append(new_name.as_str());
    line.append("` instead, which is equivalent");
    line
}

fn removal_line(old_name: &String) -> (r: String)
    ensures
        r@ == removal_notice(old_name@),
{
    let mut line = String::from_str("`jj ");
    line.append(old_name.as_str());
    line.append("` will be removed in a future version, and this will be a hard error");
    line
}

impl Handler {
    /// The steps of running this handler on `args`.
    pub fn invocation(&self, args: Vec<String>) -> (r: Vec<Step>)
        ensures
            steps_view(r@) == plan(*self, strings_view(args@)),
    {
        let mut steps: Vec<Step> = Vec::new();
        match self {
            Handler::Direct(k) => {
                steps.push(Step::Invoke { handler: *k, args });
            },
            Handler::Renamed { old_name, new_name, target } => {
                steps.push(Step::Warn(deprecation_line(old_name, new_name)));
                steps.push(Step::Warn(removal_line(old_name)));
                steps.push(Step::Invoke { handler: *target, args });
            },
        }
        assert(steps_view(steps@) =~= plan(*self, strings_view(args@)));
        steps
    }
}

/// The handler routine that a handler finally runs.
pub open spec fn target_of(h: Handler) -> CommandKind {
    match h {
        Handler::Direct(k) => k,
        Handler::Renamed { target, .. } => target,
    }
}

/// Running any handler calls exactly one handler routine, its target, with
/// the arguments unchanged, as its last step; every step before it is a
/// warning. No handler is without a routine to run.
pub proof fn lemma_dispatch_runs_one_routine(h: Handler, args: Seq<Seq<char>>)
    ensures
        plan(h, args).len() >= 1,
        plan(h, args).last() == (StepView::Invoke { handler: target_of(h), args }),
        forall|j: int| 0 <= j < plan(h, args).len() - 1 ==> #[trigger] plan(h, args)[j] is Warn,
{
}

/// `t` occurs in `s` as a contiguous piece.
pub open spec fn contains_text(s: Seq<char>, t: Seq<char>) -> bool {
    exists|i: int| 0 <= i && i + t.len() <= s.len() && #[trigger] s.subrange(i, i + t.len()) == t
}

/// A renamed command writes exactly two warnings before anything else: the
/// first names the old and the new command, the second announces that the
/// old one will be removed. Then, and only then, it runs its target on the
/// very arguments it was given.
pub proof fn lemma_renamed_warns_before_running(
    old_name: String,
    new_name: String,
    target: CommandKind,
    args: Seq<Seq<char>>,
)
    ensures
        ({
            let p = plan(Handler::Renamed { old_name, new_name, target }, args);
            &&& p.len() == 3
            &&& p[0] matches StepView::Warn(w) && contains_text(w, old_name@) && contains_text(
                w,
                new_name@,
            )
            &&& p[1] matches StepView::Warn(w) && contains_text(w, old_name@) && contains_text(
                w,
                "future"@,
            )
            &&& p[2] == StepView::Invoke { handler: target, args }
        }),
{
    reveal_strlit("`jj ");
    reveal_strlit("` is deprecated; use `jj ");
    reveal_strlit("` will be removed in a future version, and this will be a hard error");
    reveal_strlit("future");
    let o = old_name@;
    let n = new_name@;
    let w1 = deprecation_notice(o, n);
    assert(w1.subrange(4int, 4 + o.len() as int) =~= o);
    let k: int = 4 + o.len() as int + 25;
    assert(w1.subrange(k, k + n.len() as int) =~= n);
    let w2 = removal_notice(o);
    assert(w2.subrange(4int, 4 + o.len() as int) =~= o);
    let f: int = 4 + o.len() as int + 23;
    let tail = "` will be removed in a future version, and this will be a hard error"@;
    assert(tail.subrange(23, 29) =~= "future"@);
    assert(w2 == "`jj "@ + o + tail);
    assert(w2.subrange(f, f + 6) =~= tail.subrange(23, 29));
}

} // verus!
