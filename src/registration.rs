//! The steps of module initialisation, as decisions apart from the host.
//!
//! The host's module object is filled one attribute at a time. After each
//! attempt the caller reports whether the host accepted it; the first refusal
//! aborts the whole initialisation, so a module is either complete or not
//! exposed at all.
use vstd::prelude::*;

verus! {

/// An attribute that initialisation sets on the module object.
#[derive(Clone, Copy, Debug, PartialEq, Eq, Structural)]
pub enum Attribute {
    /// The documentation string, `__doc__`.
    Doc,
    /// The callable `hello`.
    Hello,
}

impl Attribute {
    /// The attribute's name on the module object.
    pub open spec fn spec_name(self) -> Seq<char> {
        match self {
            Attribute::Doc => "__doc__"@,
            Attribute::Hello => "hello"@,
        }
    }

    /// The attribute's name on the module object.
    pub fn name(self) -> (r: &'static str)
        ensures
            r@ == self.spec_name(),
    {
        match self {
            Attribute::Doc => "__doc__",
            Attribute::Hello => "hello",
        }
    }
}

/// The attributes, in the order in which initialisation sets them.
pub open spec fn attributes() -> Seq<Attribute> {
    seq![Attribute::Doc, Attribute::Hello]
}

/// What the caller is to do next.
#[derive(Clone, Copy, Debug, PartialEq, Eq, Structural)]
pub enum Action {
    /// Set this attribute on the module object and report the outcome.
    SetAttr(Attribute),
    /// Every attribute is set: the module is ready.
    Complete,
    /// The host refused an attribute: initialisation fails with its error.
    Abort,
}

/// The state of one initialisation: how many attributes of `attributes()`
/// have been set, and whether the host refused one.
pub type Progress = (nat, bool);

/// A progress that initialisation can reach: never past the last attribute,
/// and a refusal only ever of an attribute still to be set.
pub open spec fn well_formed(p: Progress) -> bool {
    &&& p.0 <= attributes().len()
    &&& p.1 ==> p.0 < attributes().len()
}

/// The progress of an initialisation that has not begun.
pub open spec fn fresh() -> Progress {
    (0, false)
}

/// What is to be done from progress `p`.
pub open spec fn action_of(p: Progress) -> Action {
    if p.1 {
        Action::Abort
    } else if p.0 < attributes().len() {
        Action::SetAttr(attributes()[p.0 as int])
    } else {
        Action::Complete
    }
}

/// The progress after the host has accepted (`ok`) or refused the pending
/// attribute.
pub open spec fn step(p: Progress, ok: bool) -> Progress {
    if ok {
        (p.0 + 1, false)
    } else {
        (p.0, true)
    }
}

/// The progress reached from `p` when the host answers the attempts in turn
/// with `outcomes`; answers left once no attribute is pending go unused.
pub open spec fn run(p: Progress, outcomes: Seq<bool>) -> Progress
    decreases outcomes.len(),
{
    if outcomes.len() == 0 || !(action_of(p) is SetAttr) {
        p
    } else {
        run(step(p, outcomes[0]), outcomes.drop_first())
    }
}

/// The attributes that the module object holds at progress `p`.
pub open spec fn attributes_set(p: Progress) -> Seq<Attribute> {
    attributes().take(p.0 as int)
}

proof fn lemma_run_well_formed(p: Progress, outcomes: Seq<bool>)
    requires
        well_formed(p),
    ensures
        well_formed(run(p, outcomes)),
    decreases outcomes.len(),
{
    if outcomes.len() > 0 && action_of(p) is SetAttr {
        lemma_run_well_formed(step(p, outcomes[0]), outcomes.drop_first());
    }
}

/// Where the host accepts every attribute, loading raises no error: once
/// each attempt has been answered, initialisation completes with every
/// attribute set.
pub proof fn lemma_load_succeeds(outcomes: Seq<bool>)
    requires
        outcomes.len() >= attributes().len(),
        forall|i: int| 0 <= i < outcomes.len() ==> #[trigger] outcomes[i],
    ensures
        action_of(run(fresh(), outcomes)) == Action::Complete,
        attributes_set(run(fresh(), outcomes)) == attributes(),
{
    lemma_all_or_nothing(outcomes);
}

/// Initialisation is all or nothing: once each attempt has been answered, it
/// completes exactly when the host accepted every attribute, and then the
/// module holds them all; otherwise it aborts.
pub proof fn lemma_all_or_nothing(outcomes: Seq<bool>)
    requires
        outcomes.len() >= attributes().len(),
    ensures
        action_of(run(fresh(), outcomes)) == Action::Complete <==> (forall|i: int|
            0 <= i < attributes().len() ==> #[trigger] outcomes[i]),
        action_of(run(fresh(), outcomes)) == Action::Complete ==> attributes_set(
            run(fresh(), outcomes),
        ) == attributes(),
        action_of(run(fresh(), outcomes)) != Action::Complete ==> action_of(
            run(fresh(), outcomes),
        ) == Action::Abort,
{
    reveal_with_fuel(run, 3);
    let rest = outcomes.drop_first();
    assert(rest[0] == outcomes[1]);
    assert(attributes().take(2) =~= attributes());
}

/// Loading again gives the same module: any two initialisations that
/// complete have set the same attributes, every one of them, in the same
/// order.
pub proof fn lemma_reload_same(first: Seq<bool>, second: Seq<bool>)
    requires
        action_of(run(fresh(), first)) == Action::Complete,
        action_of(run(fresh(), second)) == Action::Complete,
    ensures
        attributes_set(run(fresh(), first)) == attributes_set(run(fresh(), second)),
        attributes_set(run(fresh(), first)) == attributes(),
{
    lemma_run_well_formed(fresh(), first);
    lemma_run_well_formed(fresh(), second);
    assert(attributes().take(2) =~= attributes());
}

/// One initialisation of the module object.
pub struct Registration {
    set: usize,
    failed: bool,
}

impl View for Registration {
    type V = Progress;

    closed spec fn view(&self) -> Progress {
        (self.set as nat, self.failed)
    }
}

impl Registration {
    /// An initialisation that has set nothing yet.
    pub fn new() -> (r: Registration)
        ensures
            r@ == fresh(),
            well_formed(r@),
    {
        Registration { set: 0, failed: false }
    }

    /// What the caller is to do next.
    pub fn next_action(&self) -> (a: Action)
        requires
            well_formed(self@),
        ensures
            a == action_of(self@),
    {
        if self.failed {
            Action::Abort
        } else if self.set == 0 {
            Action::SetAttr(Attribute::Doc)
        } else if self.set == 1 {
            Action::SetAttr(Attribute::Hello)
        } else {
            Action::Complete
        }
    }

    /// Records whether the host accepted the attribute that `next_action`
    /// asked for.
    pub fn record(&mut self, ok: bool)
        requires
            well_formed(old(self)@),
            action_of(old(self)@) is SetAttr,
        ensures
            final(self)@ == step(old(self)@, ok),
            well_formed(final(self)@),
    {
        if ok {
            self.set = self.set + 1;
        } else {
            self.failed = true;
        }
    }
}

} // verus!
