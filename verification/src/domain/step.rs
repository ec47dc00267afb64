//! The ordered steps of one farming cycle.
use vstd::prelude::*;

verus! {

/// The ten steps of a cycle, in the order `Step::all` gives.
/// `ReissekiGuard` only asserts (it never clicks); `Close` treats a timeout
/// as a normal skip.
#[derive(Debug, Clone, Copy, PartialEq, Eq, Structural)]
pub enum Step {
    ApPlus,
    UseMax,
    ReissekiGuard,
    UseButton,
    TapIndicator,
    Toubatsu,
    ToubatsuStart,
    Next1,
    Next2,
    Close,
}

/// Template key of the premium-currency guard.
pub open spec fn guard_template_view() -> Seq<char> {
    "reisseki_zero_guard"@
}

impl Step {
    /// Log name of the step.
    pub open spec fn name_view(self) -> Seq<char> {
        match self {
            Step::ApPlus => "ap_plus"@,
            Step::UseMax => "use_max"@,
            Step::ReissekiGuard => "reisseki_guard"@,
            Step::UseButton => "use_button"@,
            Step::TapIndicator => "tap_indicator"@,
            Step::Toubatsu => "toubatsu"@,
            Step::ToubatsuStart => "toubatsu_start"@,
            Step::Next1 => "next1"@,
            Step::Next2 => "next2"@,
            Step::Close => "close"@,
        }
    }

    /// Key of the template that the step searches for.
    pub open spec fn template_view(self) -> Seq<char> {
        match self {
            Step::ApPlus => "ap_plus_button"@,
            Step::UseMax => "ap_recovered_use_max"@,
            Step::ReissekiGuard => "reisseki_zero_guard"@,
            Step::UseButton => "use_button"@,
            Step::TapIndicator => "tap_indicator"@,
            Step::Toubatsu => "toubatsu_button"@,
            Step::ToubatsuStart => "toubatsu_start"@,
            Step::Next1 => "next_button"@,
            Step::Next2 => "next_button"@,
            Step::Close => "close_button"@,
        }
    }

    pub fn name(&self) -> (r: &'static str)
        ensures
            r@ == self.name_view(),
    {
        match self {
            Step::ApPlus => "ap_plus",
            Step::UseMax => "use_max",
            Step::ReissekiGuard => "reisseki_guard",
            Step::UseButton => "use_button",
            Step::TapIndicator => "tap_indicator",
            Step::Toubatsu => "toubatsu",
            Step::ToubatsuStart => "toubatsu_start",
            Step::Next1 => "next1",
            Step::Next2 => "next2",
            Step::Close => "close",
        }
    }

    /// Key of the template that the step searches for (the template library key).
    pub fn template_name(&self) -> (r: &'static str)
        ensures
            r@ == self.template_view(),
    {
        match self {
            Step::ApPlus => "ap_plus_button",
            Step::UseMax => "ap_recovered_use_max",
            Step::ReissekiGuard => "reisseki_zero_guard",
            Step::UseButton => "use_button",
            Step::TapIndicator => "tap_indicator",
            Step::Toubatsu => "toubatsu_button",
            Step::ToubatsuStart => "toubatsu_start",
            Step::Next1 | Step::Next2 => "next_button",
            Step::Close => "close_button",
        }
    }

    /// The steps of one cycle, in execution order.
    pub open spec fn all_view() -> Seq<Step> {
        seq![
            Step::ApPlus,
            Step::UseMax,
            Step::ReissekiGuard,
            Step::UseButton,
            Step::TapIndicator,
            Step::Toubatsu,
            Step::ToubatsuStart,
            Step::Next1,
            Step::Next2,
            Step::Close,
        ]
    }

    pub fn all() -> (r: &'static [Step])
        ensures
            r@ == Self::all_view(),
            r@.len() == 10,
            r@[0] == Step::ApPlus,
            r@[1] == Step::UseMax,
            r@[2] == Step::ReissekiGuard,
            r@[3] == Step::UseButton,
            r@[4] == Step::TapIndicator,
            r@[5] == Step::Toubatsu,
            r@[6] == Step::ToubatsuStart,
            r@[7] == Step::Next1,
            r@[8] == Step::Next2,
            r@[9] == Step::Close,
    {
        let r: &'static [Step] = &[
            Step::ApPlus,
            Step::UseMax,
            Step::ReissekiGuard,
            Step::UseButton,
            Step::TapIndicator,
            Step::Toubatsu,
            Step::ToubatsuStart,
            Step::Next1,
            Step::Next2,
            Step::Close,
        ];
        r
    }
}

/// Outcome of one step: how long it took (milliseconds), the matched score
/// as an IEEE-754 bit pattern (`None` when skipped) and whether the step was
/// skipped.
#[derive(Debug, Clone)]
pub struct StepLog {
    pub step: Step,
    pub elapsed_ms: u64,
    pub matched_score: Option<u32>,
    pub skipped: bool,
}

proof fn lemma_template_literals()
    ensures
        "ap_plus_button"@.len() == 14,
        "ap_recovered_use_max"@.len() == 20,
        "reisseki_zero_guard"@.len() == 19,
        "use_button"@.len() == 10,
        "tap_indicator"@.len() == 13,
        "toubatsu_button"@.len() == 15,
        "toubatsu_start"@.len() == 14,
        "next_button"@.len() == 11,
        "close_button"@.len() == 12,
        "ap_plus_button"@ != "toubatsu_start"@,
{
    reveal_strlit("ap_plus_button");
    reveal_strlit("ap_recovered_use_max");
    reveal_strlit("reisseki_zero_guard");
    reveal_strlit("use_button");
    reveal_strlit("tap_indicator");
    reveal_strlit("toubatsu_button");
    reveal_strlit("toubatsu_start");
    reveal_strlit("next_button");
    reveal_strlit("close_button");
    assert("ap_plus_button"@[0] != "toubatsu_start"@[0]);
}

/// The two result steps share the `next_button` template and every other
/// pair of steps searches different templates (nine templates for ten
/// steps); only the guard step searches the guard template.
pub proof fn law_template_names(s1: Step, s2: Step)
    ensures
        (s1 != s2 && s1.template_view() == s2.template_view()) <==> ((s1 == Step::Next1 && s2 == Step::Next2) || (
        s1 == Step::Next2 && s2 == Step::Next1)),
        s1.template_view() == guard_template_view() <==> s1 == Step::ReissekiGuard,
{
    lemma_template_literals();
}

/// Where a step stands in the cycle: the screens follow one another, so
/// each step comes strictly after the one whose click leads to its screen
/// (AP plus, max use, the guard, use, the recovery indicator, subjugation,
/// its start, the two result screens, close).
pub open spec fn comes_before(a: Step, b: Step) -> bool {
    exists|i: int, j: int|
        0 <= i < j < 10 && #[trigger] Step::all_view()[i] == a && #[trigger] Step::all_view()[j] == b
}

/// The cycle runs its ten steps once each, in the order of the game's
/// screens: AP plus first, close last, and each of AP plus, max use, guard,
/// use button, recovery indicator, subjugation, subjugation start, first
/// result, second result strictly before the next one.
pub proof fn law_cycle_order()
    ensures
        Step::all_view().len() == 10,
        forall|i: int, j: int| 0 <= i < j < 10 ==> Step::all_view()[i] != Step::all_view()[j],
        Step::all_view()[0] == Step::ApPlus,
        Step::all_view()[9] == Step::Close,
        Step::all_view()[1] == Step::UseMax,
        Step::all_view()[2] == Step::ReissekiGuard,
        Step::all_view()[3] == Step::UseButton,
        Step::all_view()[4] == Step::TapIndicator,
        Step::all_view()[5] == Step::Toubatsu,
        Step::all_view()[6] == Step::ToubatsuStart,
        Step::all_view()[7] == Step::Next1,
        Step::all_view()[8] == Step::Next2,
        comes_before(Step::UseButton, Step::TapIndicator),
        comes_before(Step::TapIndicator, Step::Toubatsu),
        comes_before(Step::Toubatsu, Step::ToubatsuStart),
        comes_before(Step::ToubatsuStart, Step::Next1),
        comes_before(Step::Next1, Step::Next2),
        !comes_before(Step::Toubatsu, Step::TapIndicator),
{
    let a = Step::all_view();
    assert(a[3] == Step::UseButton && a[4] == Step::TapIndicator);
    assert(a[5] == Step::Toubatsu && a[6] == Step::ToubatsuStart && a[7] == Step::Next1 && a[8] == Step::Next2);
    assert forall|i: int, j: int| 0 <= i < j < 10 implies a[i] != a[j] by {
        if i == 0 { } else if i == 1 { } else if i == 2 { } else if i == 3 { } else if i == 4 { }
        else if i == 5 { } else if i == 6 { } else if i == 7 { } else { }
    }
    if comes_before(Step::Toubatsu, Step::TapIndicator) {
        let (i, j) = choose|i: int, j: int|
            0 <= i < j < 10 && #[trigger] a[i] == Step::Toubatsu && #[trigger] a[j] == Step::TapIndicator;
        assert(i == 5) by {
            if i != 5 { assert(a[i] != a[5]); }
        }
        assert(j == 4) by {
            if j != 4 { assert(a[j] != a[4]); }
        }
    }
}

} // verus!
