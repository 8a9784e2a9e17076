use vstd::prelude::*;

use crate::error::ModelerError;

verus! {

/// Largest number of end-of-stroke iterations that the parameters may ask for, excluded.
pub const MAX_ITERATIONS_LIMIT: usize = 1000;

/// One rule that valid modeler parameters obey.
#[derive(Debug, Clone, Copy, PartialEq, Eq, Structural)]
pub enum ParamRule {
    SpringMassPositive,
    DragPositive,
    MinOutputRatePositive,
    StoppingDistancePositive,
    MaxIterationsPositive,
    MaxIterationsBelowLimit,
    MaxOutputsPositive,
    TimeoutPositive,
    SpeedFloorPositive,
    SpeedCeilingPositive,
    FloorBelowCeiling,
    MaxInputSamplesPositive,
}

/// The facts about a parameter set that validation judges.
///
/// The real-valued parameters are judged by their owner, who records each comparison
/// here; the counts are kept as they are.
#[derive(Debug, Clone, Copy, PartialEq, Eq, Structural)]
pub struct ParamChecks {
    /// `position_modeler_spring_mass_constant > 0`
    pub spring_mass_positive: bool,
    /// `position_modeler_drag_constant > 0`
    pub drag_positive: bool,
    /// `sampling_min_output_rate > 0`
    pub min_output_rate_positive: bool,
    /// `sampling_end_of_stroke_stopping_distance > 0`
    pub stopping_distance_positive: bool,
    /// `wobble_smoother_timeout > 0`
    pub timeout_positive: bool,
    /// `wobble_smoother_speed_floor > 0`
    pub speed_floor_positive: bool,
    /// `wobble_smoother_speed_ceiling > 0`
    pub speed_ceiling_positive: bool,
    /// `wobble_smoother_speed_floor < wobble_smoother_speed_ceiling`
    pub floor_below_ceiling: bool,
    pub max_iterations: usize,
    pub max_outputs_per_call: usize,
    pub max_input_samples: usize,
}

/// Every rule, in the order in which a report lists them.
pub open spec fn all_rules() -> Seq<ParamRule> {
    seq![
        ParamRule::SpringMassPositive,
        ParamRule::DragPositive,
        ParamRule::MinOutputRatePositive,
        ParamRule::StoppingDistancePositive,
        ParamRule::MaxIterationsPositive,
        ParamRule::MaxIterationsBelowLimit,
        ParamRule::MaxOutputsPositive,
        ParamRule::TimeoutPositive,
        ParamRule::SpeedFloorPositive,
        ParamRule::SpeedCeilingPositive,
        ParamRule::FloorBelowCeiling,
        ParamRule::MaxInputSamplesPositive,
    ]
}

pub open spec fn rule_holds(c: ParamChecks, rule: ParamRule) -> bool {
    match rule {
        ParamRule::SpringMassPositive => c.spring_mass_positive,
        ParamRule::DragPositive => c.drag_positive,
        ParamRule::MinOutputRatePositive => c.min_output_rate_positive,
        ParamRule::StoppingDistancePositive => c.stopping_distance_positive,
        ParamRule::MaxIterationsPositive => c.max_iterations > 0,
        ParamRule::MaxIterationsBelowLimit => c.max_iterations < MAX_ITERATIONS_LIMIT,
        ParamRule::MaxOutputsPositive => c.max_outputs_per_call > 0,
        ParamRule::TimeoutPositive => c.timeout_positive,
        ParamRule::SpeedFloorPositive => c.speed_floor_positive,
        ParamRule::SpeedCeilingPositive => c.speed_ceiling_positive,
        ParamRule::FloorBelowCeiling => c.floor_below_ceiling,
        ParamRule::MaxInputSamplesPositive => c.max_input_samples > 0,
    }
}

/// The rules that `c` breaks, in report order.
pub open spec fn failed_rules(c: ParamChecks) -> Seq<ParamRule> {
    all_rules().filter(|rule: ParamRule| !rule_holds(c, rule))
}

pub open spec fn rule_text(rule: ParamRule) -> Seq<char> {
    match rule {
        ParamRule::SpringMassPositive => "`position_modeler_spring_mass_constant` is not positive; "@,
        ParamRule::DragPositive => "`position_modeler_drag_constant` is not positive; "@,
        ParamRule::MinOutputRatePositive => "`sampling_min_output_rate` is not positive; "@,
        ParamRule::StoppingDistancePositive => "`sampling_end_of_stroke_stopping_distance` is not positive; "@,
        ParamRule::MaxIterationsPositive => "`sampling_end_of_stroke_max_iterations` is not positive; "@,
        ParamRule::MaxIterationsBelowLimit => "`sampling_end_of_stroke_max_iterations` is too large (>1000); "@,
        ParamRule::MaxOutputsPositive => "`sampling_max_outputs_per_call` is not positive; "@,
        ParamRule::TimeoutPositive => "`wobble_smoother_timeout` is not positive; "@,
        ParamRule::SpeedFloorPositive => "`wobble_smoother_speed_floor` is not positive; "@,
        ParamRule::SpeedCeilingPositive => "`wobble_smoother_speed_ceiling` is not positive; "@,
        ParamRule::FloorBelowCeiling => "`wobble_smoother_speed_floor` should be strictly smaller than `wobble_smoother_speed_ceiling`; "@,
        ParamRule::MaxInputSamplesPositive => "`stylus_state_modeler_max_input_samples` is not positive; "@,
    }
}

pub open spec fn report_prefix() -> Seq<char> {
    "the following errors occured : "@
}

/// The texts of `rules`, one after the other.
pub open spec fn rule_texts(rules: Seq<ParamRule>) -> Seq<char>
    decreases rules.len(),
{
    if rules.len() == 0 {
        Seq::empty()
    } else {
        rule_texts(rules.drop_last()) + rule_text(rules.last())
    }
}

/// The report for a parameter set that breaks `rules`.
pub open spec fn report(rules: Seq<ParamRule>) -> Seq<char> {
    report_prefix() + rule_texts(rules)
}

impl ParamRule {
    /// Every rule, in report order.
    pub fn all() -> (r: Vec<ParamRule>)
        ensures
            r@ == all_rules(),
    {
        let r = vec![
            ParamRule::SpringMassPositive,
            ParamRule::DragPositive,
            ParamRule::MinOutputRatePositive,
            ParamRule::StoppingDistancePositive,
            ParamRule::MaxIterationsPositive,
            ParamRule::MaxIterationsBelowLimit,
            ParamRule::MaxOutputsPositive,
            ParamRule::TimeoutPositive,
            ParamRule::SpeedFloorPositive,
            ParamRule::SpeedCeilingPositive,
            ParamRule::FloorBelowCeiling,
            ParamRule::MaxInputSamplesPositive,
        ];
        assert(r@ =~= all_rules());
        r
    }

    /// The line that a report gives to this rule.
    pub fn text(&self) -> (r: &'static str)
        ensures
            r@ == rule_text(*self),
    {
        match self {
            ParamRule::SpringMassPositive => "`position_modeler_spring_mass_constant` is not positive; ",
            ParamRule::DragPositive => "`position_modeler_drag_constant` is not positive; ",
            ParamRule::MinOutputRatePositive => "`sampling_min_output_rate` is not positive; ",
            ParamRule::StoppingDistancePositive => "`sampling_end_of_stroke_stopping_distance` is not positive; ",
            ParamRule::MaxIterationsPositive => "`sampling_end_of_stroke_max_iterations` is not positive; ",
            ParamRule::MaxIterationsBelowLimit => "`sampling_end_of_stroke_max_iterations` is too large (>1000); ",
            ParamRule::MaxOutputsPositive => "`sampling_max_outputs_per_call` is not positive; ",
            ParamRule::TimeoutPositive => "`wobble_smoother_timeout` is not positive; ",
            ParamRule::SpeedFloorPositive => "`wobble_smoother_speed_floor` is not positive; ",
            ParamRule::SpeedCeilingPositive => "`wobble_smoother_speed_ceiling` is not positive; ",
            ParamRule::FloorBelowCeiling => "`wobble_smoother_speed_floor` should be strictly smaller than `wobble_smoother_speed_ceiling`; ",
            ParamRule::MaxInputSamplesPositive => "`stylus_state_modeler_max_input_samples` is not positive; ",
        }
    }
}

impl ParamChecks {
    /// Whether the parameter set obeys `rule`.
    pub fn holds(&self, rule: ParamRule) -> (r: bool)
        ensures
            r == rule_holds(*self, rule),
    {
        match rule {
            ParamRule::SpringMassPositive => self.spring_mass_positive,
            ParamRule::DragPositive => self.drag_positive,
            ParamRule::MinOutputRatePositive => self.min_output_rate_positive,
            ParamRule::StoppingDistancePositive => self.stopping_distance_positive,
            ParamRule::MaxIterationsPositive => self.max_iterations > 0,
            ParamRule::MaxIterationsBelowLimit => self.max_iterations < MAX_ITERATIONS_LIMIT,
            ParamRule::MaxOutputsPositive => self.max_outputs_per_call > 0,
            ParamRule::TimeoutPositive => self.timeout_positive,
            ParamRule::SpeedFloorPositive => self.speed_floor_positive,
            ParamRule::SpeedCeilingPositive => self.speed_ceiling_positive,
            ParamRule::FloorBelowCeiling => self.floor_below_ceiling,
            ParamRule::MaxInputSamplesPositive => self.max_input_samples > 0,
        }
    }

    /// The rules that this parameter set breaks, in report order.
    pub fn failed(&self) -> (r: Vec<ParamRule>)
        ensures
            r@ == failed_rules(*self),
    {
        let rules = ParamRule::all();
        let mut r: Vec<ParamRule> = Vec::new();
        let mut i: usize = 0;
        while i < rules.len()
            invariant
                rules@ == all_rules(),
                i <= rules@.len(),
                r@ == rules@.subrange(0, i as int).filter(|rule: ParamRule| !rule_holds(*self, rule)),
            decreases rules.len() - i,
        {
            let rule = rules[i];
            proof {
                assert(rules@.subrange(0, i + 1).drop_last() =~= rules@.subrange(0, i as int));
                reveal(Seq::filter);
                assert(rules@.subrange(0, i + 1).last() == rule);
            }
            if !self.holds(rule) {
                r.push(rule);
            }
            i = i + 1;
        }
        assert(rules@.subrange(0, rules@.len() as int) =~= rules@);
        r
    }

    /// Accepts the parameter set when it obeys every rule; otherwise reports every rule
    /// that it breaks, in one message.
    pub fn validate(&self) -> (r: Result<(), ModelerError>)
        ensures
            r is Ok <==> failed_rules(*self).len() == 0,
            r is Ok <==> (forall|rule: ParamRule| rule_holds(*self, rule)),
            r is Err ==> (r matches Err(ModelerError::ParamInvalid { message }) && message@
                == report(failed_rules(*self))),
    {
        let failed = self.failed();
        proof {
            lemma_failed_empty_iff_all_hold(*self);
        }
        if failed.len() == 0 {
            Ok(())
        } else {
            let mut message = String::from_str("the following errors occured : ");
            let mut i: usize = 0;
            while i < failed.len()
                invariant
                    i <= failed@.len(),
                    message@ == report(failed@.subrange(0, i as int)),
                decreases failed.len() - i,
            {
                let ghost before = message@;
                message.append(failed[i].text());
                proof {
                    assert(failed@.subrange(0, i + 1).drop_last() =~= failed@.subrange(0, i as int));
                    assert(message@ =~= report(failed@.subrange(0, i + 1)));
                }
                i = i + 1;
            }
            assert(failed@.subrange(0, failed@.len() as int) =~= failed@);
            Err(ModelerError::ParamInvalid { message })
        }
    }
}

/// A parameter set breaks no rule exactly when it obeys all of them.
pub proof fn lemma_failed_empty_iff_all_hold(c: ParamChecks)
    ensures
        failed_rules(c).len() == 0 <==> (forall|rule: ParamRule| rule_holds(c, rule)),
{
    let f = |rule: ParamRule| !rule_holds(c, rule);
    if failed_rules(c).len() == 0 {
        assert forall|rule: ParamRule| rule_holds(c, rule) by {
            if !rule_holds(c, rule) {
                lemma_broken_rule_listed(c, rule);
            }
        }
    } else {
        all_rules().lemma_filter_pred(f, 0);
        let bad = failed_rules(c)[0];
        assert(!rule_holds(c, bad));
    }
}

proof fn lemma_broken_rule_listed(c: ParamChecks, rule: ParamRule)
    requires
        !rule_holds(c, rule),
    ensures
        failed_rules(c).contains(rule),
{
    let f = |r: ParamRule| !rule_holds(c, r);
    lemma_rule_listed(rule);
    let k = choose|k: int| 0 <= k < all_rules().len() && all_rules()[k] == rule;
    all_rules().lemma_filter_contains(f, k);
}

/// Every rule stands in the list of all rules.
pub proof fn lemma_rule_listed(rule: ParamRule)
    ensures
        all_rules().contains(rule),
{
    let s = all_rules();
    match rule {
        ParamRule::SpringMassPositive => assert(s[0] == rule),
        ParamRule::DragPositive => assert(s[1] == rule),
        ParamRule::MinOutputRatePositive => assert(s[2] == rule),
        ParamRule::StoppingDistancePositive => assert(s[3] == rule),
        ParamRule::MaxIterationsPositive => assert(s[4] == rule),
        ParamRule::MaxIterationsBelowLimit => assert(s[5] == rule),
        ParamRule::MaxOutputsPositive => assert(s[6] == rule),
        ParamRule::TimeoutPositive => assert(s[7] == rule),
        ParamRule::SpeedFloorPositive => assert(s[8] == rule),
        ParamRule::SpeedCeilingPositive => assert(s[9] == rule),
        ParamRule::FloorBelowCeiling => assert(s[10] == rule),
        ParamRule::MaxInputSamplesPositive => assert(s[11] == rule),
    }
}

/// Each rule rejects on its own: a parameter set that breaks any one rule is refused,
/// and that rule is among those that the report lists.
pub proof fn lemma_each_broken_rule_rejects(c: ParamChecks, rule: ParamRule)
    requires
        !rule_holds(c, rule),
    ensures
        failed_rules(c).contains(rule),
        failed_rules(c).len() > 0,
{
    lemma_broken_rule_listed(c, rule);
}

} // verus!
