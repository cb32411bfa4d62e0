use vstd::prelude::*;

use crate::window_rule::{check_pattern, flag_holds, pattern_holds, RegexEq};

verus! {

/// What a layer rule can ask of a layer surface.
#[derive(Debug, Clone, PartialEq, Eq)]
pub struct LayerFacts {
    pub namespace: String,
    pub at_startup: bool,
}

/// One entry of a layer rule's `match` or `exclude` list.
#[derive(Debug, Default, Clone, PartialEq, Eq)]
pub struct Match {
    pub namespace: Option<RegexEq>,
    pub at_startup: Option<bool>,
}

pub open spec fn layer_match_holds(m: Match, l: LayerFacts) -> bool {
    pattern_holds(m.namespace, Some(l.namespace@)) && flag_holds(m.at_startup, l.at_startup)
}

/// A rule applies where its `match` list is empty or one entry holds, and no
/// entry of its `exclude` list holds.
pub open spec fn layer_rule_selects(matches: Seq<Match>, excludes: Seq<Match>, l: LayerFacts) -> bool {
    (matches.len() == 0 || exists|i: int|
        0 <= i < matches.len() && layer_match_holds(#[trigger] matches[i], l)) && !exists|i: int|
        0 <= i < excludes.len() && layer_match_holds(#[trigger] excludes[i], l)
}

impl Match {
    pub fn holds_for(&self, l: &LayerFacts) -> (r: bool)
        ensures
            r == layer_match_holds(*self, *l),
    {
        let startup_ok = match self.at_startup {
            None => true,
            Some(w) => w == l.at_startup,
        };
        startup_ok && check_pattern(&self.namespace, &Some(l.namespace.clone()))
    }
}

fn any_layer_holds(ms: &Vec<Match>, l: &LayerFacts) -> (r: bool)
    ensures
        r == exists|i: int| 0 <= i < ms@.len() && layer_match_holds(#[trigger] ms@[i], *l),
{
    let mut i: usize = 0;
    while i < ms.len()
        invariant
            i <= ms@.len(),
            forall|k: int| 0 <= k < i ==> !layer_match_holds(#[trigger] ms@[k], *l),
        decreases ms@.len() - i,
    {
        if ms[i].holds_for(l) {
            return true;
        }
        i += 1;
    }
    false
}

/// Whether a layer rule with these `match` and `exclude` lists applies to
/// the layer surface.
pub fn layer_rule_applies(matches: &Vec<Match>, excludes: &Vec<Match>, l: &LayerFacts) -> (r: bool)
    ensures
        r == layer_rule_selects(matches@, excludes@, *l),
{
    (matches.len() == 0 || any_layer_holds(matches, l)) && !any_layer_holds(excludes, l)
}

} // verus!
