//! User-defined text-rewriting rules handed to the external
//! post-processing collaborator; only enabled rules take part.

use vstd::prelude::*;

verus! {

/// One rewriting rule applied to a finished transcript.
#[derive(Debug)]
pub struct TranscriptionRule {
    /// Stable identifier.
    pub id: String,
    /// Short display title.
    pub title: String,
    /// The instruction handed to the rewriting collaborator.
    pub description: String,
    /// Whether the rule takes part in post-processing.
    pub enabled: bool,
    /// Whether the rule ships with the system.
    pub is_built_in: bool,
}

impl Clone for TranscriptionRule {
    /// An exact copy of the rule.
    fn clone(&self) -> (r: Self)
        ensures
            r == *self,
    {
        TranscriptionRule {
            id: self.id.clone(),
            title: self.title.clone(),
            description: self.description.clone(),
            enabled: self.enabled,
            is_built_in: self.is_built_in,
        }
    }
}

/// The enabled rules, in their configured order; post-processing is
/// skipped entirely when none is enabled.
pub fn enabled_rules(rules: Vec<TranscriptionRule>) -> (r: Vec<TranscriptionRule>)
    ensures
        r@ == rules@.filter(|t: TranscriptionRule| t.enabled),
{
    let mut out: Vec<TranscriptionRule> = Vec::new();
    let mut i: usize = 0;
    proof {
        reveal(Seq::filter);
        assert(rules@.take(0) =~= Seq::<TranscriptionRule>::empty());
    }
    while i < rules.len()
        invariant
            i <= rules@.len(),
            out@ == rules@.take(i as int).filter(|t: TranscriptionRule| t.enabled),
        decreases rules@.len() - i,
    {
        proof {
            reveal(Seq::filter);
            assert(rules@.take(i + 1).drop_last() =~= rules@.take(i as int));
            assert(rules@.take(i + 1).last() == rules@[i as int]);
        }
        if rules[i].enabled {
            out.push(rules[i].clone());
            proof {
                assert(out@ =~= rules@.take(i + 1).filter(|t: TranscriptionRule| t.enabled));
            }
        }
        i = i + 1;
    }
    proof {
        assert(rules@.take(rules@.len() as int) =~= rules@);
    }
    out
}

} // verus!
