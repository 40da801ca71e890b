//! Prefix/suffix pattern rules and the matcher that tests a rendered address
//! against them.

use vstd::prelude::*;
use crate::strutil::{is_char_prefix, is_char_suffix, str_has_prefix, str_has_suffix};

verus! {

/// One pattern rule: a required leading string and a required trailing
/// string, both tested against the canonical lowercase rendering.
pub struct PatternRule {
    pub start_with: String,
    pub end_with: String,
}

/// The rule's prefix and suffix both hold of the address characters.
pub open spec fn spec_rule_matches(rule: PatternRule, addr: Seq<char>) -> bool {
    is_char_prefix(rule.start_with@, addr) && is_char_suffix(rule.end_with@, addr)
}

/// Some rule in the list matches the address characters.
pub open spec fn spec_any_rule_matches(rules: Seq<PatternRule>, addr: Seq<char>) -> bool {
    exists|i: int| 0 <= i < rules.len() && spec_rule_matches(#[trigger] rules[i], addr)
}

/// Tests the address string against the rules: true exactly when at least one
/// rule's prefix and suffix both hold.
pub fn is_valid_address(rules: &Vec<PatternRule>, address: &str) -> (r: bool)
    ensures
        r == spec_any_rule_matches(rules@, address@),
{
    let mut i: usize = 0;
    while i < rules.len()
        invariant
            i <= rules@.len(),
            forall|j: int| 0 <= j < i ==> !spec_rule_matches(#[trigger] rules@[j], address@),
        decreases rules@.len() - i,
    {
        let rule = &rules[i];
        if str_has_prefix(address, rule.start_with.as_str()) && str_has_suffix(
            address,
            rule.end_with.as_str(),
        ) {
            return true;
        }
        i = i + 1;
    }
    false
}

/// A rule cut from an address's own leading and trailing characters always
/// matches that address.
pub proof fn lemma_own_affixes_match(rules: Seq<PatternRule>, addr: Seq<char>, i: int)
    requires
        0 <= i < rules.len(),
        rules[i].start_with@.len() <= addr.len(),
        rules[i].end_with@.len() <= addr.len(),
        rules[i].start_with@ == addr.subrange(0, rules[i].start_with@.len() as int),
        rules[i].end_with@ == addr.subrange(
            addr.len() - rules[i].end_with@.len(),
            addr.len() as int,
        ),
    ensures
        spec_any_rule_matches(rules, addr),
{
    assert(spec_rule_matches(rules[i], addr));
}

} // verus!
