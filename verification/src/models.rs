//! Model-name normalization and the static pricing table.
//!
//! Rates are held in nano-dollars per token, which is the same number as
//! thousandths of a dollar per million tokens; a rate of `1250` prices a
//! million tokens at 1.250 dollars.
use vstd::prelude::*;
use crate::text::{str_eq, str_starts_with};

verus! {

/// Per-token rates for one base model, in nano-dollars per token.
#[derive(Debug, Clone, Copy, PartialEq, Eq, Structural)]
pub struct ModelPricing {
    /// Rate for input tokens that were not served from cache.
    pub input: u64,
    /// Rate for input tokens served from cache.
    pub cached_input: u64,
    /// Rate for output tokens.
    pub output: u64,
}

/// An ordered pricing table: base-model names with their rates.  Lookup
/// takes the first entry whose name matches exactly.
pub struct PricingTable {
    pub entries: Vec<(String, ModelPricing)>,
}

/// The first entry of `entries` whose name equals `name`, if any.
pub open spec fn spec_lookup(entries: Seq<(String, ModelPricing)>, name: Seq<char>) -> Option<
    ModelPricing,
>
    decreases entries.len(),
{
    if entries.len() == 0 {
        None
    } else if entries[0].0@ == name {
        Some(entries[0].1)
    } else {
        spec_lookup(entries.skip(1), name)
    }
}

impl PricingTable {
    /// Finds the rates for `name`, scanning entries in order and taking
    /// the first exact match.
    pub fn get(&self, name: &str) -> (r: Option<ModelPricing>)
        ensures
            r == spec_lookup(self.entries@, name@),
    {
        let mut i: usize = 0;
        let n = self.entries.len();
        proof {
            assert(self.entries@.skip(0) =~= self.entries@);
        }
        while i < n
            invariant
                n == self.entries@.len(),
                i <= n,
                spec_lookup(self.entries@, name@) == spec_lookup(
                    self.entries@.skip(i as int),
                    name@,
                ),
            decreases n - i,
        {
            let entry = &self.entries[i];
            if str_eq(entry.0.as_str(), name) {
                proof {
                    assert(self.entries@.skip(i as int)[0] == self.entries@[i as int]);
                }
                return Some(entry.1);
            }
            proof {
                assert(self.entries@.skip(i as int)[0] == self.entries@[i as int]);
                assert(self.entries@.skip(i as int).skip(1) =~= self.entries@.skip(i + 1));
            }
            i = i + 1;
        }
        None
    }
}

/// The base-model identifier that `name` maps to: the first entry of the
/// fixed priority list that is a prefix of `name`, or `name` itself when
/// none matches.  More specific prefixes stand before the bare family
/// names, so a mini or nano variant never falls back to the base family.
pub open spec fn spec_base_model(name: Seq<char>) -> Seq<char> {
    if "gpt-5-mini"@.is_prefix_of(name) {
        "gpt-5-mini"@
    } else if "gpt-5-nano"@.is_prefix_of(name) {
        "gpt-5-nano"@
    } else if "gpt-5"@.is_prefix_of(name) {
        "gpt-5"@
    } else if "gpt-4.1-mini"@.is_prefix_of(name) {
        "gpt-4.1-mini"@
    } else if "gpt-4.1-nano"@.is_prefix_of(name) {
        "gpt-4.1-nano"@
    } else if "gpt-4.1"@.is_prefix_of(name) {
        "gpt-4.1"@
    } else if "o4-mini"@.is_prefix_of(name) {
        "o4-mini"@
    } else if "o3"@.is_prefix_of(name) {
        "o3"@
    } else {
        name
    }
}

/// Maps a reported model identifier to its priced base model by ordered
/// prefix matching; an unknown identifier is returned unchanged.
pub fn get_base_model_name<'a>(model_name: &'a str) -> (r: &'a str)
    ensures
        r@ == spec_base_model(model_name@),
{
    if str_starts_with(model_name, "gpt-5-mini") {
        "gpt-5-mini"
    } else if str_starts_with(model_name, "gpt-5-nano") {
        "gpt-5-nano"
    } else if str_starts_with(model_name, "gpt-5") {
        "gpt-5"
    } else if str_starts_with(model_name, "gpt-4.1-mini") {
        "gpt-4.1-mini"
    } else if str_starts_with(model_name, "gpt-4.1-nano") {
        "gpt-4.1-nano"
    } else if str_starts_with(model_name, "gpt-4.1") {
        "gpt-4.1"
    } else if str_starts_with(model_name, "o4-mini") {
        "o4-mini"
    } else if str_starts_with(model_name, "o3") {
        "o3"
    } else {
        model_name
    }
}

/// Maps a reported model identifier to its priced base model by ordered
/// prefix matching; an unknown identifier is returned unchanged.
pub fn base_model_name<'a>(model_name: &'a str) -> (r: &'a str)
    ensures
        r@ == spec_base_model(model_name@),
{
    get_base_model_name(model_name)
}

/// Builds the static pricing table, in priority order.
pub fn model_pricing() -> (r: PricingTable)
    ensures
        r.entries@.len() == 8,
        r.entries@[0].0@ == "gpt-5"@,
        r.entries@[0].1 == (ModelPricing { input: 1250, cached_input: 125, output: 10000 }),
        r.entries@[1].0@ == "gpt-5-mini"@,
        r.entries@[1].1 == (ModelPricing { input: 250, cached_input: 25, output: 2000 }),
        r.entries@[2].0@ == "gpt-5-nano"@,
        r.entries@[2].1 == (ModelPricing { input: 50, cached_input: 5, output: 400 }),
        r.entries@[3].0@ == "o3"@,
        r.entries@[3].1 == (ModelPricing { input: 2000, cached_input: 500, output: 8000 }),
        r.entries@[4].0@ == "o4-mini"@,
        r.entries@[4].1 == (ModelPricing { input: 1100, cached_input: 275, output: 4400 }),
        r.entries@[5].0@ == "gpt-4.1"@,
        r.entries@[5].1 == (ModelPricing { input: 2000, cached_input: 500, output: 8000 }),
        r.entries@[6].0@ == "gpt-4.1-mini"@,
        r.entries@[6].1 == (ModelPricing { input: 400, cached_input: 100, output: 1600 }),
        r.entries@[7].0@ == "gpt-4.1-nano"@,
        r.entries@[7].1 == (ModelPricing { input: 100, cached_input: 25, output: 400 }),
{
    let mut entries: Vec<(String, ModelPricing)> = Vec::new();
    entries.push(
        (String::from_str("gpt-5"), ModelPricing { input: 1250, cached_input: 125, output: 10000 }),
    );
    entries.push(
        (
            String::from_str("gpt-5-mini"),
            ModelPricing { input: 250, cached_input: 25, output: 2000 },
        ),
    );
    entries.push(
        (String::from_str("gpt-5-nano"), ModelPricing { input: 50, cached_input: 5, output: 400 }),
    );
    entries.push(
        (String::from_str("o3"), ModelPricing { input: 2000, cached_input: 500, output: 8000 }),
    );
    entries.push(
        (
            String::from_str("o4-mini"),
            ModelPricing { input: 1100, cached_input: 275, output: 4400 },
        ),
    );
    entries.push(
        (
            String::from_str("gpt-4.1"),
            ModelPricing { input: 2000, cached_input: 500, output: 8000 },
        ),
    );
    entries.push(
        (
            String::from_str("gpt-4.1-mini"),
            ModelPricing { input: 400, cached_input: 100, output: 1600 },
        ),
    );
    entries.push(
        (
            String::from_str("gpt-4.1-nano"),
            ModelPricing { input: 100, cached_input: 25, output: 400 },
        ),
    );
    PricingTable { entries }
}

/// Builds the static pricing table, in priority order.
pub fn get_model_pricing() -> (r: PricingTable)
    ensures
        r.entries@.len() == 8,
        r.entries@[0].0@ == "gpt-5"@,
        r.entries@[0].1 == (ModelPricing { input: 1250, cached_input: 125, output: 10000 }),
        r.entries@[1].0@ == "gpt-5-mini"@,
        r.entries@[1].1 == (ModelPricing { input: 250, cached_input: 25, output: 2000 }),
        r.entries@[2].0@ == "gpt-5-nano"@,
        r.entries@[2].1 == (ModelPricing { input: 50, cached_input: 5, output: 400 }),
        r.entries@[3].0@ == "o3"@,
        r.entries@[3].1 == (ModelPricing { input: 2000, cached_input: 500, output: 8000 }),
        r.entries@[4].0@ == "o4-mini"@,
        r.entries@[4].1 == (ModelPricing { input: 1100, cached_input: 275, output: 4400 }),
        r.entries@[5].0@ == "gpt-4.1"@,
        r.entries@[5].1 == (ModelPricing { input: 2000, cached_input: 500, output: 8000 }),
        r.entries@[6].0@ == "gpt-4.1-mini"@,
        r.entries@[6].1 == (ModelPricing { input: 400, cached_input: 100, output: 1600 }),
        r.entries@[7].0@ == "gpt-4.1-nano"@,
        r.entries@[7].1 == (ModelPricing { input: 100, cached_input: 25, output: 400 }),
{
    model_pricing()
}

} // verus!
