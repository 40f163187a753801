//! Model discovery and fallback.
//!
//! Given the outcome of the listing call, resolution filters the listed
//! models to those that support content generation, strips their
//! namespace prefix, and walks a static preference order, returning the
//! first candidate that starts with a preferred prefix. Every failure
//! degrades to a known identifier instead of an error: an unreachable
//! listing yields a safe default, an empty or unmatched candidate list a
//! final fallback. Resolution never fails.

use vstd::prelude::*;
use vstd::string::StrSliceExecFns;
use vstd::string::StringExecFns;
use crate::text::contains_string;
use crate::text::starts_with_spec;
use crate::text::str_starts_with;
use crate::text::string_views;

verus! {

/// One entry of the remote model listing: the namespaced model name and
/// the generation methods it supports, if the listing gave any.
pub struct ModelInfo {
    pub name: String,
    pub supported_generation_methods: Option<Vec<String>>,
}

/// The body of a successful listing call.
pub struct ModelsResponse {
    pub models: Option<Vec<ModelInfo>>,
}

/// The outcome of resolution: a concrete model identifier and the API
/// version to address it under.
pub struct ResolvedModel {
    pub model_id: String,
    pub api_version: String,
}

/// What the listing call produced: `Unavailable` when the call failed at
/// the transport level, returned a non-success status, or its body could
/// not be read as a listing; `Listed` otherwise.
pub enum ListingOutcome {
    Unavailable,
    Listed(ModelsResponse),
}

/// The generation capability a usable model must support.
pub open spec fn generation_method() -> Seq<char> {
    "generateContent"@
}

/// The namespace prefix the listing puts before each model name.
pub open spec fn namespace_prefix() -> Seq<char> {
    "models/"@
}

/// A listed model supports generation when its method list is present
/// and contains the generation capability.
pub open spec fn supports_generation(m: ModelInfo) -> bool {
    match m.supported_generation_methods {
        Some(methods) => exists|i: int|
            0 <= i < methods@.len() && methods@[i]@ == generation_method(),
        None => false,
    }
}

/// A model name with its namespace prefix removed; a name without the
/// prefix is kept as it is.
pub open spec fn strip_namespace(name: Seq<char>) -> Seq<char> {
    if starts_with_spec(name, namespace_prefix()) {
        name.subrange(namespace_prefix().len() as int, name.len() as int)
    } else {
        name
    }
}

/// The candidates a listing yields: the generation-capable models, in
/// listing order, each with its namespace prefix stripped.
pub open spec fn spec_candidates(models: Seq<ModelInfo>) -> Seq<Seq<char>>
    decreases models.len(),
{
    if models.len() == 0 {
        Seq::empty()
    } else {
        let init = spec_candidates(models.drop_last());
        if supports_generation(models.last()) {
            init.push(strip_namespace(models.last().name@))
        } else {
            init
        }
    }
}

/// The static preference order, most preferred first.
pub open spec fn spec_preferences() -> Seq<Seq<char>> {
    seq![
        "gemini-1.5-flash-latest"@,
        "gemini-1.5-flash"@,
        "gemini-1.5-flash-001"@,
        "gemini-1.5-flash-002"@,
        "gemini-flash-latest"@,
    ]
}

/// The first candidate, in listing order, that starts with `p`.
pub open spec fn first_with_prefix(cands: Seq<Seq<char>>, p: Seq<char>) -> Option<Seq<char>>
    decreases cands.len(),
{
    if cands.len() == 0 {
        None
    } else if starts_with_spec(cands.first(), p) {
        Some(cands.first())
    } else {
        first_with_prefix(cands.drop_first(), p)
    }
}

/// The preference walk: for each preference in order, the first candidate
/// that starts with it; the first preference with a match wins.
pub open spec fn preferred_candidate(cands: Seq<Seq<char>>, prefs: Seq<Seq<char>>) -> Option<
    Seq<char>,
>
    decreases prefs.len(),
{
    if prefs.len() == 0 {
        None
    } else {
        match first_with_prefix(cands, prefs.first()) {
            Some(c) => Some(c),
            None => preferred_candidate(cands, prefs.drop_first()),
        }
    }
}

/// Whether a generation-capable model supports generation is decided by
/// its method list.
pub fn model_supports_generation(m: &ModelInfo) -> (b: bool)
    ensures
        b == supports_generation(*m),
{
    match &m.supported_generation_methods {
        None => false,
        Some(methods) => {
            let target = String::from_str("generateContent");
            proof {
                reveal_strlit("generateContent");
            }
            contains_string(methods, &target)
        },
    }
}

/// Remove the namespace prefix from a model name.
pub fn strip_model_namespace(name: &String) -> (r: String)
    ensures
        r@ == strip_namespace(name@),
{
    proof {
        reveal_strlit("models/");
    }
    let s = name.as_str();
    let len = s.unicode_len();
    if str_starts_with(s, "models/") {
        let tail = s.substring_char(7, len);
        tail.to_owned()
    } else {
        name.clone()
    }
}

/// The candidate identifiers of a listing: generation-capable models in
/// listing order, namespace stripped.
pub fn candidate_names(models: &Vec<ModelInfo>) -> (r: Vec<String>)
    ensures
        string_views(r@) == spec_candidates(models@),
{
    let mut r: Vec<String> = Vec::new();
    let mut i: usize = 0;
    while i < models.len()
        invariant
            i <= models@.len(),
            string_views(r@) == spec_candidates(models@.take(i as int)),
        decreases models@.len() - i,
    {
        proof {
            assert(models@.take(i as int + 1).drop_last() =~= models@.take(i as int));
            assert(models@.take(i as int + 1).last() == models@[i as int]);
        }
        if model_supports_generation(&models[i]) {
            let stripped = strip_model_namespace(&models[i].name);
            r.push(stripped);
        }
        proof {
            assert(string_views(r@) =~= spec_candidates(models@.take(i as int + 1)));
        }
        i += 1;
    }
    proof {
        assert(models@.take(models@.len() as int) =~= models@);
    }
    r
}

/// The static preference order.
pub fn preferences() -> (r: Vec<String>)
    ensures
        string_views(r@) == spec_preferences(),
{
    let mut v: Vec<String> = Vec::new();
    v.push(String::from_str("gemini-1.5-flash-latest"));
    v.push(String::from_str("gemini-1.5-flash"));
    v.push(String::from_str("gemini-1.5-flash-001"));
    v.push(String::from_str("gemini-1.5-flash-002"));
    v.push(String::from_str("gemini-flash-latest"));
    proof {
        assert(string_views(v@) =~= spec_preferences());
    }
    v
}

proof fn lemma_first_with_prefix_at(cands: Seq<Seq<char>>, p: Seq<char>, i: int)
    requires
        0 <= i <= cands.len(),
        forall|j: int| 0 <= j < i ==> !starts_with_spec(cands[j], p),
    ensures
        i == cands.len() ==> first_with_prefix(cands, p) is None,
        i < cands.len() && starts_with_spec(cands[i], p) ==> first_with_prefix(cands, p)
            == Some(cands[i]),
    decreases cands.len(),
{
    if cands.len() == 0 {
    } else if i == 0 {
    } else {
        assert(!starts_with_spec(cands[0], p));
        lemma_first_with_prefix_at(cands.drop_first(), p, i - 1);
    }
}

proof fn lemma_preferred_candidate_skip(cands: Seq<Seq<char>>, prefs: Seq<Seq<char>>, k: int)
    requires
        0 <= k <= prefs.len(),
        forall|j: int| 0 <= j < k ==> first_with_prefix(cands, prefs[j]) is None,
    ensures
        preferred_candidate(cands, prefs) == preferred_candidate(cands, prefs.skip(k)),
    decreases k,
{
    if k == 0 {
        assert(prefs.skip(0) =~= prefs);
    } else {
        assert(first_with_prefix(cands, prefs.first()) is None);
        assert(prefs.drop_first().skip(k - 1) =~= prefs.skip(k));
        lemma_preferred_candidate_skip(cands, prefs.drop_first(), k - 1);
    }
}

/// Index of the first candidate that starts with `prefix`, in listing
/// order.
pub fn find_first_with_prefix(cands: &Vec<String>, prefix: &String) -> (r: Option<usize>)
    ensures
        match r {
            Some(i) => i < cands@.len() && first_with_prefix(string_views(cands@), prefix@)
                == Some(cands@[i as int]@),
            None => first_with_prefix(string_views(cands@), prefix@) is None,
        },
{
    let ghost views = string_views(cands@);
    let mut i: usize = 0;
    while i < cands.len()
        invariant
            i <= cands@.len(),
            views == string_views(cands@),
            forall|j: int| 0 <= j < i ==> !starts_with_spec(views[j], prefix@),
        decreases cands@.len() - i,
    {
        if str_starts_with(cands[i].as_str(), prefix.as_str()) {
            proof {
                lemma_first_with_prefix_at(views, prefix@, i as int);
            }
            return Some(i);
        }
        i += 1;
    }
    proof {
        lemma_first_with_prefix_at(views, prefix@, cands@.len() as int);
    }
    None
}

/// The preference walk over concrete vectors: the first preference any
/// candidate starts with decides; the matching candidate is returned.
pub fn pick_preferred(cands: &Vec<String>, prefs: &Vec<String>) -> (r: Option<String>)
    ensures
        match r {
            Some(c) => preferred_candidate(string_views(cands@), string_views(prefs@))
                == Some(c@),
            None => preferred_candidate(string_views(cands@), string_views(prefs@)) is None,
        },
{
    let ghost cviews = string_views(cands@);
    let ghost pviews = string_views(prefs@);
    let mut k: usize = 0;
    while k < prefs.len()
        invariant
            k <= prefs@.len(),
            cviews == string_views(cands@),
            pviews == string_views(prefs@),
            forall|j: int| 0 <= j < k ==> first_with_prefix(cviews, pviews[j]) is None,
        decreases prefs@.len() - k,
    {
        match find_first_with_prefix(cands, &prefs[k]) {
            Some(i) => {
                proof {
                    lemma_preferred_candidate_skip(cviews, pviews, k as int);
                    assert(pviews.skip(k as int).first() == pviews[k as int]);
                }
                return Some(cands[i].clone());
            },
            None => {},
        }
        k += 1;
    }
    proof {
        lemma_preferred_candidate_skip(cviews, pviews, prefs@.len() as int);
        assert(pviews.skip(pviews.len() as int) =~= Seq::<Seq<char>>::empty());
    }
    None
}

/// The candidates of a listing body; a body without a model list yields
/// none.
pub open spec fn spec_listed_candidates(resp: ModelsResponse) -> Seq<Seq<char>> {
    match resp.models {
        Some(models) => spec_candidates(models@),
        None => Seq::empty(),
    }
}

/// The identifier and API version resolution yields for a listing
/// outcome: an unreachable listing degrades to the safe default; a
/// preferred candidate wins otherwise; an empty or unmatched candidate
/// list degrades to the final fallback.
pub open spec fn resolution_of(outcome: ListingOutcome) -> (Seq<char>, Seq<char>) {
    match outcome {
        ListingOutcome::Unavailable => ("gemini-pro"@, "v1"@),
        ListingOutcome::Listed(resp) => match preferred_candidate(
            spec_listed_candidates(resp),
            spec_preferences(),
        ) {
            Some(c) => (c, "v1beta"@),
            None => ("gemini-1.5-flash"@, "v1beta"@),
        },
    }
}

/// `r` is what resolution yields for `outcome`.
pub open spec fn resolution_is(outcome: ListingOutcome, r: ResolvedModel) -> bool {
    r.model_id@ == resolution_of(outcome).0 && r.api_version@ == resolution_of(outcome).1
}

/// Resolve the best available model from the listing outcome. Total:
/// every outcome yields a usable identifier, never an error.
pub fn get_best_available_model(outcome: ListingOutcome) -> (r: ResolvedModel)
    ensures
        resolution_is(outcome, r),
{
    match outcome {
        ListingOutcome::Unavailable => ResolvedModel {
            model_id: String::from_str("gemini-pro"),
            api_version: String::from_str("v1"),
        },
        ListingOutcome::Listed(resp) => {
            let models: Vec<ModelInfo> = match resp.models {
                Some(models) => models,
                None => Vec::new(),
            };
            let cands = candidate_names(&models);
            let prefs = preferences();
            match pick_preferred(&cands, &prefs) {
                Some(c) => ResolvedModel {
                    model_id: c,
                    api_version: String::from_str("v1beta"),
                },
                None => ResolvedModel {
                    model_id: String::from_str("gemini-1.5-flash"),
                    api_version: String::from_str("v1beta"),
                },
            }
        },
    }
}

proof fn lemma_first_with_prefix_found(cands: Seq<Seq<char>>, p: Seq<char>)
    ensures
        first_with_prefix(cands, p) matches Some(c) ==> cands.contains(c) && starts_with_spec(
            c,
            p,
        ),
    decreases cands.len(),
{
    if cands.len() == 0 {
    } else if starts_with_spec(cands.first(), p) {
        assert(cands.contains(cands.first()));
    } else {
        lemma_first_with_prefix_found(cands.drop_first(), p);
        match first_with_prefix(cands.drop_first(), p) {
            Some(c) => {
                assert(cands.drop_first().contains(c));
                let j = choose|j: int|
                    0 <= j < cands.drop_first().len() && cands.drop_first()[j] == c;
                assert(cands[j + 1] == c);
            },
            None => {},
        }
    }
}

proof fn lemma_preferred_candidate_found(cands: Seq<Seq<char>>, prefs: Seq<Seq<char>>)
    ensures
        preferred_candidate(cands, prefs) matches Some(c) ==> cands.contains(c) && exists|j: int|
            0 <= j < prefs.len() && starts_with_spec(c, prefs[j]),
    decreases prefs.len(),
{
    if prefs.len() == 0 {
    } else {
        lemma_first_with_prefix_found(cands, prefs.first());
        match first_with_prefix(cands, prefs.first()) {
            Some(c) => {
                assert(starts_with_spec(c, prefs[0]));
            },
            None => {
                lemma_preferred_candidate_found(cands, prefs.drop_first());
                match preferred_candidate(cands, prefs.drop_first()) {
                    Some(c) => {
                        let j = choose|j: int|
                            0 <= j < prefs.drop_first().len() && starts_with_spec(
                                c,
                                prefs.drop_first()[j],
                            );
                        assert(starts_with_spec(c, prefs[j + 1]));
                    },
                    None => {},
                }
            },
        }
    }
}

/// Law: resolution never fails. Whatever the listing outcome, it yields
/// either the safe default for an unreachable listing, the final fallback
/// for a listing nothing matched, or a listed candidate that starts with
/// one of the preferred prefixes under the discovery API version.
pub proof fn lemma_resolution_never_fails(outcome: ListingOutcome)
    ensures
        ({
            let id = resolution_of(outcome).0;
            let ver = resolution_of(outcome).1;
            (id == "gemini-pro"@ && ver == "v1"@) || (id == "gemini-1.5-flash"@ && ver
                == "v1beta"@) || (ver == "v1beta"@ && exists|j: int|
                0 <= j < spec_preferences().len() && starts_with_spec(
                    id,
                    spec_preferences()[j],
                ))
        }),
{
    match outcome {
        ListingOutcome::Unavailable => {},
        ListingOutcome::Listed(resp) => {
            lemma_preferred_candidate_found(spec_listed_candidates(resp), spec_preferences());
        },
    }
}

} // verus!
