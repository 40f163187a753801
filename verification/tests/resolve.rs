use overlay_core::resolve::ListingOutcome;
use overlay_core::resolve::ModelInfo;
use overlay_core::resolve::ModelsResponse;
use overlay_core::resolve::get_best_available_model;
use overlay_core::resolve::model_supports_generation;
use overlay_core::resolve::preferences;
use overlay_core::resolve::strip_model_namespace;
use overlay_core::text::str_starts_with;

fn info(name: &str, methods: Option<Vec<&str>>) -> ModelInfo {
    ModelInfo {
        name: String::from(name),
        supported_generation_methods: methods
            .map(|ms| ms.into_iter().map(String::from).collect()),
    }
}

#[test]
fn unreachable_listing_degrades_to_safe_default() {
    let r = get_best_available_model(ListingOutcome::Unavailable);
    assert_eq!(r.model_id, "gemini-pro");
    assert_eq!(r.api_version, "v1");
}

#[test]
fn listing_without_models_degrades_to_final_fallback() {
    let r = get_best_available_model(ListingOutcome::Listed(ModelsResponse { models: None }));
    assert_eq!(r.model_id, "gemini-1.5-flash");
    assert_eq!(r.api_version, "v1beta");
}

#[test]
fn empty_model_list_degrades_to_final_fallback() {
    let listed = ListingOutcome::Listed(ModelsResponse { models: Some(vec![]) });
    let r = get_best_available_model(listed);
    assert_eq!(r.model_id, "gemini-1.5-flash");
    assert_eq!(r.api_version, "v1beta");
}

#[test]
fn non_matching_candidates_degrade_to_final_fallback() {
    let listed = ListingOutcome::Listed(ModelsResponse {
        models: Some(vec![info("models/chat-bison-001", Some(vec!["generateContent"]))]),
    });
    let r = get_best_available_model(listed);
    assert_eq!(r.model_id, "gemini-1.5-flash");
    assert_eq!(r.api_version, "v1beta");
}

#[test]
fn versioned_candidate_matches_earlier_prefix() {
    let listed = ListingOutcome::Listed(ModelsResponse {
        models: Some(vec![info("models/gemini-1.5-flash-001", Some(vec!["generateContent"]))]),
    });
    let r = get_best_available_model(listed);
    assert_eq!(r.model_id, "gemini-1.5-flash-001");
    assert_eq!(r.api_version, "v1beta");
}

#[test]
fn first_preference_with_a_match_wins_over_listing_order() {
    let listed = ListingOutcome::Listed(ModelsResponse {
        models: Some(vec![
            info("models/gemini-1.5-flash-002", Some(vec!["generateContent"])),
            info("models/gemini-1.5-flash-latest", Some(vec!["generateContent"])),
        ]),
    });
    let r = get_best_available_model(listed);
    assert_eq!(r.model_id, "gemini-1.5-flash-latest");
    assert_eq!(r.api_version, "v1beta");
}

#[test]
fn models_without_generation_support_are_ignored() {
    let listed = ListingOutcome::Listed(ModelsResponse {
        models: Some(vec![
            info("models/gemini-1.5-flash-latest", Some(vec!["embedContent"])),
            info("models/gemini-1.5-flash-latest", None),
            info("models/gemini-1.5-flash-002", Some(vec!["embedContent", "generateContent"])),
        ]),
    });
    let r = get_best_available_model(listed);
    assert_eq!(r.model_id, "gemini-1.5-flash-002");
    assert_eq!(r.api_version, "v1beta");
}

#[test]
fn generation_support_needs_the_exact_method() {
    assert!(model_supports_generation(&info("m", Some(vec!["generateContent"]))));
    assert!(model_supports_generation(&info("m", Some(vec!["x", "generateContent", "y"]))));
    assert!(!model_supports_generation(&info("m", Some(vec!["generatecontent"]))));
    assert!(!model_supports_generation(&info("m", Some(vec![]))));
    assert!(!model_supports_generation(&info("m", None)));
}

#[test]
fn namespace_prefix_is_stripped_once_at_the_front() {
    assert_eq!(strip_model_namespace(&String::from("models/gemini-pro")), "gemini-pro");
    assert_eq!(strip_model_namespace(&String::from("gemini-pro")), "gemini-pro");
    assert_eq!(strip_model_namespace(&String::from("models/")), "");
    assert_eq!(strip_model_namespace(&String::from("tunedModels/models/x")), "tunedModels/models/x");
}

#[test]
fn preference_order_is_the_documented_one() {
    let prefs = preferences();
    assert_eq!(
        prefs,
        vec![
            "gemini-1.5-flash-latest",
            "gemini-1.5-flash",
            "gemini-1.5-flash-001",
            "gemini-1.5-flash-002",
            "gemini-flash-latest",
        ]
    );
}

#[test]
fn starts_with_agrees_with_std() {
    for (s, p) in [("abc", "ab"), ("abc", ""), ("", ""), ("ab", "abc"), ("abc", "bc")] {
        assert_eq!(str_starts_with(s, p), s.starts_with(p), "{s} / {p}");
    }
}
