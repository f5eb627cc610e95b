use codex_models::endpoint::{append_client_version_query, models_path, ListingAction, ProviderListing};
use codex_models::provider_models::ProviderModel;

fn model(id: &str) -> ProviderModel {
    ProviderModel { id: id.to_string() }
}

fn fetch_path<E>(action: &ListingAction<E>) -> Option<&str> {
    match action {
        ListingAction::Fetch { path, .. } => Some(path.as_str()),
        ListingAction::Finish(_) => None,
    }
}

/// Runs a listing against fixed answers for the models path and the root,
/// giving the paths asked and the result.
fn run(
    primary: Result<Vec<ProviderModel>, String>,
    root: Result<Vec<ProviderModel>, String>,
) -> (Vec<String>, Result<Vec<ProviderModel>, String>) {
    let mut asked = Vec::new();
    let mut answers = vec![root, primary];
    let mut action = ProviderListing::start();
    loop {
        match action {
            ListingAction::Fetch { path, state } => {
                asked.push(path);
                action = state.step(answers.pop().expect("at most two requests"));
            }
            ListingAction::Finish(result) => return (asked, result),
        }
    }
}

#[test]
fn appends_client_version_query_to_models_url() {
    let mut url = format!("https://example.com/api/codex/{}", models_path());
    append_client_version_query(&mut url, "0.99.0");
    assert_eq!(url, "https://example.com/api/codex/models?client_version=0.99.0");
}

#[test]
fn appends_client_version_after_existing_query() {
    let mut url = "https://example.com/v1/models?api-version=2".to_string();
    append_client_version_query(&mut url, "0.1.0");
    assert_eq!(url, "https://example.com/v1/models?api-version=2&client_version=0.1.0");
    let mut root = "https://example.com/v1".to_string();
    append_client_version_query(&mut root, "0.99.0");
    assert_eq!(root, "https://example.com/v1?client_version=0.99.0");
    append_client_version_query(&mut root, "1");
    assert_eq!(root, "https://example.com/v1?client_version=0.99.0&client_version=1");
}

#[test]
fn models_path_is_models() {
    assert_eq!(models_path(), "models");
}

#[test]
fn provider_listing_falls_back_to_root() {
    let (asked, result) = run(Err("not found".to_string()), Ok(vec![model("root-model.gguf")]));
    assert_eq!(asked, vec!["models".to_string(), "".to_string()]);
    assert_eq!(result, Ok(vec![model("root-model.gguf")]));
}

#[test]
fn provider_listing_stops_at_a_non_empty_models_path() {
    let (asked, result) = run(Ok(vec![model("a")]), Err("unused".to_string()));
    assert_eq!(asked, vec!["models".to_string()]);
    assert_eq!(result, Ok(vec![model("a")]));
}

#[test]
fn provider_listing_after_empty_list_forgives_root_error() {
    let (asked, result) = run(Ok(vec![]), Err("root failed".to_string()));
    assert_eq!(asked, vec!["models".to_string(), "".to_string()]);
    assert_eq!(result, Ok(vec![]));
    let (_, result) = run(Ok(vec![]), Ok(vec![model("b")]));
    assert_eq!(result, Ok(vec![model("b")]));
}

#[test]
fn provider_listing_reports_first_error_when_both_fail() {
    let (asked, result) = run(Err("first".to_string()), Err("second".to_string()));
    assert_eq!(asked, vec!["models".to_string(), "".to_string()]);
    assert_eq!(result, Err("first".to_string()));
    let (_, result) = run(Err("first".to_string()), Ok(vec![]));
    assert_eq!(result, Ok(vec![]));
}

#[test]
fn provider_listing_start_asks_models_path() {
    let action = ProviderListing::<String>::start();
    assert_eq!(fetch_path(&action), Some("models"));
}
