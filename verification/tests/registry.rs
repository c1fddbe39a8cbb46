use ollama_tui::error::AppError;
use ollama_tui::registry_api::{
    library_url, models_from_links, parse_registry_models, parse_registry_tags, tags_from_texts,
    tags_url, REGISTRY_BASE_URL,
};

fn links(targets: &[&str]) -> Vec<Option<String>> {
    targets.iter().map(|t| Some(t.to_string())).collect()
}

fn texts(all: &[&str]) -> Vec<String> {
    all.iter().map(|t| t.to_string()).collect()
}

#[test]
fn registry_addresses() {
    assert_eq!(REGISTRY_BASE_URL, "https://registry.ollama.ai");
    assert_eq!(library_url(), "https://registry.ollama.ai/library");
    assert_eq!(tags_url("llama3"), "https://registry.ollama.ai/library/llama3/tags");
}

#[test]
fn model_names_come_sorted_and_once() {
    let hrefs = links(&[
        "/library/mistral",
        "/library/llama3",
        "/library/llama3/tags",
        "/library/mistral",
        "/library/",
        "/library/gemma",
    ]);
    let models = models_from_links(&hrefs).expect("models");
    assert_eq!(models, vec!["gemma", "llama3", "mistral"]);
}

#[test]
fn links_without_target_are_skipped() {
    let hrefs = vec![None, Some("/library/phi".to_string()), None];
    assert_eq!(models_from_links(&hrefs).expect("models"), vec!["phi"]);
}

#[test]
fn no_model_names_is_an_error() {
    for hrefs in [links(&[]), links(&["/library/", "/library/a/b", "/other/x", "library/x"])] {
        match models_from_links(&hrefs) {
            Err(AppError::Scraping(m)) => {
                assert_eq!(m, "Could not find or parse model names from registry page.")
            }
            other => panic!("unexpected {:?}", other),
        }
    }
}

#[test]
fn second_part_must_be_library() {
    let hrefs = links(&["/models/zeta", "x/library/alpha", "/library/beta"]);
    assert_eq!(models_from_links(&hrefs).expect("models"), vec!["alpha", "beta"]);
}

#[test]
fn models_are_read_from_a_page() {
    let html = "<html><body><ul>\
        <li><a href=\"/library/mistral\">Mistral</a></li>\
        <li><a href=\"/library/llama3\">Llama 3</a></li>\
        <li><a href=\"/library/llama3/tags\">tags</a></li>\
        <li><a href=\"/blog/llama3\">blog</a></li>\
        <li><a href=\"/library/llama3\">again</a></li>\
        </ul></body></html>";
    assert_eq!(parse_registry_models(html).expect("models"), vec!["llama3", "mistral"]);
}

#[test]
fn page_without_model_links_is_an_error() {
    let html = "<html><body><p>maintenance</p></body></html>";
    match parse_registry_models(html) {
        Err(AppError::Scraping(m)) => {
            assert_eq!(m, "Could not find or parse model names from registry page.")
        }
        other => panic!("unexpected {:?}", other),
    }
}

#[test]
fn tags_come_with_latest_first_then_sorted() {
    let all = texts(&["llama3:8b", "  llama3:70b \n", "llama3:latest", "llama3:8b", "instruct"]);
    let tags = tags_from_texts(&all, "llama3").expect("tags");
    assert_eq!(tags, vec!["latest", "70b", "8b", "instruct"]);
}

#[test]
fn latest_is_added_and_the_model_name_dropped() {
    let all = texts(&["llama3", "llama3:8b", "", "   "]);
    let tags = tags_from_texts(&all, "llama3").expect("tags");
    assert_eq!(tags, vec!["latest", "8b"]);
    let only_name = texts(&["llama3"]);
    assert_eq!(tags_from_texts(&only_name, "llama3").expect("tags"), vec!["latest"]);
}

#[test]
fn no_tags_is_an_error() {
    for all in [texts(&[]), texts(&["  ", "name:"])] {
        match tags_from_texts(&all, "phi") {
            Err(AppError::Scraping(m)) => assert_eq!(
                m,
                "Could not find/parse tags for model 'phi'. (Selector might be outdated or model has no tags)"
            ),
            other => panic!("unexpected {:?}", other),
        }
    }
}

#[test]
fn tags_are_read_from_a_page() {
    let html = "<html><body><main><div><section><ul>\
        <li><a href=\"/library/llama3:8b\"> llama3:8b </a></li>\
        <li><div><a href=\"/library/llama3:70b\"><span>llama3:</span>70b</a></div></li>\
        <li><a href=\"/library/llama3:latest\">llama3:latest</a></li>\
        </ul></section></div></main>\
        <footer><ul><li><a href=\"/x\">elsewhere</a></li></ul></footer>\
        </body></html>";
    let tags = parse_registry_tags(html, "llama3").expect("tags");
    assert_eq!(tags, vec!["latest", "70b", "8b"]);
}

#[test]
fn page_without_tag_links_is_an_error() {
    let html = "<html><body><main><p>nothing</p></main></body></html>";
    match parse_registry_tags(html, "gemma") {
        Err(AppError::Scraping(m)) => assert_eq!(
            m,
            "Could not find/parse tags for model 'gemma'. (Selector might be outdated or model has no tags)"
        ),
        other => panic!("unexpected {:?}", other),
    }
}
