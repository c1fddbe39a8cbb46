//! Reading the pages of the model registry: which models it offers, and
//! which tags a model has. The pages are fetched elsewhere; here they are
//! parsed and the names in them are put in order.

use crate::error::AppError;
use crate::text::{
    after_first, contains_text, sort_texts, split, split_text, text_after_first, text_eq,
    texts_sorted, trim, trimmed,
};
use vstd::prelude::*;
use vstd::seq_lib::*;
use vstd::string::*;

verus! {

/// The address of the registry.
pub const REGISTRY_BASE_URL: &'static str = "https://registry.ollama.ai";

/// The selector of the links to model pages.
pub const MODEL_LINK_SELECTOR: &'static str = "a[href^='/library/']";

/// The selector of the links to the tags of a model.
pub const TAG_LINK_SELECTOR: &'static str = "body > main > div > section > ul > li a";

/// For each element of an HTML document that a CSS selector matches, in the
/// order in which the crate `scraper` yields them, the value of an attribute
/// of the element, if it has that attribute; or the message of the error
/// with which the crate refuses the selector.
pub uninterp spec fn attribute_values(
    html: Seq<char>,
    selector: Seq<char>,
    attribute: Seq<char>,
) -> Result<Seq<Option<Seq<char>>>, Seq<char>>;

/// For each element of an HTML document that a CSS selector matches, in the
/// order in which the crate `scraper` yields them, the text of the element:
/// its descendant text nodes, one after the other; or the message of the
/// error with which the crate refuses the selector.
pub uninterp spec fn element_texts(html: Seq<char>, selector: Seq<char>) -> Result<
    Seq<Seq<char>>,
    Seq<char>,
>;

/// Parses the document with `scraper::Html::parse_document` and the selector
/// with `scraper::Selector::parse`, walks the matches of `Html::select` and
/// reads the attribute of each with `Element::attr`. The result is a function
/// of the three texts alone, which `attribute_values` names.
#[verifier::external_body]
fn select_attribute(html: &str, selector: &str, attribute: &str) -> (r: Result<
    Vec<Option<String>>,
    String,
>)
    ensures
        attribute_values(html@, selector@, attribute@) == match r {
            Ok(values) => Ok::<Seq<Option<Seq<char>>>, Seq<char>>(values.deep_view()),
            Err(message) => Err(message@),
        },
{
    let document = scraper::Html::parse_document(html);
    match scraper::Selector::parse(selector) {
        Ok(parsed) => Ok(
            document.select(&parsed).map(
                |element| element.value().attr(attribute).map(|value| value.to_string()),
            ).collect(),
        ),
        Err(e) => Err(e.to_string()),
    }
}

/// Parses the document with `scraper::Html::parse_document` and the selector
/// with `scraper::Selector::parse`, walks the matches of `Html::select` and
/// joins the text nodes that `ElementRef::text` yields for each. The result
/// is a function of the two texts alone, which `element_texts` names.
#[verifier::external_body]
fn select_text(html: &str, selector: &str) -> (r: Result<Vec<String>, String>)
    ensures
        element_texts(html@, selector@) == match r {
            Ok(texts) => Ok::<Seq<Seq<char>>, Seq<char>>(texts.deep_view()),
            Err(message) => Err(message@),
        },
{
    let document = scraper::Html::parse_document(html);
    match scraper::Selector::parse(selector) {
        Ok(parsed) => Ok(
            document.select(&parsed).map(|element| element.text().collect::<String>()).collect(),
        ),
        Err(e) => Err(e.to_string()),
    }
}

/// The address of the page that lists the registry's models.
pub fn library_url() -> (url: String)
    ensures
        url@ == REGISTRY_BASE_URL@ + "/library"@,
{
    String::from_str(REGISTRY_BASE_URL).concat("/library")
}

/// The address of the page that lists the tags of a model.
pub fn tags_url(model_name: &str) -> (url: String)
    ensures
        url@ == REGISTRY_BASE_URL@ + "/library/"@ + model_name@ + "/tags"@,
{
    String::from_str(REGISTRY_BASE_URL).concat("/library/").concat(model_name).concat("/tags")
}

/// The model that a link target names: the target has three parts between
/// slashes, the second is `library`, and the third, the name, is not empty.
pub open spec fn linked_model(href: Seq<char>) -> Option<Seq<char>> {
    let parts = split(href, '/');
    if parts.len() == 3 && parts[1] == "library"@ && parts[2].len() > 0 {
        Some(parts[2])
    } else {
        None
    }
}

/// The names of the models that the link targets name, each once, in the
/// order of their first occurrence.
pub open spec fn linked_models(hrefs: Seq<Option<Seq<char>>>) -> Seq<Seq<char>>
    decreases hrefs.len(),
{
    if hrefs.len() == 0 {
        Seq::empty()
    } else {
        let before = linked_models(hrefs.drop_last());
        match hrefs.last() {
            Some(href) => match linked_model(href) {
                Some(name) => if before.contains(name) {
                    before
                } else {
                    before.push(name)
                },
                None => before,
            },
            None => before,
        }
    }
}

/// The message of the error for a page without model names.
pub open spec fn no_models_text() -> Seq<char> {
    "Could not find or parse model names from registry page."@
}

/// What the list of the registry's models is, given the targets of the links
/// on the page: the models that the links name, in order; an error where
/// they name none.
pub open spec fn is_model_list(
    hrefs: Seq<Option<Seq<char>>>,
    result: Result<Vec<String>, AppError>,
) -> bool {
    match result {
        Ok(models) => {
            &&& linked_models(hrefs).len() > 0
            &&& texts_sorted(models.deep_view())
            &&& models.deep_view().to_multiset() == linked_models(hrefs).to_multiset()
        },
        Err(e) => {
            &&& linked_models(hrefs).len() == 0
            &&& e matches AppError::Scraping(message)
            &&& message@ == no_models_text()
        },
    }
}

/// The model that a link target names.
fn model_of_link(href: &str) -> (name: Option<String>)
    ensures
        name.deep_view() == linked_model(href@),
{
    let mut parts = split_text(href, '/');
    if parts.len() == 3 && text_eq(parts[1].as_str(), "library") {
        let name = parts.pop();
        match name {
            Some(name) => if name.as_str().unicode_len() > 0 {
                Some(name)
            } else {
                None
            },
            None => None,
        }
    } else {
        None
    }
}

/// The list of the registry's models, from the targets of the links on the
/// page that lists them.
pub fn models_from_links(hrefs: &Vec<Option<String>>) -> (result: Result<Vec<String>, AppError>)
    ensures
        is_model_list(hrefs.deep_view(), result),
{
    let ghost all = hrefs.deep_view();
    let mut models: Vec<String> = Vec::new();
    let mut i: usize = 0;
    assert(all.take(0) =~= Seq::empty());
    assert(models.deep_view() =~= Seq::empty());
    while i < hrefs.len()
        invariant
            i <= hrefs.len(),
            all == hrefs.deep_view(),
            models.deep_view() == linked_models(all.take(i as int)),
        decreases hrefs.len() - i,
    {
        let ghost before = models.deep_view();
        assert(all.take(i + 1).drop_last() =~= all.take(i as int));
        assert(all.take(i + 1).last() == hrefs[i as int].deep_view());
        match &hrefs[i] {
            Some(href) => {
                match model_of_link(href.as_str()) {
                    Some(name) => {
                        if !contains_text(&models, name.as_str()) {
                            models.push(name);
                            assert(models.deep_view() =~= before.push(name@));
                        }
                    },
                    None => {},
                }
            },
            None => {},
        }
        i += 1;
    }
    assert(all.take(hrefs.len() as int) =~= all);
    if models.len() == 0 {
        Err(
            AppError::Scraping(
                String::from_str("Could not find or parse model names from registry page."),
            ),
        )
    } else {
        sort_texts(&mut models);
        Ok(models)
    }
}

/// What reading the page that lists the registry's models gives: the list of
/// the models that its links name, or the error of a selector that the
/// parser refuses.
pub open spec fn is_parsed_model_list(html: Seq<char>, result: Result<Vec<String>, AppError>) -> bool {
    match attribute_values(html, MODEL_LINK_SELECTOR@, "href"@) {
        Ok(hrefs) => is_model_list(hrefs, result),
        Err(message) => {
            &&& result matches Err(AppError::Scraping(text))
            &&& text@ == "Failed to parse model link selector: "@ + message
        },
    }
}

/// Reads the page that lists the registry's models.
pub fn parse_registry_models(html: &str) -> (result: Result<Vec<String>, AppError>)
    ensures
        is_parsed_model_list(html@, result),
{
    match select_attribute(html, MODEL_LINK_SELECTOR, "href") {
        Ok(hrefs) => models_from_links(&hrefs),
        Err(message) => Err(
            AppError::Scraping(
                String::from_str("Failed to parse model link selector: ").concat(message.as_str()),
            ),
        ),
    }
}

/// The tag that the text of a link names: the text without white space
/// around it, or what follows its first colon where it has one.
pub open spec fn tag_of(text: Seq<char>) -> Seq<char> {
    after_first(trimmed(text), ':')
}

/// The tags that the texts of the links name, each once, in the order of
/// their first occurrence. An empty tag is left out.
pub open spec fn listed_tags(texts: Seq<Seq<char>>) -> Seq<Seq<char>>
    decreases texts.len(),
{
    if texts.len() == 0 {
        Seq::empty()
    } else {
        let before = listed_tags(texts.drop_last());
        let tag = tag_of(texts.last());
        if tag.len() > 0 && !before.contains(tag) {
            before.push(tag)
        } else {
            before
        }
    }
}

/// The predicate that keeps the texts other than the given one.
pub open spec fn differs_from(text: Seq<char>) -> spec_fn(Seq<char>) -> bool {
    |other: Seq<char>| other != text
}

/// The tags on offer for a model: the listed ones but the one that is the
/// model's own name, and `latest`, listed or not.
pub open spec fn offered_tags(listed: Seq<Seq<char>>, model_name: Seq<char>) -> Seq<Seq<char>> {
    let kept = listed.filter(differs_from(model_name));
    if kept.contains("latest"@) {
        kept
    } else {
        kept.push("latest"@)
    }
}

/// The message of the error for a page without tags.
pub open spec fn no_tags_text(model_name: Seq<char>) -> Seq<char> {
    "Could not find/parse tags for model '"@ + model_name
        + "'. (Selector might be outdated or model has no tags)"@
}

/// What the list of a model's tags is, given the texts of the links on its
/// page: `latest` first, then the other tags on offer, in order; an error
/// where the links name no tag.
pub open spec fn is_tag_list(
    texts: Seq<Seq<char>>,
    model_name: Seq<char>,
    result: Result<Vec<String>, AppError>,
) -> bool {
    match result {
        Ok(tags) => {
            &&& listed_tags(texts).len() > 0
            &&& tags.deep_view().len() > 0
            &&& tags.deep_view()[0] == "latest"@
            &&& texts_sorted(tags.deep_view().drop_first())
            &&& tags.deep_view().to_multiset() == offered_tags(
                listed_tags(texts),
                model_name,
            ).to_multiset()
        },
        Err(e) => {
            &&& listed_tags(texts).len() == 0
            &&& e matches AppError::Scraping(message)
            &&& message@ == no_tags_text(model_name)
        },
    }
}

/// The tags that the texts of the links name.
fn tags_listed(texts: &Vec<String>) -> (tags: Vec<String>)
    ensures
        tags.deep_view() == listed_tags(texts.deep_view()),
{
    let ghost all = texts.deep_view();
    let mut tags: Vec<String> = Vec::new();
    let mut i: usize = 0;
    assert(all.take(0) =~= Seq::empty());
    assert(tags.deep_view() =~= Seq::empty());
    while i < texts.len()
        invariant
            i <= texts.len(),
            all == texts.deep_view(),
            tags.deep_view() == listed_tags(all.take(i as int)),
        decreases texts.len() - i,
    {
        let ghost before = tags.deep_view();
        assert(all.take(i + 1).drop_last() =~= all.take(i as int));
        assert(all.take(i + 1).last() == texts[i as int]@);
        let tag = text_after_first(trim(texts[i].as_str()), ':');
        if tag.as_str().unicode_len() > 0 && !contains_text(&tags, tag.as_str()) {
            tags.push(tag);
            assert(tags.deep_view() =~= before.push(tag@));
        }
        i += 1;
    }
    assert(all.take(texts.len() as int) =~= all);
    tags
}

/// The texts other than the given one, in their order.
fn texts_other_than(texts: &Vec<String>, text: &str) -> (kept: Vec<String>)
    ensures
        kept.deep_view() == texts.deep_view().filter(differs_from(text@)),
{
    let ghost all = texts.deep_view();
    let ghost keep = differs_from(text@);
    let mut kept: Vec<String> = Vec::new();
    let mut i: usize = 0;
    assert(all.take(0) =~= Seq::empty());
    assert(kept.deep_view() =~= Seq::empty());
    while i < texts.len()
        invariant
            i <= texts.len(),
            all == texts.deep_view(),
            keep == differs_from(text@),
            kept.deep_view() == all.take(i as int).filter(keep),
        decreases texts.len() - i,
    {
        let ghost before = kept.deep_view();
        if !text_eq(texts[i].as_str(), text) {
            kept.push(texts[i].clone());
            assert(kept.deep_view() =~= before.push(texts[i as int]@));
        }
        proof {
            assert(all.take(i + 1) =~= all.take(i as int).push(all[i as int]));
            all.take(i as int).lemma_filter_push(all[i as int], keep);
        }
        i += 1;
    }
    assert(all.take(texts.len() as int) =~= all);
    kept
}

/// The offset of the first text that is `latest`, or the number of texts
/// where none is.
fn position_of_latest(texts: &Vec<String>) -> (at: usize)
    ensures
        at <= texts.len(),
        at < texts.len() ==> texts.deep_view()[at as int] == "latest"@,
        at == texts.len() ==> !texts.deep_view().contains("latest"@),
{
    let mut i: usize = 0;
    while i < texts.len()
        invariant
            i <= texts.len(),
            forall|k: int| 0 <= k < i ==> texts.deep_view()[k] != "latest"@,
        decreases texts.len() - i,
    {
        if text_eq(texts[i].as_str(), "latest") {
            return i;
        }
        i += 1;
    }
    i
}

/// The list of a model's tags, from the texts of the links on the page that
/// lists them.
pub fn tags_from_texts(texts: &Vec<String>, model_name: &str) -> (result: Result<
    Vec<String>,
    AppError,
>)
    ensures
        is_tag_list(texts.deep_view(), model_name@, result),
{
    let listed = tags_listed(texts);
    if listed.len() == 0 {
        let mut message = String::from_str("Could not find/parse tags for model '");
        message.append(model_name);
        message.append("'. (Selector might be outdated or model has no tags)");
        return Err(AppError::Scraping(message));
    }
    let mut tags = texts_other_than(&listed, model_name);
    let ghost kept = tags.deep_view();
    if !contains_text(&tags, "latest") {
        tags.push(String::from_str("latest"));
        assert(tags.deep_view() =~= kept.push("latest"@));
    }
    let ghost offered = tags.deep_view();
    assert(offered == offered_tags(listed.deep_view(), model_name@));
    assert(offered.contains("latest"@)) by {
        if !kept.contains("latest"@) {
            assert(offered[offered.len() - 1] == "latest"@);
        }
    }
    sort_texts(&mut tags);
    let ghost sorted = tags.deep_view();
    assert(sorted.contains("latest"@)) by {
        to_multiset_contains(offered, "latest"@);
        to_multiset_contains(sorted, "latest"@);
    }
    let at = position_of_latest(&tags);
    if at < tags.len() {
        let latest = tags.remove(at);
        assert(tags.deep_view() =~= sorted.remove(at as int));
        tags.insert(0, latest);
        assert(tags.deep_view() =~= sorted.remove(at as int).insert(0, "latest"@));
        assert(tags.deep_view().drop_first() =~= sorted.remove(at as int));
        assert(tags.deep_view().to_multiset() =~= sorted.to_multiset()) by {
            to_multiset_contains(sorted, "latest"@);
            to_multiset_remove(sorted, at as int);
            to_multiset_insert(sorted.remove(at as int), 0, "latest"@);
        }
    }
    Ok(tags)
}

/// What reading the page that lists a model's tags gives: the list of the
/// tags that its links name, or the error of a selector that the parser
/// refuses.
pub open spec fn is_parsed_tag_list(
    html: Seq<char>,
    model_name: Seq<char>,
    result: Result<Vec<String>, AppError>,
) -> bool {
    match element_texts(html, TAG_LINK_SELECTOR@) {
        Ok(texts) => is_tag_list(texts, model_name, result),
        Err(message) => {
            &&& result matches Err(AppError::Scraping(text))
            &&& text@ == "Failed to parse tag selector: "@ + message
        },
    }
}

/// Reads the page that lists the tags of a model.
pub fn parse_registry_tags(html: &str, model_name: &str) -> (result: Result<
    Vec<String>,
    AppError,
>)
    ensures
        is_parsed_tag_list(html@, model_name@, result),
{
    match select_text(html, TAG_LINK_SELECTOR) {
        Ok(texts) => tags_from_texts(&texts, model_name),
        Err(message) => Err(
            AppError::Scraping(
                String::from_str("Failed to parse tag selector: ").concat(message.as_str()),
            ),
        ),
    }
}

} // verus!
