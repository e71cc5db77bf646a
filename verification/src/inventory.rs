//! The model inventory: the names that the tag listing holds, and whether a
//! wanted model is among them.

use vstd::prelude::*;
use crate::http::{HttpOutcome, HttpOutcomeView};
use crate::json::{error_text, field, json_error_text, json_parse, json_tree, member, parse_document,
    JsonTree};
use crate::text::{message, starts_with};

verus! {

/// The name of a model record: the text under its key `name`, where there is
/// one.
pub open spec fn record_name(record: JsonTree) -> Option<Seq<char>> {
    match member(record, "name"@) {
        JsonTree::Text(name) => Some(name),
        _ => None,
    }
}

/// The names of the model records of a tag listing, in the listing's order.
/// A record without a textual name is passed over; a document without an
/// array under `models` lists nothing.
pub open spec fn model_names(doc: JsonTree) -> Seq<Seq<char>> {
    match member(doc, "models"@) {
        JsonTree::Array(records) => records.filter_map(|record: JsonTree| record_name(record)),
        _ => Seq::empty(),
    }
}

/// What a parsed response body yields: the names in the document, or the
/// parser's message behind a fixed lead.
pub open spec fn names_of_parse(parsed: Result<JsonTree, Seq<char>>) -> Result<
    Seq<Seq<char>>,
    Seq<char>,
> {
    match parsed {
        Ok(doc) => Ok(model_names(doc)),
        Err(text) => Err("Failed to parse response: "@ + text),
    }
}

/// What the inventory query yields.
pub open spec fn inventory(outcome: HttpOutcomeView) -> Result<Seq<Seq<char>>, Seq<char>> {
    match outcome {
        HttpOutcomeView::Unreachable { cause } => Err("Failed to connect to Ollama: "@ + cause),
        HttpOutcomeView::Answered { body: Err(cause), .. } => Err(
            "Failed to parse response: "@ + cause,
        ),
        HttpOutcomeView::Answered { body: Ok(bytes), .. } => names_of_parse(json_parse(bytes)),
    }
}

/// Whether some name in `models` begins with `model`, character for
/// character.
pub open spec fn has_match(models: Seq<Seq<char>>, model: Seq<char>) -> bool {
    exists|i: int| 0 <= i < models.len() && model.is_prefix_of(#[trigger] models[i])
}

/// The view of a listing result.
pub open spec fn listing_view(r: Result<Vec<String>, String>) -> Result<Seq<Seq<char>>, Seq<char>> {
    match r {
        Ok(names) => Ok(names.deep_view()),
        Err(text) => Err(text@),
    }
}

/// The model names in a tag listing.
pub fn model_names_in(doc: &serde_json::Value) -> (names: Vec<String>)
    ensures
        names.deep_view() == model_names(json_tree(*doc)),
{
    let mut names: Vec<String> = Vec::new();
    match field(doc, "models").as_array() {
        None => {
            assert(names.deep_view() =~= Seq::<Seq<char>>::empty());
        },
        Some(records) => {
            let ghost trees = records@.map_values(|item: serde_json::Value| json_tree(item));
            let ghost pick = |record: JsonTree| record_name(record);
            assert(trees.take(0).filter_map(pick) =~= Seq::<Seq<char>>::empty());
            let mut i: usize = 0;
            while i < records.len()
                invariant
                    i <= records.len(),
                    trees == records@.map_values(|item: serde_json::Value| json_tree(item)),
                    pick == |record: JsonTree| record_name(record),
                    names.deep_view() =~= trees.take(i as int).filter_map(pick),
                decreases records.len() - i,
            {
                let ghost before = names.deep_view();
                proof {
                    trees.lemma_filter_map_take_succ(pick, i as int);
                }
                match field(&records[i], "name").as_str() {
                    Some(name) => {
                        names.push(name.to_owned());
                        assert(names.deep_view() =~= before + seq![name@]);
                    },
                    None => {},
                }
                i += 1;
            }
            assert(trees.take(i as int) =~= trees);
        },
    }
    names
}

/// What follows the parse of a response body: the names in the document, or
/// the parser's message behind `Failed to parse response: `.
pub fn names_from_parse(parsed: Result<serde_json::Value, serde_json::Error>) -> (r: Result<
    Vec<String>,
    String,
>)
    ensures
        listing_view(r) == names_of_parse(
            match parsed {
                Ok(doc) => Ok(json_tree(doc)),
                Err(error) => Err(json_error_text(error)),
            },
        ),
{
    match parsed {
        Ok(doc) => Ok(model_names_in(&doc)),
        Err(error) => {
            let text = error_text(&error);
            Err(message("Failed to parse response: ", text.as_str()))
        },
    }
}

/// The installed models, from the outcome of the inventory query. The status
/// code is not looked at: any body that parses is read.
///
/// Fails with `Failed to connect to Ollama: ` and the cause where no
/// response arrived, and with `Failed to parse response: ` and the cause
/// where the body could not be read or is no JSON document.
pub fn list_models(outcome: &HttpOutcome) -> (r: Result<Vec<String>, String>)
    ensures
        listing_view(r) == inventory(outcome@),
        outcome is Unreachable ==> r is Err,
{
    match outcome {
        HttpOutcome::Unreachable { cause } => Err(
            message("Failed to connect to Ollama: ", cause.as_str()),
        ),
        HttpOutcome::Answered { body: Err(cause), .. } => Err(
            message("Failed to parse response: ", cause.as_str()),
        ),
        HttpOutcome::Answered { body: Ok(bytes), .. } => names_from_parse(
            parse_document(bytes.as_slice()),
        ),
    }
}

/// Whether some name in `models` begins with `model`.
pub fn any_starts_with(models: &Vec<String>, model: &str) -> (found: bool)
    ensures
        found == has_match(models.deep_view(), model@),
{
    let mut i: usize = 0;
    while i < models.len()
        invariant
            i <= models.len(),
            forall|j: int| 0 <= j < i ==> !model@.is_prefix_of(#[trigger] models.deep_view()[j]),
        decreases models.len() - i,
    {
        if starts_with(models[i].as_str(), model) {
            assert(model@.is_prefix_of(models.deep_view()[i as int]));
            return true;
        }
        i += 1;
    }
    false
}

/// Whether a model whose name begins with `model` is installed, from the
/// outcome of the inventory query. A failed listing fails here with the same
/// message.
pub fn has_model(model: &str, outcome: &HttpOutcome) -> (r: Result<bool, String>)
    ensures
        match inventory(outcome@) {
            Ok(models) => r == Ok::<bool, String>(has_match(models, model@)),
            Err(text) => r is Err && r->Err_0@ == text,
        },
{
    match list_models(outcome) {
        Ok(models) => Ok(any_starts_with(&models, model)),
        Err(text) => Err(text),
    }
}

} // verus!
