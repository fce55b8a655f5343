//! What is sent to and read from the text-refinement service, as far as it
//! is computed: the addresses, the request, the prompt, and the names in its
//! answer.

use vstd::prelude::*;
use crate::text::texts;

verus! {

/// One model the service offers.
#[derive(Debug, PartialEq, Eq)]
pub struct OllamaModel {
    pub name: String,
}

/// A request for one answer, given whole.
#[derive(Debug, PartialEq, Eq)]
pub struct GenerateRequest {
    pub model: String,
    pub prompt: String,
    pub stream: bool,
}

/// How long the list of models is waited for, in seconds.
pub const TAGS_TIMEOUT_SECS: u64 = 10;

/// How long an answer is waited for, in seconds.
pub const GENERATE_TIMEOUT_SECS: u64 = 120;

/// `s` without the slashes at its end.
pub open spec fn without_trailing_slashes(s: Seq<char>) -> Seq<char>
    decreases s.len(),
{
    if s.len() > 0 && s.last() == '/' {
        without_trailing_slashes(s.drop_last())
    } else {
        s
    }
}

/// The mark in a prompt that stands for the text to refine.
pub open spec fn placeholder() -> Seq<char> {
    seq!['{', 't', 'e', 'x', 't', '}']
}

/// `prompt` with `text` in place of every mark, the marks taken from the left.
pub open spec fn filled(prompt: Seq<char>, text: Seq<char>) -> Seq<char>
    decreases prompt.len(),
{
    if prompt.len() == 0 {
        Seq::empty()
    } else if placeholder().is_prefix_of(prompt) {
        text + filled(prompt.skip(6), text)
    } else {
        seq![prompt[0]] + filled(prompt.skip(1), text)
    }
}

/// The names of the models, in their order.
pub open spec fn names_of(models: Seq<OllamaModel>) -> Seq<Seq<char>> {
    models.map_values(|m: OllamaModel| m.name@)
}

/// Cuts the slashes off the end of an address.
pub fn trim_trailing_slashes(base_url: &str) -> (trimmed: &str)
    ensures
        trimmed@ == without_trailing_slashes(base_url@),
{
    let n = base_url.unicode_len();
    let mut end: usize = n;
    assert(base_url@.take(n as int) =~= base_url@);
    while end > 0 && base_url.get_char(end - 1) == '/'
        invariant
            end <= n,
            n == base_url@.len(),
            without_trailing_slashes(base_url@) == without_trailing_slashes(
                base_url@.take(end as int),
            ),
        decreases end,
    {
        assert(base_url@.take(end as int).drop_last() =~= base_url@.take(end - 1));
        end -= 1;
    }
    base_url.substring_char(0, end)
}

/// Where the service lists its models.
pub fn tags_url(base_url: &str) -> (url: String)
    ensures
        url@ == without_trailing_slashes(base_url@) + "/api/tags"@,
{
    let mut url = String::from_str(trim_trailing_slashes(base_url));
    url.append("/api/tags");
    url
}

/// Where the service takes a request.
pub fn generate_url(base_url: &str) -> (url: String)
    ensures
        url@ == without_trailing_slashes(base_url@) + "/api/generate"@,
{
    let mut url = String::from_str(trim_trailing_slashes(base_url));
    url.append("/api/generate");
    url
}

/// The request for `prompt` to `model`: the answer is asked for whole, not
/// piece by piece.
pub fn generate_request(model: &str, prompt: &str) -> (request: GenerateRequest)
    ensures
        request.model@ == model@,
        request.prompt@ == prompt@,
        !request.stream,
{
    GenerateRequest {
        model: String::from_str(model),
        prompt: String::from_str(prompt),
        stream: false,
    }
}

/// The names in the service's list of models, in its order.
pub fn model_names(models: Vec<OllamaModel>) -> (names: Vec<String>)
    ensures
        texts(names@) == names_of(models@),
{
    let mut names: Vec<String> = Vec::new();
    let mut i: usize = 0;
    while i < models.len()
        invariant
            i <= models.len(),
            texts(names@) == names_of(models@.take(i as int)),
        decreases models.len() - i,
    {
        names.push(models[i].name.clone());
        assert(names_of(models@.take(i + 1)) =~= names_of(models@.take(i as int)).push(
            models@[i as int].name@,
        ));
        i += 1;
    }
    names
}

/// Whether the mark stands in `prompt` at place `at`.
fn placeholder_at(prompt: &str, at: usize, len: usize) -> (found: bool)
    requires
        len == prompt@.len(),
        at <= len,
    ensures
        found == placeholder().is_prefix_of(prompt@.skip(at as int)),
{
    if len - at < 6 {
        return false;
    }
    let found = prompt.get_char(at) == '{' && prompt.get_char(at + 1) == 't' && prompt.get_char(
        at + 2,
    ) == 'e' && prompt.get_char(at + 3) == 'x' && prompt.get_char(at + 4) == 't'
        && prompt.get_char(at + 5) == '}';
    found
}

/// Puts `text` into `prompt` in place of every mark `{text}`.
pub fn fill_prompt(prompt: &str, text: &str) -> (full: String)
    ensures
        full@ == filled(prompt@, text@),
{
    let n = prompt.unicode_len();
    let mut full = String::new();
    let mut i: usize = 0;
    assert(prompt@.skip(0) =~= prompt@);
    while i < n
        invariant
            i <= n,
            n == prompt@.len(),
            full@ + filled(prompt@.skip(i as int), text@) == filled(prompt@, text@),
        decreases n - i,
    {
        let ghost rest = prompt@.skip(i as int);
        if placeholder_at(prompt, i, n) {
            full.append(text);
            proof {
                assert(rest.skip(6) =~= prompt@.skip(i + 6));
            }
            i += 6;
        } else {
            full.append(prompt.substring_char(i, i + 1));
            proof {
                assert(rest.skip(1) =~= prompt@.skip(i + 1));
            }
            i += 1;
        }
    }
    full
}

} // verus!
