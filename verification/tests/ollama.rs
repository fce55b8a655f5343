use dictation::ollama::{
    fill_prompt, generate_request, generate_url, model_names, tags_url, trim_trailing_slashes,
    GenerateRequest, OllamaModel,
};

#[test]
fn trailing_slashes_are_cut() {
    for s in [
        "http://localhost:11434",
        "http://localhost:11434/",
        "http://localhost:11434///",
        "",
        "/",
        "////",
        "a/b/",
        "/a",
        "h\u{e9}llo/\u{4e16}/",
        "\u{4e16}\u{754c}",
    ] {
        assert_eq!(trim_trailing_slashes(s), s.trim_end_matches('/'));
    }
    assert_eq!(trim_trailing_slashes("http://host//"), "http://host");
    assert_eq!(trim_trailing_slashes("//"), "");
}

#[test]
fn addresses_are_built_on_the_trimmed_base() {
    assert_eq!(tags_url("http://localhost:11434"), "http://localhost:11434/api/tags");
    assert_eq!(tags_url("http://localhost:11434/"), "http://localhost:11434/api/tags");
    assert_eq!(tags_url("http://localhost:11434//"), "http://localhost:11434/api/tags");
    assert_eq!(tags_url(""), "/api/tags");
    assert_eq!(generate_url("http://localhost:11434/"), "http://localhost:11434/api/generate");
    assert_eq!(generate_url("http://h/v1"), "http://h/v1/api/generate");
}

#[test]
fn model_names_keep_the_order() {
    let models = vec![
        OllamaModel { name: "llama3:8b".to_string() },
        OllamaModel { name: "".to_string() },
        OllamaModel { name: "mistral".to_string() },
        OllamaModel { name: "llama3:8b".to_string() },
    ];
    assert_eq!(model_names(models), vec!["llama3:8b", "", "mistral", "llama3:8b"]);
    assert_eq!(model_names(Vec::new()), Vec::<String>::new());
}

#[test]
fn request_asks_for_the_whole_answer() {
    assert_eq!(
        generate_request("mistral", "Fix: hello"),
        GenerateRequest {
            model: "mistral".to_string(),
            prompt: "Fix: hello".to_string(),
            stream: false,
        }
    );
}

#[test]
fn prompt_takes_the_text_at_every_mark() {
    assert_eq!(fill_prompt("Fix this: {text}", "helo wrld"), "Fix this: helo wrld");
    assert_eq!(fill_prompt("{text}", "x"), "x");
    assert_eq!(fill_prompt("{text}{text}", "ab"), "abab");
    assert_eq!(fill_prompt("a {text} b {text} c", "-"), "a - b - c");
    assert_eq!(fill_prompt("no mark here", "x"), "no mark here");
    assert_eq!(fill_prompt("", "x"), "");
    assert_eq!(fill_prompt("{text", "x"), "{text");
    assert_eq!(fill_prompt("{{text}}", "x"), "{x}");
    assert_eq!(fill_prompt("{tex{text}t}", "x"), "{texxt}");
    assert_eq!(fill_prompt("{TEXT}", "x"), "{TEXT}");
    assert_eq!(fill_prompt("{text}", ""), "");
    assert_eq!(fill_prompt("{text}", "{text}"), "{text}");
}

#[test]
fn prompt_filling_agrees_with_replace() {
    let prompts = [
        "Korrigiere: {text} \u{2014} danke",
        "\u{4e16}{text}\u{754c}{text}",
        "{text}{tex}{text}",
        "}{text}{",
        "{t{te{tex{text{text}",
    ];
    let texts = ["", "a", "gr\u{fc}\u{df}e", "{text}", "{"];
    for p in prompts {
        for t in texts {
            assert_eq!(fill_prompt(p, t), p.replace("{text}", t));
        }
    }
}
