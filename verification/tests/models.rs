use tabby_hub::registry::{
    models_json_file, parse_model_id, remote_registry_url, ModelInfo, ModelRegistry,
    GGML_MODEL_RELATIVE_PATH,
};

fn model(name: &str, sha256: &str) -> ModelInfo {
    ModelInfo {
        name: name.to_string(),
        prompt_template: None,
        chat_template: None,
        urls: vec![format!("https://models.example/{name}.gguf")],
        sha256: sha256.to_string(),
    }
}

fn registry() -> ModelRegistry {
    ModelRegistry::new(
        "TabbyML",
        vec![model("StarCoder-1B", "aa"), model("CodeLlama-7B", "bb"), model("StarCoder-1B", "cc")],
    )
}

#[test]
fn model_id_without_slash_belongs_to_tabbyml() {
    assert_eq!(parse_model_id("StarCoder-1B"), ("TabbyML", "StarCoder-1B"));
}

#[test]
fn model_id_with_slash_names_the_organization() {
    assert_eq!(parse_model_id("acme/Coder-3B"), ("acme", "Coder-3B"));
}

#[test]
fn model_id_with_slash_at_an_end() {
    assert_eq!(parse_model_id("/model"), ("", "model"));
    assert_eq!(parse_model_id("org/"), ("org", ""));
    assert_eq!(parse_model_id("/"), ("", ""));
    assert_eq!(parse_model_id(""), ("TabbyML", ""));
}

#[test]
fn model_id_beyond_ascii() {
    assert_eq!(parse_model_id("组织/模型-é"), ("组织", "模型-é"));
}

#[test]
fn weights_path_constant() {
    assert_eq!(GGML_MODEL_RELATIVE_PATH, "ggml/q8_0.v2.gguf");
}

#[test]
fn models_file_of_a_registry() {
    assert_eq!(models_json_file("TabbyML"), vec!["TabbyML".to_string(), "models.json".to_string()]);
}

#[test]
fn remote_registry_address() {
    assert_eq!(
        remote_registry_url("TabbyML"),
        "https://raw.githubusercontent.com/TabbyML/registry-tabby/main/models.json"
    );
    assert_eq!(
        remote_registry_url(""),
        "https://raw.githubusercontent.com//registry-tabby/main/models.json"
    );
}

#[test]
fn new_registry_keeps_name_and_models() {
    let loaded = registry();
    assert_eq!(loaded.name, "TabbyML");
    assert_eq!(loaded.models.len(), 3);
    assert_eq!(loaded.models[1].name, "CodeLlama-7B");
}

#[test]
fn model_directory_and_weights_path() {
    let loaded = registry();
    assert_eq!(
        loaded.get_model_dir("StarCoder-1B"),
        vec!["TabbyML".to_string(), "StarCoder-1B".to_string()]
    );
    assert_eq!(
        loaded.get_model_path("StarCoder-1B"),
        vec!["TabbyML".to_string(), "StarCoder-1B".to_string(), "ggml/q8_0.v2.gguf".to_string()]
    );
}

#[test]
fn model_info_is_the_first_of_that_name() {
    let loaded = registry();
    assert_eq!(loaded.get_model_info("StarCoder-1B").sha256, "aa");
    assert_eq!(loaded.get_model_info("CodeLlama-7B").sha256, "bb");
    assert_eq!(
        loaded.get_model_info("CodeLlama-7B").urls,
        vec!["https://models.example/CodeLlama-7B.gguf".to_string()]
    );
}

#[test]
fn unknown_model_is_not_found() {
    let loaded = registry();
    assert!(loaded.find_model_info("starcoder-1b").is_none());
    assert!(loaded.find_model_info("").is_none());
    assert_eq!(loaded.find_model_info("StarCoder-1B").unwrap().sha256, "aa");
    let empty = ModelRegistry::new("nobody", vec![]);
    assert!(empty.find_model_info("StarCoder-1B").is_none());
}

#[test]
fn saved_model_info_goes_to_the_model_directory() {
    let loaded = registry();
    let (path, info) = loaded.save_model_info("CodeLlama-7B");
    assert_eq!(
        path,
        vec!["TabbyML".to_string(), "CodeLlama-7B".to_string(), "tabby.json".to_string()]
    );
    assert_eq!(info.name, "CodeLlama-7B");
    assert_eq!(info.sha256, "bb");
}
