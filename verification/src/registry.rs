//! The model registry: which models an organization offers, and where
//! their files are kept below the models directory.
//!
//! Paths are given as lists of components below the models directory, to
//! be joined by whoever touches the file system.

use crate::text::str_eq;
use vstd::pervasive::unreached;
use vstd::prelude::*;
use vstd::string::StringExecFns;

verus! {

/// Where a model's weights lie below the model's own directory.
pub const GGML_MODEL_RELATIVE_PATH: &'static str = "ggml/q8_0.v2.gguf";

/// What a registry says about one model.
#[derive(Debug)]
pub struct ModelInfo {
    pub name: String,
    pub prompt_template: Option<String>,
    pub chat_template: Option<String>,
    pub urls: Vec<String>,
    pub sha256: String,
}

/// The models of one organization.
#[derive(Debug)]
pub struct ModelRegistry {
    pub name: String,
    pub models: Vec<ModelInfo>,
}

/// The texts of a list of path components, in order.
pub open spec fn components(path: Seq<String>) -> Seq<Seq<char>> {
    path.map_values(|component: String| component@)
}

/// Whether `models[i]` is the first model called `name`.
pub open spec fn first_named(models: Seq<ModelInfo>, name: Seq<char>, i: int) -> bool {
    &&& 0 <= i < models.len()
    &&& models[i].name@ == name
    &&& forall|j: int| 0 <= j < i ==> (#[trigger] models[j]).name@ != name
}

/// Whether `model_id[i]` is a slash.
pub open spec fn slash_at(model_id: Seq<char>, i: int) -> bool {
    0 <= i < model_id.len() && model_id[i] == '/'
}

/// A model id is a model's name, or an organization and a name with one
/// slash between them.
pub open spec fn valid_model_id(model_id: Seq<char>) -> bool {
    forall|i: int, j: int|
        #![trigger slash_at(model_id, i), slash_at(model_id, j)]
        slash_at(model_id, i) && slash_at(model_id, j) ==> i == j
}

/// The file that lists the models of `registry`.
pub fn models_json_file(registry: &str) -> (path: Vec<String>)
    ensures
        components(path@) == seq![registry@, "models.json"@],
{
    let mut path: Vec<String> = Vec::new();
    path.push(String::from_str(registry));
    path.push(String::from_str("models.json"));
    assert(components(path@) =~= seq![registry@, "models.json"@]);
    path
}

/// Where the list of the models of `registry` is published.
pub fn remote_registry_url(registry: &str) -> (url: String)
    ensures
        url@ == "https://raw.githubusercontent.com/"@ + registry@
            + "/registry-tabby/main/models.json"@,
{
    let mut url = String::from_str("https://raw.githubusercontent.com/");
    url.append(registry);
    url.append("/registry-tabby/main/models.json");
    url
}

/// Splits a model id into the organization and the model's name. An id
/// without a slash names a model of `TabbyML`.
pub fn parse_model_id<'a>(model_id: &'a str) -> (parts: (&'a str, &'a str))
    requires
        valid_model_id(model_id@),
    ensures
        (forall|i: int| !slash_at(model_id@, i)) ==> parts.0@ == "TabbyML"@ && parts.1@
            == model_id@,
        forall|i: int|
            slash_at(model_id@, i) ==> parts.0@ == model_id@.subrange(0, i) && parts.1@
                == model_id@.subrange(i + 1, model_id@.len() as int),
{
    let n: usize = model_id.unicode_len();
    let mut i: usize = 0;
    while i < n
        invariant
            i <= n,
            n == model_id@.len(),
            valid_model_id(model_id@),
            forall|j: int| 0 <= j < i ==> !slash_at(model_id@, j),
        decreases n - i,
    {
        if model_id.get_char(i) == '/' {
            assert(slash_at(model_id@, i as int));
            return (model_id.substring_char(0, i), model_id.substring_char(i + 1, n));
        }
        i += 1;
    }
    ("TabbyML", model_id)
}

impl ModelRegistry {
    /// The registry of the organization `registry`, with the models that
    /// were loaded for it.
    pub fn new(registry: &str, models: Vec<ModelInfo>) -> (loaded: ModelRegistry)
        ensures
            loaded.name@ == registry@,
            loaded.models == models,
    {
        ModelRegistry { name: String::from_str(registry), models }
    }

    /// Whether the registry lists a model called `name`.
    pub open spec fn has_model(&self, name: Seq<char>) -> bool {
        exists|i: int| 0 <= i < self.models@.len() && (#[trigger] self.models@[i]).name@ == name
    }

    /// The directory of the model `name`.
    pub fn get_model_dir(&self, name: &str) -> (path: Vec<String>)
        ensures
            components(path@) == seq![self.name@, name@],
    {
        let mut path: Vec<String> = Vec::new();
        path.push(self.name.clone());
        path.push(String::from_str(name));
        assert(components(path@) =~= seq![self.name@, name@]);
        path
    }

    /// The file that holds the weights of the model `name`.
    pub fn get_model_path(&self, name: &str) -> (path: Vec<String>)
        ensures
            components(path@) == seq![self.name@, name@, GGML_MODEL_RELATIVE_PATH@],
    {
        let mut path = self.get_model_dir(name);
        let ghost dir = path@;
        path.push(String::from_str(GGML_MODEL_RELATIVE_PATH));
        assert(components(path@) =~= seq![self.name@, name@, GGML_MODEL_RELATIVE_PATH@]) by {
            assert(components(dir).len() == 2);
            assert(components(dir)[0] == dir[0]@);
            assert(components(dir)[1] == dir[1]@);
        }
        path
    }

    /// The first model called `name`, if the registry lists one.
    pub fn find_model_info(&self, name: &str) -> (found: Option<&ModelInfo>)
        ensures
            match found {
                Some(info) => exists|i: int|
                    first_named(self.models@, name@, i) && *info == self.models@[i],
                None => !self.has_model(name@),
            },
    {
        let mut i: usize = 0;
        while i < self.models.len()
            invariant
                i <= self.models@.len(),
                forall|j: int| 0 <= j < i ==> (#[trigger] self.models@[j]).name@ != name@,
            decreases self.models@.len() - i,
        {
            if str_eq(self.models[i].name.as_str(), name) {
                assert(first_named(self.models@, name@, i as int));
                return Some(&self.models[i]);
            }
            i += 1;
        }
        None
    }

    /// The first model called `name`.
    pub fn get_model_info(&self, name: &str) -> (info: &ModelInfo)
        requires
            self.has_model(name@),
        ensures
            exists|i: int| first_named(self.models@, name@, i) && *info == self.models@[i],
    {
        match self.find_model_info(name) {
            Some(info) => info,
            None => unreached(),
        }
    }

    /// What to save about the model `name`, and the file to save it in.
    pub fn save_model_info(&self, name: &str) -> (saved: (Vec<String>, &ModelInfo))
        requires
            self.has_model(name@),
        ensures
            components(saved.0@) == seq![self.name@, name@, "tabby.json"@],
            exists|i: int| first_named(self.models@, name@, i) && *saved.1 == self.models@[i],
    {
        let info = self.get_model_info(name);
        let mut path = self.get_model_dir(name);
        let ghost dir = path@;
        path.push(String::from_str("tabby.json"));
        assert(components(path@) =~= seq![self.name@, name@, "tabby.json"@]) by {
            assert(components(dir).len() == 2);
            assert(components(dir)[0] == dir[0]@);
            assert(components(dir)[1] == dir[1]@);
        }
        (path, info)
    }
}

} // verus!
