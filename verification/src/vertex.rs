use vstd::prelude::*;

use crate::auth::ServiceAccountCredentials;

verus! {

/// The model used when none is configured.
pub const MODEL_NAME: &'static str = "gemini-3-flash-preview";

/// The location used when none is configured.
pub const DEFAULT_LOCATION: &'static str = "global";

/// Where Gemini requests are sent: the Google Cloud project, the Vertex AI
/// location and the model.
#[derive(Debug, Clone)]
pub struct VertexSettings {
    pub project_id: String,
    pub location: String,
    pub model: String,
}

/// The host that serves a Vertex AI location.
pub open spec fn vertex_host(location: Seq<char>) -> Seq<char> {
    if location == DEFAULT_LOCATION@ {
        "aiplatform.googleapis.com"@
    } else {
        location + "-aiplatform.googleapis.com"@
    }
}

/// The `generateContent` endpoint for a project, location and model.
pub open spec fn content_url_spec(s: VertexSettings) -> Seq<char> {
    "https://"@ + vertex_host(s.location@) + "/v1/projects/"@ + s.project_id@ + "/locations/"@
        + s.location@ + "/publishers/google/models/"@ + s.model@ + ":generateContent"@
}

impl VertexSettings {
    /// Settings from the configured values, falling back to the project of the
    /// service account, the global location and the default model.
    pub fn resolve(
        credentials: &ServiceAccountCredentials,
        project_setting: Option<String>,
        location_setting: Option<String>,
        model_setting: Option<String>,
    ) -> (s: VertexSettings)
        ensures
            s.project_id == match project_setting {
                Some(p) => p,
                None => credentials.project_id,
            },
            location_setting matches Some(l) ==> s.location == l,
            location_setting is None ==> s.location@ == DEFAULT_LOCATION@,
            model_setting matches Some(m) ==> s.model == m,
            model_setting is None ==> s.model@ == MODEL_NAME@,
    {
        let project_id = match project_setting {
            Some(p) => p,
            None => credentials.project_id.clone(),
        };
        let location = match location_setting {
            Some(l) => l,
            None => String::from_str(DEFAULT_LOCATION),
        };
        let model = match model_setting {
            Some(m) => m,
            None => String::from_str(MODEL_NAME),
        };
        VertexSettings { project_id, location, model }
    }

    /// The URL of the `generateContent` endpoint these settings point at.
    pub fn generate_content_url(&self) -> (url: String)
        ensures
            url@ == content_url_spec(*self),
    {
        let global = String::from_str(DEFAULT_LOCATION);
        let host = if self.location == global {
            String::from_str("aiplatform.googleapis.com")
        } else {
            self.location.clone().concat("-aiplatform.googleapis.com")
        };
        String::from_str("https://").concat(host.as_str()).concat("/v1/projects/").concat(
            self.project_id.as_str(),
        ).concat("/locations/").concat(self.location.as_str()).concat(
            "/publishers/google/models/",
        ).concat(self.model.as_str()).concat(":generateContent")
    }
}

/// The text sent for a prompt that works on some input data.
pub fn compose_prompt(prompt: &str, input_text: &str) -> (full: String)
    ensures
        full@ == prompt@ + "\n\nInput data:\n"@ + input_text@,
{
    String::from_str(prompt).concat("\n\nInput data:\n").concat(input_text)
}

} // verus!

verus! {

/// The endpoint URL is built from the settings' own values: it names the
/// settings' model and ends in `:generateContent`, it lists the project and the
/// location, and its host is the global host for the `global` location and the
/// regional host `<location>-aiplatform.googleapis.com` for any other.
pub proof fn lemma_content_url_uses_settings(s: VertexSettings)
    ensures
        ({
            let url = content_url_spec(s);
            let tail = "/publishers/google/models/"@ + s.model@ + ":generateContent"@;
            let path = "/v1/projects/"@ + s.project_id@ + "/locations/"@ + s.location@;
            let host = if s.location@ == "global"@ {
                "aiplatform.googleapis.com"@
            } else {
                s.location@ + "-aiplatform.googleapis.com"@
            };
            &&& url.len() >= tail.len()
            &&& url.skip(url.len() - tail.len()) == tail
            &&& url == "https://"@ + host + path + tail
        }),
{
    let url = content_url_spec(s);
    let tail = "/publishers/google/models/"@ + s.model@ + ":generateContent"@;
    let path = "/v1/projects/"@ + s.project_id@ + "/locations/"@ + s.location@;
    let host = vertex_host(s.location@);
    assert(url =~= ("https://"@ + host + path) + tail);
    assert(url.skip(url.len() - tail.len()) =~= tail);
}

} // verus!
