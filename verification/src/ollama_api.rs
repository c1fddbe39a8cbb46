//! The records the local daemon exchanges with its clients, and the parts of
//! a request that are computed: endpoint addresses and error messages.

use crate::error::ApiError;
use vstd::prelude::*;
use vstd::string::*;

verus! {

/// Where the daemon listens when nothing else is configured.
pub const DEFAULT_OLLAMA_HOST: &'static str = "http://localhost:11434";

/// The answer to a request for the list of local models.
#[derive(Debug)]
pub struct ListTagsResponse {
    pub models: Vec<ModelInfo>,
}

/// One local model, as the daemon lists it.
#[derive(Debug)]
pub struct ModelInfo {
    pub name: String,
    pub modified_at: String,
    pub size: u64,
    pub digest: String,
}

/// The mathematical value of a `ModelInfo`.
pub struct ModelInfoView {
    pub name: Seq<char>,
    pub modified_at: Seq<char>,
    pub size: u64,
    pub digest: Seq<char>,
}

impl View for ModelInfo {
    type V = ModelInfoView;

    open spec fn view(&self) -> ModelInfoView {
        ModelInfoView {
            name: self.name@,
            modified_at: self.modified_at@,
            size: self.size,
            digest: self.digest@,
        }
    }
}

impl DeepView for ModelInfo {
    type V = ModelInfoView;

    open spec fn deep_view(&self) -> ModelInfoView {
        self@
    }
}

/// The size of a model in binary units (KiB, MiB, ...), as the crate
/// `humansize` writes it with its `BINARY` options.
pub uninterp spec fn binary_size_text(size: u64) -> Seq<char>;

/// Calls `humansize::format_size` with the `BINARY` options. The text is a
/// function of the size alone, which `binary_size_text` names.
#[verifier::external_body]
fn format_size_binary(size: u64) -> (r: String)
    ensures
        r@ == binary_size_text(size),
{
    humansize::format_size(size, humansize::BINARY)
}

impl Clone for ModelInfo {
    fn clone(&self) -> (r: Self)
        ensures
            r == *self,
    {
        ModelInfo {
            name: self.name.clone(),
            modified_at: self.modified_at.clone(),
            size: self.size,
            digest: self.digest.clone(),
        }
    }
}

impl ModelInfo {
    /// The size of the model, for display.
    pub fn size_formatted(&self) -> (r: String)
        ensures
            r@ == binary_size_text(self.size),
    {
        format_size_binary(self.size)
    }
}

/// The body of a request for the details of one model.
#[derive(Debug)]
pub struct ShowModelRequest {
    pub name: String,
}

/// The details of one model.
#[derive(Debug, Clone)]
pub struct ShowModelResponse {
    pub license: Option<String>,
    pub modelfile: Option<String>,
    pub parameters: Option<String>,
    pub template: Option<String>,
    pub details: Option<ModelExtraDetails>,
}

/// What the daemon knows of the build of a model.
#[derive(Debug, Clone)]
pub struct ModelExtraDetails {
    pub format: Option<String>,
    pub family: Option<String>,
    pub families: Option<Vec<String>>,
    pub parameter_size: Option<String>,
    pub quantization_level: Option<String>,
    pub parent_model: Option<String>,
    pub general: Option<GeneralDetails>,
}

/// The general section of the details of a model.
#[derive(Debug, Clone)]
pub struct GeneralDetails {
    pub architecture: Option<String>,
    pub file_type: Option<u32>,
    pub quantization_version: Option<u32>,
}

/// The mathematical value of a `GeneralDetails`.
pub struct GeneralDetailsView {
    pub architecture: Option<Seq<char>>,
    pub file_type: Option<u32>,
    pub quantization_version: Option<u32>,
}

/// The mathematical value of a `ModelExtraDetails`.
pub struct ModelExtraDetailsView {
    pub format: Option<Seq<char>>,
    pub family: Option<Seq<char>>,
    pub families: Option<Seq<Seq<char>>>,
    pub parameter_size: Option<Seq<char>>,
    pub quantization_level: Option<Seq<char>>,
    pub parent_model: Option<Seq<char>>,
    pub general: Option<GeneralDetailsView>,
}

/// The mathematical value of a `ShowModelResponse`.
pub struct ShowModelResponseView {
    pub license: Option<Seq<char>>,
    pub modelfile: Option<Seq<char>>,
    pub parameters: Option<Seq<char>>,
    pub template: Option<Seq<char>>,
    pub details: Option<ModelExtraDetailsView>,
}

impl DeepView for GeneralDetails {
    type V = GeneralDetailsView;

    open spec fn deep_view(&self) -> GeneralDetailsView {
        GeneralDetailsView {
            architecture: self.architecture.deep_view(),
            file_type: self.file_type,
            quantization_version: self.quantization_version,
        }
    }
}

impl DeepView for ModelExtraDetails {
    type V = ModelExtraDetailsView;

    open spec fn deep_view(&self) -> ModelExtraDetailsView {
        ModelExtraDetailsView {
            format: self.format.deep_view(),
            family: self.family.deep_view(),
            families: self.families.deep_view(),
            parameter_size: self.parameter_size.deep_view(),
            quantization_level: self.quantization_level.deep_view(),
            parent_model: self.parent_model.deep_view(),
            general: self.general.deep_view(),
        }
    }
}

impl DeepView for ShowModelResponse {
    type V = ShowModelResponseView;

    open spec fn deep_view(&self) -> ShowModelResponseView {
        ShowModelResponseView {
            license: self.license.deep_view(),
            modelfile: self.modelfile.deep_view(),
            parameters: self.parameters.deep_view(),
            template: self.template.deep_view(),
            details: self.details.deep_view(),
        }
    }
}

impl View for ShowModelResponse {
    type V = ShowModelResponseView;

    open spec fn view(&self) -> ShowModelResponseView {
        self.deep_view()
    }
}

/// The body of a request to delete one model.
#[derive(Debug)]
pub struct DeleteModelRequest {
    pub name: String,
}

/// The daemon's address: the configured one, or the default where none is
/// configured.
pub fn host_or_default(configured: Option<String>) -> (host: String)
    ensures
        host@ == match configured {
            Some(h) => h@,
            None => DEFAULT_OLLAMA_HOST@,
        },
{
    match configured {
        Some(h) => h,
        None => String::from_str(DEFAULT_OLLAMA_HOST),
    }
}

/// The address that lists the local models.
pub fn tags_url(host: &str) -> (url: String)
    ensures
        url@ == host@ + "/api/tags"@,
{
    String::from_str(host).concat("/api/tags")
}

/// The address that shows the details of a model.
pub fn show_url(host: &str) -> (url: String)
    ensures
        url@ == host@ + "/api/show"@,
{
    String::from_str(host).concat("/api/show")
}

/// The address that deletes a model.
pub fn delete_url(host: &str) -> (url: String)
    ensures
        url@ == host@ + "/api/delete"@,
{
    String::from_str(host).concat("/api/delete")
}

/// The text of the error for an answer whose status is not a success: the
/// status, then the body of the answer, or a fixed phrase where the body
/// could not be read.
pub open spec fn response_error_text(status: Seq<char>, body: Option<Seq<char>>) -> Seq<char> {
    "API Error: "@ + status + " - "@ + match body {
        Some(b) => b,
        None => "Unknown error"@,
    }
}

/// The error for an answer whose status is not a success.
pub fn response_error(status: &str, body: Option<String>) -> (e: ApiError)
    ensures
        e matches ApiError::ResponseError(m) && m@ == response_error_text(
            status@,
            body.deep_view(),
        ),
{
    let head = String::from_str("API Error: ").concat(status).concat(" - ");
    let m = match body {
        Some(b) => head.concat(b.as_str()),
        None => head.concat("Unknown error"),
    };
    ApiError::ResponseError(m)
}

} // verus!
