//! The generation request, and the submission side of the job protocol.
use vstd::prelude::*;
use crate::json::{json_parses, json_str_at, lookup_str};
use crate::route::model_view;

verus! {

/// What is sent to the generation service for one prompt. Built fresh for
/// each message and never changed after.
pub struct GenerationRequest {
    pub model_id: String,
    pub positive_prompt: String,
    pub negative_prompt: String,
}

/// Why a submission gave no job handle.
#[derive(PartialEq, Eq, Structural, Debug, Clone, Copy)]
pub enum JobError {
    /// The answer is not JSON.
    Parse,
    /// The answer holds no `data.fetchKey` string.
    MissingFetchKey,
}

/// The address that jobs are submitted to.
pub fn submit_url() -> (r: &'static str)
    ensures
        r@ == "https://miaoshouai.com/playground/translation/produce/do/text2img"@,
{
    "https://miaoshouai.com/playground/translation/produce/do/text2img"
}

pub open spec fn fetch_prefix() -> Seq<char> {
    "https://miaoshouai.com/playground/translation/produce/get/fetchResult?fetchKey="@
}

/// The address at which the status of the job `key` is queried.
pub fn fetch_url(key: &str) -> (r: String)
    ensures
        r@ == fetch_prefix() + key@,
{
    let r = String::from_str(
        "https://miaoshouai.com/playground/translation/produce/get/fetchResult?fetchKey=",
    );
    r.concat(key)
}

/// The string literal in JSON for `s`.
pub uninterp spec fn json_quoted(s: Seq<char>) -> Seq<char>;

/// Relies on `From<&str> for serde_json::Value` and `Display for Value`:
/// the result is `s` written as a JSON string, quoted and escaped.
#[verifier::external_body]
fn quote(s: &str) -> (r: String)
    ensures
        r@ == json_quoted(s@),
{
    serde_json::Value::from(s).to_string()
}

/// The fixed generation settings that every request carries.
pub open spec fn settings() -> Seq<char> {
    ",\"width\":512,\"height\":512,\"batch_size\":1,\"num_inference_steps\":20,\"sampler\":\"Euler a\",\"seed\":-1,\"cfg_scale\":7}"@
}

/// The submission body, from its string fields already written as JSON
/// literals.
pub open spec fn body_of(key: Seq<char>, model: Seq<char>, pos: Seq<char>, neg: Seq<char>) -> Seq<char> {
    "{\"apiKey\":"@ + key + ",\"model_id\":"@ + model + ",\"prompt\":"@ + pos
        + ",\"negative_prompt\":"@ + neg + settings()
}

/// Assembles the submission body from its string fields already written as
/// JSON literals.
pub fn body_from_quoted(key: &str, model: &str, pos: &str, neg: &str) -> (r: String)
    ensures
        r@ == body_of(key@, model@, pos@, neg@),
{
    let r = String::from_str("{\"apiKey\":");
    let r = r.concat(key);
    let r = r.concat(",\"model_id\":");
    let r = r.concat(model);
    let r = r.concat(",\"prompt\":");
    let r = r.concat(pos);
    let r = r.concat(",\"negative_prompt\":");
    let r = r.concat(neg);
    r.concat(
        ",\"width\":512,\"height\":512,\"batch_size\":1,\"num_inference_steps\":20,\"sampler\":\"Euler a\",\"seed\":-1,\"cfg_scale\":7}",
    )
}

/// The JSON body that submits `req` with the credential `api_key`.
pub fn request_body(api_key: &str, req: &GenerationRequest) -> (r: String)
    ensures
        r@ == body_of(
            json_quoted(api_key@),
            json_quoted(req.model_id@),
            json_quoted(req.positive_prompt@),
            json_quoted(req.negative_prompt@),
        ),
{
    let k = quote(api_key);
    let m = quote(req.model_id.as_str());
    let p = quote(req.positive_prompt.as_str());
    let n = quote(req.negative_prompt.as_str());
    body_from_quoted(k.as_str(), m.as_str(), p.as_str(), n.as_str())
}

pub open spec fn fetch_key_pointer() -> Seq<char> {
    "/data/fetchKey"@
}

/// The job handle, given what the lookup of `data.fetchKey` found.
pub fn job_handle_from(found: Result<Option<String>, serde_json::Error>) -> (r: Result<String, JobError>)
    ensures
        found is Err <==> r == Err::<String, JobError>(JobError::Parse),
        found matches Ok(o) ==> (match o {
            Some(k) => r matches Ok(h) && h@ == k@,
            None => r == Err::<String, JobError>(JobError::MissingFetchKey),
        }),
{
    match found {
        Err(_) => Err(JobError::Parse),
        Ok(Some(k)) => Ok(k),
        Ok(None) => Err(JobError::MissingFetchKey),
    }
}

/// The job handle in the service's answer to a submission.
pub fn fetch_key_of(response: &str) -> (r: Result<String, JobError>)
    ensures
        !json_parses(response@) <==> r == Err::<String, JobError>(JobError::Parse),
        json_parses(response@) ==> (match json_str_at(response@, fetch_key_pointer()) {
            Some(k) => r matches Ok(h) && h@ == k,
            None => r == Err::<String, JobError>(JobError::MissingFetchKey),
        }),
{
    let found = lookup_str(response, "/data/fetchKey");
    job_handle_from(found)
}

} // verus!
