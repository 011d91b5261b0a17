//! The URLs of the API's endpoints.

use vstd::prelude::*;

verus! {

/// The root of every endpoint URL.
pub open spec fn api_base_url() -> Seq<char> {
    "https://api.glyphic.ai/v1"@
}

/// A new string holding the base URL.
fn base_url() -> (res: String)
    ensures
        res@ == api_base_url(),
{
    String::from_str("https://api.glyphic.ai/v1")
}

/// The ping endpoint.
pub fn build_ping_endpoint_url() -> (res: String)
    ensures
        res@ == api_base_url() + "/test/ping"@,
{
    let mut url = base_url();
    url.append("/test/ping");
    url
}

/// The call listing endpoint, with the query string appended.
pub fn build_calls_endpoint_url(query_string: String) -> (res: String)
    ensures
        res@ == api_base_url() + "/calls/"@ + query_string@,
{
    let mut url = base_url();
    url.append("/calls/");
    url.append(query_string.as_str());
    url
}

/// The endpoint of one call.
pub fn build_call_by_id_endpoint_url(call_id: &str) -> (res: String)
    ensures
        res@ == api_base_url() + "/calls/"@ + call_id@,
{
    let mut url = base_url();
    url.append("/calls/");
    url.append(call_id);
    url
}

/// The media endpoint of one call.
pub fn build_call_media_endpoint_url(call_id: &str) -> (res: String)
    ensures
        res@ == api_base_url() + "/calls/"@ + call_id@ + "/media"@,
{
    let mut url = base_url();
    url.append("/calls/");
    url.append(call_id);
    url.append("/media");
    url
}

/// The snippets endpoint of one call.
pub fn build_call_snippets_endpoint_url(call_id: &str) -> (res: String)
    ensures
        res@ == api_base_url() + "/calls/"@ + call_id@ + "/snippets"@,
{
    let mut url = base_url();
    url.append("/calls/");
    url.append(call_id);
    url.append("/snippets");
    url
}

/// The endpoint that sends a bot to a call.
pub fn build_call_bots_endpoint_url() -> (res: String)
    ensures
        res@ == api_base_url() + "/call_bots"@,
{
    let mut url = base_url();
    url.append("/call_bots");
    url
}

/// The call tag listing endpoint.
pub fn build_call_tags_endpoint_url() -> (res: String)
    ensures
        res@ == api_base_url() + "/call_tags/"@,
{
    let mut url = base_url();
    url.append("/call_tags/");
    url
}

/// The playbook listing endpoint, with the query string appended.
pub fn build_playbooks_endpoint_url(query_string: String) -> (res: String)
    ensures
        res@ == api_base_url() + "/playbooks/"@ + query_string@,
{
    let mut url = base_url();
    url.append("/playbooks/");
    url.append(query_string.as_str());
    url
}

/// The endpoint of one playbook.
pub fn build_playbook_by_id_endpoint_url(playbook_id: &str) -> (res: String)
    ensures
        res@ == api_base_url() + "/playbooks/"@ + playbook_id@,
{
    let mut url = base_url();
    url.append("/playbooks/");
    url.append(playbook_id);
    url
}

/// The version listing endpoint of one playbook.
pub fn build_playbook_versions_endpoint_url(playbook_id: &str) -> (res: String)
    ensures
        res@ == api_base_url() + "/playbooks/"@ + playbook_id@ + "/versions"@,
{
    let mut url = base_url();
    url.append("/playbooks/");
    url.append(playbook_id);
    url.append("/versions");
    url
}

/// The endpoint of one version of one playbook.
pub fn build_playbook_version_by_id_endpoint_url(playbook_id: &str, version_id: &str) -> (res:
    String)
    ensures
        res@ == api_base_url() + "/playbooks/"@ + playbook_id@ + "/versions/"@ + version_id@,
{
    let mut url = base_url();
    url.append("/playbooks/");
    url.append(playbook_id);
    url.append("/versions/");
    url.append(version_id);
    url
}

} // verus!
