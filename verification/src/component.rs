//! The operations of the Glyphic component, up to the point where the request
//! is sent: each validates its input, picks the endpoint and prepares the
//! authenticated request, or says which interface error the call ends with.
//! The outcome of sending is mapped with the `map_http_error_to_*` functions.

use vstd::prelude::*;
use crate::endpoints::{
    api_base_url, build_call_bots_endpoint_url, build_call_by_id_endpoint_url,
    build_call_media_endpoint_url, build_call_snippets_endpoint_url, build_call_tags_endpoint_url,
    build_calls_endpoint_url, build_ping_endpoint_url, build_playbook_by_id_endpoint_url,
    build_playbook_version_by_id_endpoint_url, build_playbook_versions_endpoint_url,
    build_playbooks_endpoint_url,
};
use crate::errors::{
    map_http_error_to_auth_error, map_http_error_to_join_call_error,
    map_http_error_to_query_error, map_http_error_to_resource_error, AuthError, JoinCallError,
    QueryError, ResourceError,
};
use crate::query::{build_query_string_from_json_parameters, query_string};
use crate::requests::{
    request_refusal, is_get_request, is_post_request,
    prepare_authenticated_get_request, prepare_authenticated_post_request, OutgoingRequest,
};
use crate::text::{contains_seq, trim};
use crate::validation::{
    empty_body_message, identifier_error_message, is_blank_object,
    is_valid_identifier, meeting_url_key, missing_meeting_url_message,
    validate_hexadecimal_identifier_format, validate_join_call_request_body,
};

verus! {

/// How an operation with `AuthError`s refuses a request that may not be sent:
/// unauthorized when the key is blank, unknown otherwise, with the refusal's message.
pub open spec fn is_auth_refusal(e: AuthError, api_key: Seq<char>, url: Seq<char>) -> bool {
    &&& (if trim(api_key).len() == 0 {
        e is Unauthorized
    } else {
        e is Unknown
    })
    &&& request_refusal(api_key, url) == Some(e.inner()@)
}

/// How an operation with `QueryError`s refuses a request that may not be sent:
/// unauthorized when the key is blank, unknown otherwise, with the refusal's message.
pub open spec fn is_query_refusal(e: QueryError, api_key: Seq<char>, url: Seq<char>) -> bool {
    &&& (if trim(api_key).len() == 0 {
        e is Unauthorized
    } else {
        e is Unknown
    })
    &&& request_refusal(api_key, url) == Some(e.inner()@)
}

/// How an operation with `ResourceError`s refuses a request that may not be sent:
/// unauthorized when the key is blank, unknown otherwise, with the refusal's message.
pub open spec fn is_resource_refusal(e: ResourceError, api_key: Seq<char>, url: Seq<char>) -> bool {
    &&& (if trim(api_key).len() == 0 {
        e is Unauthorized
    } else {
        e is Unknown
    })
    &&& request_refusal(api_key, url) == Some(e.inner()@)
}

/// How an operation with `JoinCallError`s refuses a request that may not be sent:
/// unauthorized when the key is blank, unknown otherwise, with the refusal's message.
pub open spec fn is_join_call_refusal(e: JoinCallError, api_key: Seq<char>, url: Seq<char>) -> bool {
    &&& (if trim(api_key).len() == 0 {
        e is Unauthorized
    } else {
        e is Unknown
    })
    &&& request_refusal(api_key, url) == Some(e.inner()@)
}

/// The outcome of an operation on one resource: a GET of `url` once the
/// identifier and the key are accepted, else the validation or key error.
pub open spec fn resource_outcome(
    res: Result<OutgoingRequest, ResourceError>,
    api_key: Seq<char>,
    id: Seq<char>,
    field: Seq<char>,
    url: Seq<char>,
) -> bool {
    match res {
        Ok(r) => is_valid_identifier(id) && request_refusal(api_key, url) is None
            && is_get_request(r, url, api_key),
        Err(e) => if !is_valid_identifier(id) {
            e is Validation && e.inner()@ == identifier_error_message(id, field)
        } else {
            is_resource_refusal(e, api_key, url)
        },
    }
}

/// The Glyphic component.
pub struct Glyphic;

impl Glyphic {
    /// `test_ping`: GET `/test/ping`.
    pub fn prepare_test_ping(api_key: &str) -> (res: Result<OutgoingRequest, AuthError>)
        ensures
            match res {
                Ok(r) => request_refusal(api_key@, api_base_url() + "/test/ping"@) is None && is_get_request(
                    r,
                    api_base_url() + "/test/ping"@,
                    api_key@,
                ),
                Err(e) => is_auth_refusal(e, api_key@, api_base_url() + "/test/ping"@),
            },
    {
        match prepare_authenticated_get_request(api_key, build_ping_endpoint_url()) {
            Ok(r) => Ok(r),
            Err(e) => Err(map_http_error_to_auth_error(e)),
        }
    }

    /// `get_calls`: GET `/calls/` with the query string of the parameters.
    pub fn prepare_get_calls(api_key: &str, query_params: &str) -> (res: Result<
        OutgoingRequest,
        QueryError,
    >)
        ensures
            match res {
                Ok(r) => request_refusal(api_key@, api_base_url() + "/calls/"@ + query_string(query_params@)) is None && is_get_request(
                    r,
                    api_base_url() + "/calls/"@ + query_string(query_params@),
                    api_key@,
                ),
                Err(e) => is_query_refusal(e, api_key@, api_base_url() + "/calls/"@ + query_string(query_params@)),
            },
    {
        let query = match build_query_string_from_json_parameters(query_params) {
            Ok(q) => q,
            Err(m) => return Err(QueryError::Validation(m)),
        };
        match prepare_authenticated_get_request(api_key, build_calls_endpoint_url(query)) {
            Ok(r) => Ok(r),
            Err(e) => Err(map_http_error_to_query_error(e)),
        }
    }

    /// The GET of `url` for a resource whose identifier was checked.
    fn prepare_resource_request(api_key: &str, id: &str, field: &str, url: String) -> (res: Result<
        OutgoingRequest,
        ResourceError,
    >)
        ensures
            resource_outcome(res, api_key@, id@, field@, url@),
    {
        match validate_hexadecimal_identifier_format(id, field) {
            Ok(()) => {},
            Err(m) => return Err(ResourceError::Validation(m)),
        }
        match prepare_authenticated_get_request(api_key, url) {
            Ok(r) => Ok(r),
            Err(e) => Err(map_http_error_to_resource_error(e)),
        }
    }

    /// `get_call_by_id`: GET `/calls/{call_id}`.
    pub fn prepare_get_call_by_id(api_key: &str, call_id: &str) -> (res: Result<
        OutgoingRequest,
        ResourceError,
    >)
        ensures
            resource_outcome(
                res,
                api_key@,
                call_id@,
                "call_id"@,
                api_base_url() + "/calls/"@ + call_id@,
            ),
    {
        Self::prepare_resource_request(
            api_key,
            call_id,
            "call_id",
            build_call_by_id_endpoint_url(call_id),
        )
    }

    /// `get_call_media_by_id`: GET `/calls/{call_id}/media`.
    pub fn prepare_get_call_media_by_id(api_key: &str, call_id: &str) -> (res: Result<
        OutgoingRequest,
        ResourceError,
    >)
        ensures
            resource_outcome(
                res,
                api_key@,
                call_id@,
                "call_id"@,
                api_base_url() + "/calls/"@ + call_id@ + "/media"@,
            ),
    {
        Self::prepare_resource_request(
            api_key,
            call_id,
            "call_id",
            build_call_media_endpoint_url(call_id),
        )
    }

    /// `get_call_snippets_by_id`: GET `/calls/{call_id}/snippets`.
    pub fn prepare_get_call_snippets_by_id(api_key: &str, call_id: &str) -> (res: Result<
        OutgoingRequest,
        ResourceError,
    >)
        ensures
            resource_outcome(
                res,
                api_key@,
                call_id@,
                "call_id"@,
                api_base_url() + "/calls/"@ + call_id@ + "/snippets"@,
            ),
    {
        Self::prepare_resource_request(
            api_key,
            call_id,
            "call_id",
            build_call_snippets_endpoint_url(call_id),
        )
    }

    /// `join_call`: POST the body to `/call_bots` once it names a meeting URL.
    pub fn prepare_join_call(api_key: &str, request_body: String) -> (res: Result<
        OutgoingRequest,
        JoinCallError,
    >)
        ensures
            match res {
                Ok(r) => !is_blank_object(request_body@) && contains_seq(
                    trim(request_body@),
                    meeting_url_key(),
                ) && request_refusal(api_key@, api_base_url() + "/call_bots"@) is None && is_post_request(
                    r,
                    api_base_url() + "/call_bots"@,
                    api_key@,
                    request_body@,
                ),
                Err(e) => if is_blank_object(request_body@) {
                    e is Validation && e.inner()@ == empty_body_message()
                } else if !contains_seq(trim(request_body@), meeting_url_key()) {
                    e is Validation && e.inner()@ == missing_meeting_url_message()
                } else {
                    is_join_call_refusal(e, api_key@, api_base_url() + "/call_bots"@)
                },
            },
    {
        match validate_join_call_request_body(request_body.as_str()) {
            Ok(()) => {},
            Err(m) => return Err(JoinCallError::Validation(m)),
        }
        match prepare_authenticated_post_request(api_key, build_call_bots_endpoint_url(), request_body) {
            Ok(r) => Ok(r),
            Err(e) => Err(map_http_error_to_join_call_error(e)),
        }
    }

    /// `list_call_tags`: GET `/call_tags/`.
    pub fn prepare_list_call_tags(api_key: &str) -> (res: Result<OutgoingRequest, AuthError>)
        ensures
            match res {
                Ok(r) => request_refusal(api_key@, api_base_url() + "/call_tags/"@) is None && is_get_request(
                    r,
                    api_base_url() + "/call_tags/"@,
                    api_key@,
                ),
                Err(e) => is_auth_refusal(e, api_key@, api_base_url() + "/call_tags/"@),
            },
    {
        match prepare_authenticated_get_request(api_key, build_call_tags_endpoint_url()) {
            Ok(r) => Ok(r),
            Err(e) => Err(map_http_error_to_auth_error(e)),
        }
    }

    /// `list_playbooks`: GET `/playbooks/` with the query string of the parameters.
    pub fn prepare_list_playbooks(api_key: &str, query_params: &str) -> (res: Result<
        OutgoingRequest,
        QueryError,
    >)
        ensures
            match res {
                Ok(r) => request_refusal(api_key@, api_base_url() + "/playbooks/"@ + query_string(query_params@)) is None && is_get_request(
                    r,
                    api_base_url() + "/playbooks/"@ + query_string(query_params@),
                    api_key@,
                ),
                Err(e) => is_query_refusal(e, api_key@, api_base_url() + "/playbooks/"@ + query_string(query_params@)),
            },
    {
        let query = match build_query_string_from_json_parameters(query_params) {
            Ok(q) => q,
            Err(m) => return Err(QueryError::Validation(m)),
        };
        match prepare_authenticated_get_request(api_key, build_playbooks_endpoint_url(query)) {
            Ok(r) => Ok(r),
            Err(e) => Err(map_http_error_to_query_error(e)),
        }
    }

    /// `get_playbook_by_id`: GET `/playbooks/{playbook_id}`.
    pub fn prepare_get_playbook_by_id(api_key: &str, playbook_id: &str) -> (res: Result<
        OutgoingRequest,
        ResourceError,
    >)
        ensures
            resource_outcome(
                res,
                api_key@,
                playbook_id@,
                "playbook_id"@,
                api_base_url() + "/playbooks/"@ + playbook_id@,
            ),
    {
        Self::prepare_resource_request(
            api_key,
            playbook_id,
            "playbook_id",
            build_playbook_by_id_endpoint_url(playbook_id),
        )
    }

    /// `list_playbook_versions`: GET `/playbooks/{playbook_id}/versions`.
    pub fn prepare_list_playbook_versions(api_key: &str, playbook_id: &str) -> (res: Result<
        OutgoingRequest,
        ResourceError,
    >)
        ensures
            resource_outcome(
                res,
                api_key@,
                playbook_id@,
                "playbook_id"@,
                api_base_url() + "/playbooks/"@ + playbook_id@ + "/versions"@,
            ),
    {
        Self::prepare_resource_request(
            api_key,
            playbook_id,
            "playbook_id",
            build_playbook_versions_endpoint_url(playbook_id),
        )
    }

    /// `get_playbook_version_by_id`: GET `/playbooks/{playbook_id}/versions/{version_id}`,
    /// the playbook identifier checked before the version's.
    pub fn prepare_get_playbook_version_by_id(
        api_key: &str,
        playbook_id: &str,
        version_id: &str,
    ) -> (res: Result<OutgoingRequest, ResourceError>)
        ensures
            !is_valid_identifier(playbook_id@) ==> (res matches Err(e) && e is Validation
                && e.inner()@ == identifier_error_message(playbook_id@, "playbook_id"@)),
            is_valid_identifier(playbook_id@) ==> resource_outcome(
                res,
                api_key@,
                version_id@,
                "version_id"@,
                api_base_url() + "/playbooks/"@ + playbook_id@ + "/versions/"@ + version_id@,
            ),
    {
        match validate_hexadecimal_identifier_format(playbook_id, "playbook_id") {
            Ok(()) => {},
            Err(m) => return Err(ResourceError::Validation(m)),
        }
        Self::prepare_resource_request(
            api_key,
            version_id,
            "version_id",
            build_playbook_version_by_id_endpoint_url(playbook_id, version_id),
        )
    }
}

} // verus!
