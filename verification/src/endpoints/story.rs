//! Requests for story-related endpoints: story and part information, and
//! part content in its raw, structured and archive forms.

use vstd::prelude::*;

use crate::endpoints::lemma_get_request;
use crate::endpoints::lemma_get_request_default;
use crate::endpoints::spec_get_request;
use crate::endpoints::spec_get_request_default;
use crate::error::WattpadError;
use crate::field::PartField;
use crate::field::StoryField;
use crate::request::HttpMethod;
use crate::request::WattpadRequestBuilder;
use crate::wire::dec_rep;
use crate::wire::u64_to_dec;

verus! {

/// The path of the story-info endpoint for `story_id`.
pub open spec fn story_info_path(story_id: u64) -> Seq<char> {
    "/api/v3/stories/"@ + dec_rep(story_id as int)
}

/// The path of the part-info endpoint for `part_id`.
pub open spec fn part_info_path(part_id: u64) -> Seq<char> {
    "/api/v3/story_parts/"@ + dec_rep(part_id as int)
}

/// Builds the GET request for detailed information about a story. The field
/// selection falls back to the story default when absent or empty; a
/// selection with an auth-required entry is refused here, before any request
/// exists to issue.
pub fn story_info_request(
    story_id: u64,
    fields: Option<&Vec<StoryField>>,
    is_authenticated: bool,
) -> (r: Result<WattpadRequestBuilder, WattpadError>)
    ensures
        match fields {
            Some(f) => if f@.len() > 0 {
                spec_get_request(story_info_path(story_id), f@, is_authenticated, r)
            } else {
                spec_get_request_default::<StoryField>(
                    story_info_path(story_id),
                    is_authenticated,
                    r,
                )
            },
            None => spec_get_request_default::<StoryField>(
                story_info_path(story_id),
                is_authenticated,
                r,
            ),
        },
{
    let mut path = "/api/v3/stories/".to_owned();
    let id_str = u64_to_dec(story_id);
    path.append(id_str.as_str());
    let b0 = WattpadRequestBuilder::new(HttpMethod::Get, path.as_str());
    let ghost gb0 = b0;
    let r = b0.fields(fields, is_authenticated);
    proof {
        match fields {
            Some(f) => {
                if f@.len() > 0 {
                    lemma_get_request(gb0, f@, is_authenticated, r);
                } else {
                    lemma_get_request_default::<StoryField>(gb0, is_authenticated, r);
                }
            },
            None => {
                lemma_get_request_default::<StoryField>(gb0, is_authenticated, r);
            },
        }
    }
    r
}

/// Builds the GET request for detailed information about a single story
/// part, with the same field-selection and gating behaviour as
/// `story_info_request`.
pub fn part_info_request(
    part_id: u64,
    fields: Option<&Vec<PartField>>,
    is_authenticated: bool,
) -> (r: Result<WattpadRequestBuilder, WattpadError>)
    ensures
        match fields {
            Some(f) => if f@.len() > 0 {
                spec_get_request(part_info_path(part_id), f@, is_authenticated, r)
            } else {
                spec_get_request_default::<PartField>(part_info_path(part_id), is_authenticated, r)
            },
            None => spec_get_request_default::<PartField>(
                part_info_path(part_id),
                is_authenticated,
                r,
            ),
        },
{
    let mut path = "/api/v3/story_parts/".to_owned();
    let id_str = u64_to_dec(part_id);
    path.append(id_str.as_str());
    let b0 = WattpadRequestBuilder::new(HttpMethod::Get, path.as_str());
    let ghost gb0 = b0;
    let r = b0.fields(fields, is_authenticated);
    proof {
        match fields {
            Some(f) => {
                if f@.len() > 0 {
                    lemma_get_request(gb0, f@, is_authenticated, r);
                } else {
                    lemma_get_request_default::<PartField>(gb0, is_authenticated, r);
                }
            },
            None => {
                lemma_get_request_default::<PartField>(gb0, is_authenticated, r);
            },
        }
    }
    r
}

/// Builds the GET request for the raw text content of a single story part.
pub fn part_content_raw_request(part_id: u64) -> (r: WattpadRequestBuilder)
    ensures
        r.method == HttpMethod::Get,
        r.path@ == "/apiv2/"@,
        r.auth_required == false,
        r.params_view() == seq![("m"@, "storytext"@), ("id"@, dec_rep(part_id as int))],
{
    let b = WattpadRequestBuilder::new(HttpMethod::Get, "/apiv2/").param(
        "m",
        Some("storytext".to_owned()),
    ).param("id", Some(u64_to_dec(part_id)));
    proof {
        assert(b.params_view() =~= seq![("m"@, "storytext"@), ("id"@, dec_rep(part_id as int))]);
    }
    b
}

/// Builds the GET request for the content of a story part as a structured
/// JSON object.
pub fn part_content_json_request(part_id: u64) -> (r: WattpadRequestBuilder)
    ensures
        r.method == HttpMethod::Get,
        r.path@ == "/apiv2/"@,
        r.auth_required == false,
        r.params_view() == seq![
            ("m"@, "storytext"@),
            ("id"@, dec_rep(part_id as int)),
            ("output"@, "json"@),
        ],
{
    let b = WattpadRequestBuilder::new(HttpMethod::Get, "/apiv2/").param(
        "m",
        Some("storytext".to_owned()),
    ).param("id", Some(u64_to_dec(part_id))).param("output", Some("json".to_owned()));
    proof {
        assert(b.params_view() =~= seq![
            ("m"@, "storytext"@),
            ("id"@, dec_rep(part_id as int)),
            ("output"@, "json"@),
        ]);
    }
    b
}

/// Builds the GET request for the text content of an entire story as a
/// single ZIP archive.
pub fn story_content_zip_request(story_id: u64) -> (r: WattpadRequestBuilder)
    ensures
        r.method == HttpMethod::Get,
        r.path@ == "/apiv2/"@,
        r.auth_required == false,
        r.params_view() == seq![
            ("m"@, "storytext"@),
            ("group_id"@, dec_rep(story_id as int)),
            ("output"@, "zip"@),
        ],
{
    let b = WattpadRequestBuilder::new(HttpMethod::Get, "/apiv2/").param(
        "m",
        Some("storytext".to_owned()),
    ).param("group_id", Some(u64_to_dec(story_id))).param("output", Some("zip".to_owned()));
    proof {
        assert(b.params_view() =~= seq![
            ("m"@, "storytext"@),
            ("group_id"@, dec_rep(story_id as int)),
            ("output"@, "zip"@),
        ]);
    }
    b
}

} // verus!
