//! Construction of the concrete API requests: fixed path templates
//! parameterized by an identifier, plus the resolved field selection.
//!
//! Each function here builds the complete, gated request description; issuing
//! it over HTTP and classifying the raw outcome are the caller's concern.

use vstd::prelude::*;

use crate::error::WattpadError;
use crate::field::wires_of;
use crate::field::AuthRequiredFields;
use crate::field::DefaultableFields;
use crate::field::WireSerialize;
use crate::gate::gate_refusal;
use crate::gate::selection_ungated;
use crate::request::spec_default_fields_outcome;
use crate::request::spec_fields_outcome;
use crate::request::HttpMethod;
use crate::request::WattpadRequestBuilder;
use crate::wire::join_comma;

pub mod story;
pub mod user;

verus! {

/// The outcome of constructing a GET request at `path` for the resolved
/// selection `resolved`: on success, a builder holding exactly the single
/// `fields` parameter with the comma-joined wire forms; otherwise a refusal
/// naming the first auth-required entry.
pub open spec fn spec_get_request<T: AuthRequiredFields + WireSerialize>(
    path: Seq<char>,
    resolved: Seq<T>,
    is_authenticated: bool,
    r: Result<WattpadRequestBuilder, WattpadError>,
) -> bool {
    if is_authenticated || selection_ungated(resolved) {
        r matches Ok(b) && b.method == HttpMethod::Get && b.path@ == path && b.auth_required
            == false && b.params_view() == seq![("fields"@, join_comma(wires_of(resolved)))]
    } else {
        r matches Err(e) && gate_refusal(resolved, e)
    }
}

/// The outcome of constructing a GET request at `path` when the field
/// selection fell back to the kind's default.
pub open spec fn spec_get_request_default<T: DefaultableFields + WireSerialize>(
    path: Seq<char>,
    is_authenticated: bool,
    r: Result<WattpadRequestBuilder, WattpadError>,
) -> bool {
    exists|d: Seq<T>|
        T::is_default_selection(d) && #[trigger] spec_get_request(path, d, is_authenticated, r)
}

/// A fresh builder that gained only a `fields` parameter is exactly the GET
/// request that `spec_get_request` describes.
pub proof fn lemma_get_request<T: AuthRequiredFields + WireSerialize>(
    b0: WattpadRequestBuilder,
    resolved: Seq<T>,
    is_authenticated: bool,
    r: Result<WattpadRequestBuilder, WattpadError>,
)
    requires
        spec_fields_outcome(b0, resolved, is_authenticated, r),
        b0.method == HttpMethod::Get,
        b0.auth_required == false,
        b0.params_view() == Seq::<(Seq<char>, Seq<char>)>::empty(),
    ensures
        spec_get_request(b0.path@, resolved, is_authenticated, r),
{
    if is_authenticated || selection_ungated(resolved) {
        let b = r->Ok_0;
        assert(b.params_view() =~= seq![("fields"@, join_comma(wires_of(resolved)))]);
    }
}

/// The default-selection counterpart of `lemma_get_request`.
pub proof fn lemma_get_request_default<T: DefaultableFields + WireSerialize>(
    b0: WattpadRequestBuilder,
    is_authenticated: bool,
    r: Result<WattpadRequestBuilder, WattpadError>,
)
    requires
        spec_default_fields_outcome::<T>(b0, is_authenticated, r),
        b0.method == HttpMethod::Get,
        b0.auth_required == false,
        b0.params_view() == Seq::<(Seq<char>, Seq<char>)>::empty(),
    ensures
        spec_get_request_default::<T>(b0.path@, is_authenticated, r),
{
    let d = choose|d: Seq<T>|
        T::is_default_selection(d) && #[trigger] spec_fields_outcome(
            b0,
            d,
            is_authenticated,
            r,
        );
    lemma_get_request(b0, d, is_authenticated, r);
    assert(spec_get_request(b0.path@, d, is_authenticated, r));
}

} // verus!
