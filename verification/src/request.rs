//! The request builder: accumulates a method, a path, ordered query
//! parameters, an optional field selection, and an endpoint-level
//! authentication requirement. Builder operations are chainable and
//! side-effect-free; the actual transport is the caller's concern, fed by
//! `url` and the accumulated parameters.

use vstd::prelude::*;

use crate::error::WattpadError;
use crate::field::join_serialized;
use crate::field::wires_of;
use crate::field::AuthRequiredFields;
use crate::field::DefaultableFields;
use crate::field::WireSerialize;
use crate::gate;
use crate::gate::gate_refusal;
use crate::gate::selection_ungated;
use crate::wire::join_comma;
use crate::wire::join_sep;

verus! {

/// The HTTP method of an outbound request.
#[derive(Debug, Clone, Copy, PartialEq, Eq, Structural)]
pub enum HttpMethod {
    Get,
    Post,
}

/// An outbound API request under construction.
#[derive(Debug)]
pub struct WattpadRequestBuilder {
    /// The HTTP method to use.
    pub method: HttpMethod,
    /// The path below the API host, beginning with a slash.
    pub path: String,
    /// The query parameters, in the order they were added.
    pub params: Vec<(String, String)>,
    /// Whether the whole endpoint requires authentication, checked against
    /// the authentication state when the request is about to be issued.
    pub auth_required: bool,
}

/// The value of one query parameter pair on the wire: `key=value`.
pub open spec fn query_pair(p: (Seq<char>, Seq<char>)) -> Seq<char> {
    p.0 + "="@ + p.1
}

/// `e` is the pre-flight error reporting that the endpoint at `path`
/// requires authentication.
pub open spec fn is_endpoint_auth_error(e: WattpadError, path: Seq<char>) -> bool {
    e matches WattpadError::AuthenticationRequired { field, context } && field@ == "Endpoint"@
        && context@ == "The endpoint at '"@ + path + "' requires authentication."@
}

/// What appending a field selection guarantees once the selection has been
/// resolved to `resolved`: under an authenticated client, or an ungated
/// selection, the builder gains exactly one `fields` parameter holding the
/// comma-joined wire forms; otherwise the first gated entry is reported and
/// the builder is consumed without effect.
pub open spec fn spec_fields_outcome<T: AuthRequiredFields + WireSerialize>(
    before: WattpadRequestBuilder,
    resolved: Seq<T>,
    is_authenticated: bool,
    r: Result<WattpadRequestBuilder, WattpadError>,
) -> bool {
    if is_authenticated || selection_ungated(resolved) {
        r matches Ok(b) && b.method == before.method && b.path == before.path
            && b.auth_required == before.auth_required && b.params_view()
            == before.params_view().push(("fields"@, join_comma(wires_of(resolved))))
    } else {
        r matches Err(e) && gate_refusal(resolved, e)
    }
}

/// The outcome of appending a field selection that fell back to the kind's
/// default selection.
pub open spec fn spec_default_fields_outcome<T: DefaultableFields + WireSerialize>(
    before: WattpadRequestBuilder,
    is_authenticated: bool,
    r: Result<WattpadRequestBuilder, WattpadError>,
) -> bool {
    exists|d: Seq<T>|
        T::is_default_selection(d) && #[trigger] spec_fields_outcome(
            before,
            d,
            is_authenticated,
            r,
        )
}

impl WattpadRequestBuilder {
    /// The accumulated query parameters as mathematical strings, in order.
    pub open spec fn params_view(self) -> Seq<(Seq<char>, Seq<char>)> {
        self.params@.map_values(|p: (String, String)| (p.0@, p.1@))
    }

    /// Creates a builder with no parameters and no endpoint-level
    /// authentication requirement.
    pub fn new(method: HttpMethod, path: &str) -> (r: Self)
        ensures
            r.method == method,
            r.path@ == path@,
            r.params_view() == Seq::<(Seq<char>, Seq<char>)>::empty(),
            r.auth_required == false,
    {
        let r = WattpadRequestBuilder {
            method,
            path: path.to_owned(),
            params: Vec::new(),
            auth_required: false,
        };
        proof {
            assert(r.params_view() =~= Seq::<(Seq<char>, Seq<char>)>::empty());
        }
        r
    }

    /// Marks the entire request as requiring authentication; checked at
    /// execution time by `check_endpoint_auth`, not at build time.
    pub fn requires_auth(self) -> (r: Self)
        ensures
            r.method == self.method,
            r.path == self.path,
            r.params == self.params,
            r.auth_required == true,
    {
        let mut b = self;
        b.auth_required = true;
        b
    }

    /// Adds `key=value` to the query parameters if a value is present;
    /// an absent value contributes nothing.
    pub fn param(self, key: &str, value: Option<String>) -> (r: Self)
        ensures
            r.method == self.method,
            r.path == self.path,
            r.auth_required == self.auth_required,
            value matches Some(v) ==> r.params_view() == self.params_view().push((key@, v@)),
            value is None ==> r.params == self.params,
    {
        match value {
            Some(v) => {
                let ghost gv = v@;
                let mut b = self;
                b.params.push((key.to_owned(), v));
                proof {
                    assert(b.params_view() =~= self.params_view().push((key@, gv)));
                }
                b
            },
            None => self,
        }
    }

    /// Adds a query parameter from an optional value, exactly as `param`
    /// does.
    pub fn maybe_param(self, key: &str, value: Option<String>) -> (r: Self)
        ensures
            r.method == self.method,
            r.path == self.path,
            r.auth_required == self.auth_required,
            value matches Some(v) ==> r.params_view() == self.params_view().push((key@, v@)),
            value is None ==> r.params == self.params,
    {
        self.param(key, value)
    }

    /// Gates an already-resolved field selection against the authentication
    /// state and, on success, appends the single `fields` parameter holding
    /// the comma-joined wire forms of its entries.
    pub fn fields_resolved<T: AuthRequiredFields + WireSerialize>(
        self,
        resolved: &Vec<T>,
        is_authenticated: bool,
    ) -> (r: Result<Self, WattpadError>)
        ensures
            spec_fields_outcome(self, resolved@, is_authenticated, r),
    {
        match gate::check(resolved, is_authenticated) {
            Ok(_) => {
                let joined = join_serialized(resolved);
                Ok(self.param("fields", Some(joined)))
            },
            Err(e) => Err(e),
        }
    }

    /// Resolves the caller's field selection (falling back to the kind's
    /// default when absent or empty), gates it, and appends the `fields`
    /// parameter. A gated selection under an unauthenticated client fails
    /// here, before any request exists to issue.
    pub fn fields<T: DefaultableFields + WireSerialize>(
        self,
        fields: Option<&Vec<T>>,
        is_authenticated: bool,
    ) -> (r: Result<Self, WattpadError>)
        ensures
            match fields {
                Some(f) => if f@.len() > 0 {
                    spec_fields_outcome(self, f@, is_authenticated, r)
                } else {
                    spec_default_fields_outcome::<T>(self, is_authenticated, r)
                },
                None => spec_default_fields_outcome::<T>(self, is_authenticated, r),
            },
    {
        match fields {
            Some(f) => {
                if f.len() > 0 {
                    self.fields_resolved(f, is_authenticated)
                } else {
                    let d = T::default_fields();
                    let r = self.fields_resolved(&d, is_authenticated);
                    proof {
                        assert(spec_fields_outcome(self, d@, is_authenticated, r));
                    }
                    r
                }
            },
            None => {
                let d = T::default_fields();
                let r = self.fields_resolved(&d, is_authenticated);
                proof {
                    assert(spec_fields_outcome(self, d@, is_authenticated, r));
                }
                r
            },
        }
    }

    /// Re-checks the endpoint-level authentication requirement: fails, with
    /// an error naming the endpoint path, exactly when the endpoint requires
    /// authentication and the client is not authenticated.
    pub fn check_endpoint_auth(&self, is_authenticated: bool) -> (r: Result<(), WattpadError>)
        ensures
            r is Ok <==> (!self.auth_required || is_authenticated),
            r matches Err(e) ==> is_endpoint_auth_error(e, self.path@),
    {
        if self.auth_required && !is_authenticated {
            let mut context = "The endpoint at '".to_owned();
            context.append(self.path.as_str());
            context.append("' requires authentication.");
            return Err(
                WattpadError::AuthenticationRequired { field: "Endpoint".to_owned(), context },
            );
        }
        Ok(())
    }

    /// The full URL of the request: the fixed API host followed by the path.
    pub fn url(&self) -> (r: String)
        ensures
            r@ == "https://www.wattpad.com"@ + self.path@,
    {
        let mut s = "https://www.wattpad.com".to_owned();
        s.append(self.path.as_str());
        s
    }

    /// The accumulated parameters rendered as a query string:
    /// `key=value` pairs joined with `&`, in insertion order.
    pub fn query_string(&self) -> (r: String)
        ensures
            r@ == join_sep(self.params_view().map_values(|p| query_pair(p)), "&"@),
    {
        let mut r = String::new();
        let mut i: usize = 0;
        while i < self.params.len()
            invariant
                i <= self.params.len(),
                r@ == join_sep(
                    self.params_view().take(i as int).map_values(|p| query_pair(p)),
                    "&"@,
                ),
            decreases self.params.len() - i,
        {
            if i > 0 {
                r.append("&");
            }
            r.append(self.params[i].0.as_str());
            r.append("=");
            r.append(self.params[i].1.as_str());
            proof {
                let w = self.params_view().take(i as int).map_values(|p| query_pair(p));
                let x = query_pair(self.params_view()[i as int]);
                assert(self.params_view().take(i as int + 1).map_values(|p| query_pair(p)) =~= w
                    .push(x));
                crate::wire::lemma_join_sep_push(w, "&"@, x);
                assert(r@ =~= join_sep(
                    self.params_view().take(i as int + 1).map_values(|p| query_pair(p)),
                    "&"@,
                ));
            }
            i += 1;
        }
        proof {
            assert(self.params_view().take(self.params_view().len() as int) =~= self.params_view());
        }
        r
    }
}

} // verus!
