//! The authentication gate: decides, before any network I/O, whether a field
//! selection is permitted under the current authentication state.
//!
//! Only the top-level entries of a selection are examined; a composite
//! field's nested sub-selection is a selection over another resource kind,
//! accepted here as-is and left to the remote API to police. This is a known
//! limitation, kept deliberately: gating is a fast-fail optimization, not a
//! security boundary.

use vstd::prelude::*;

use crate::error::WattpadError;
use crate::field::AuthRequiredFields;
use crate::field::WireSerialize;

verus! {

/// No top-level entry of the selection requires authentication.
pub open spec fn selection_ungated<T: AuthRequiredFields>(s: Seq<T>) -> bool {
    forall|i: int| 0 <= i < s.len() ==> !(#[trigger] s[i]).spec_auth_required()
}

/// `e` is the pre-flight error reporting the field whose wire form is `name`.
pub open spec fn is_field_auth_error(e: WattpadError, name: Seq<char>) -> bool {
    e matches WattpadError::AuthenticationRequired { field, context } && field@ == name
        && context@ == "The field '"@ + name + "' requires authentication."@
}

/// `e` reports the first auth-required entry of `s`: some gated entry with
/// only ungated entries before it, named by its wire form.
pub open spec fn gate_refusal<T: AuthRequiredFields + WireSerialize>(
    s: Seq<T>,
    e: WattpadError,
) -> bool {
    exists|i: int|
        {
            &&& 0 <= i < s.len()
            &&& (#[trigger] s[i]).spec_auth_required()
            &&& selection_ungated(s.take(i))
            &&& is_field_auth_error(e, s[i].wire())
        }
}

/// Decides whether `selection` may be requested when the client's
/// authentication state is `is_authenticated`: an authenticated client may
/// request anything; an unauthenticated one is refused exactly when some
/// top-level entry requires authentication, and the first such entry, in
/// selection order, is the one reported.
pub fn check<T: AuthRequiredFields + WireSerialize>(
    selection: &Vec<T>,
    is_authenticated: bool,
) -> (r: Result<(), WattpadError>)
    ensures
        r is Ok <==> (is_authenticated || selection_ungated(selection@)),
        r matches Err(e) ==> !is_authenticated && gate_refusal(selection@, e),
{
    if is_authenticated {
        return Ok(());
    }
    let mut i: usize = 0;
    while i < selection.len()
        invariant
            !is_authenticated,
            i <= selection.len(),
            selection_ungated(selection@.take(i as int)),
        decreases selection.len() - i,
    {
        if selection[i].auth_required() {
            let name = selection[i].serialize();
            let mut context = "The field '".to_owned();
            context.append(name.as_str());
            context.append("' requires authentication.");
            let e = WattpadError::AuthenticationRequired { field: name, context };
            proof {
                let j = i as int;
                assert(selection@[j].spec_auth_required());
                assert(selection_ungated(selection@.take(j)));
                assert(is_field_auth_error(e, selection@[j].wire()));
                assert(gate_refusal(selection@, e));
                assert(!selection_ungated(selection@));
            }
            return Err(e);
        }
        proof {
            assert(selection@.take(i as int + 1) =~= selection@.take(i as int).push(
                selection@[i as int],
            ));
        }
        i += 1;
    }
    proof {
        assert(selection@.take(selection@.len() as int) =~= selection@);
    }
    Ok(())
}

} // verus!
