//! Reference names, as the object-model library reads them.
//!
//! The rules by which a full reference name is valid, and the list of
//! prefixes that shortening strips, are those of gix. They are not written
//! out again here: the two results have names, and one wrapper, believed
//! and not proved, says that the call gives them.

use vstd::prelude::*;
use crate::metadata::heads_namespace;

verus! {

/// The error with which gix refuses a reference name. Nothing is known of
/// what it holds.
#[verifier::external_type_specification]
#[verifier::external_body]
pub struct ExReferenceNameError(gix::validate::reference::name::Error);

/// Whether `gix::validate::reference::name` accepts `name` as the full name
/// of a reference.
pub uninterp spec fn is_reference_name(name: Seq<char>) -> bool;

/// What `gix::refs::FullNameRef::shorten` makes of the full reference name
/// `name`: the name without the well-known prefix it starts with, or the
/// name itself if it starts with none.
pub uninterp spec fn shortened_reference(name: Seq<char>) -> Seq<char>;

/// Reads `name` as a full reference name and shortens it.
///
/// Trusted, not proved. The body converts `name` with gix's `TryFrom<&str>`
/// for `&FullNameRef`, which validates it by `gix::validate::reference::name`
/// and fails on a name that this refuses, and then calls
/// `FullNameRef::shorten`. The contract claims that the call succeeds on
/// the valid names and on no others, that its result is the shortened name,
/// and one fact of shortening that the source shows: `refs/heads/` is among
/// the prefixes that it strips, and no other prefix of its list starts a
/// name that starts with `refs/heads/`.
#[verifier::external_body]
pub(crate) fn shorten_reference(name: &str) -> (short: Result<
    String,
    gix::validate::reference::name::Error,
>)
    ensures
        short is Ok <==> is_reference_name(name@),
        short matches Ok(text) ==> text@ == shortened_reference(name@),
        short matches Ok(text) ==> (heads_namespace().is_prefix_of(name@) ==> text@ == name@.skip(
            heads_namespace().len() as int,
        )),
{
    let full: &gix::refs::FullNameRef = name.try_into()?;
    Ok(full.shorten().to_string())
}

} // verus!
