//! The address of the relay.

use vstd::prelude::*;

verus! {

/// The error of the `http` crate.
#[verifier::external_type_specification]
#[verifier::external_body]
pub struct ExHttpError(http::Error);

/// What the builder of `http` makes of a scheme, an authority and a path
/// with query: the text of the URI, or nothing where they make no URI.
pub uninterp spec fn built_uri(scheme: Seq<char>, authority: Seq<char>, path_and_query: Seq<char>) -> Option<Seq<char>>;

/// Calls `Uri::builder` of `http` with the three parts, then `build`, and
/// writes the URI out as text. The parts decide the result.
#[verifier::external_body]
fn build_uri(scheme: &str, authority: &str, path_and_query: &str) -> (built: Result<
    String,
    http::Error,
>)
    ensures
        match built {
            Ok(uri) => built_uri(scheme@, authority@, path_and_query@) == Some(uri@),
            Err(_) => built_uri(scheme@, authority@, path_and_query@).is_none(),
        },
{
    match http::Uri::builder().scheme(scheme).authority(authority).path_and_query(
        path_and_query,
    ).build() {
        Ok(uri) => Ok(uri.to_string()),
        Err(error) => Err(error),
    }
}

/// Why an address is no address.
#[derive(Clone, Copy, Debug, PartialEq, Eq, Structural)]
pub enum UriError {
    /// The authority is not the host and port of a URI.
    Invalid,
}

/// The scheme of the relay's address.
pub open spec fn scheme_of(secure: bool) -> Seq<char> {
    if secure {
        "wss"@
    } else {
        "ws"@
    }
}

/// The URI of the relay at `authority`: a websocket, secured or not, at the
/// root path.
pub fn create_uri(authority: &str, secure: bool) -> (uri: Result<String, UriError>)
    ensures
        match uri {
            Ok(text) => built_uri(scheme_of(secure), authority@, "/"@) == Some(text@),
            Err(error) => built_uri(scheme_of(secure), authority@, "/"@).is_none(),
        },
{
    let scheme = if secure {
        "wss"
    } else {
        "ws"
    };
    match build_uri(scheme, authority, "/") {
        Ok(text) => Ok(text),
        Err(_) => Err(UriError::Invalid),
    }
}

} // verus!
