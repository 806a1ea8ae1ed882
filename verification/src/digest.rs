//! Content digests, as `<algorithm>:<encoded>`.

use vstd::prelude::*;
use crate::error::{Failure, ImageError};

verus! {

/// What a [`Digest`] says.
pub struct DigestView {
    pub algorithm: Seq<char>,
    pub value: Seq<char>,
}

/// A character of an algorithm component: a lower-case letter or a digit.
pub open spec fn is_component_char(c: char) -> bool {
    ('a' <= c && c <= 'z') || ('0' <= c && c <= '9')
}

/// A character that separates the components of an algorithm.
pub open spec fn is_separator(c: char) -> bool {
    c == '+' || c == '.' || c == '_' || c == '-'
}

/// A character of an encoded value: a letter, a digit, or one of `=`, `_`, `-`.
pub open spec fn is_encoded_char(c: char) -> bool {
    is_component_char(c) || ('A' <= c && c <= 'Z') || c == '=' || c == '_' || c == '-'
}

/// A lower-case hexadecimal digit.
pub open spec fn is_lower_hex(c: char) -> bool {
    ('0' <= c && c <= '9') || ('a' <= c && c <= 'f')
}

/// An algorithm is one or more non-empty components of lower-case letters
/// and digits, with one separator between neighbours.
pub open spec fn is_algorithm(a: Seq<char>) -> bool {
    &&& a.len() > 0
    &&& forall|i: int| 0 <= i < a.len() ==> is_component_char(#[trigger] a[i]) || is_separator(a[i])
    &&& !is_separator(a[0])
    &&& !is_separator(a.last())
    &&& forall|i: int| 0 <= i < a.len() - 1 ==> !(is_separator(#[trigger] a[i]) && is_separator(a[i + 1]))
}

/// An encoded value is one or more encoded characters.
pub open spec fn is_encoded(v: Seq<char>) -> bool {
    &&& v.len() > 0
    &&& forall|i: int| 0 <= i < v.len() ==> is_encoded_char(#[trigger] v[i])
}

/// The number of hexadecimal digits that an algorithm of the SHA family
/// asks for; no other algorithm fixes a length.
pub open spec fn hex_len(algorithm: Seq<char>) -> Option<nat> {
    if algorithm == "sha256"@ {
        Some(64)
    } else if algorithm == "sha384"@ {
        Some(96)
    } else if algorithm == "sha512"@ {
        Some(128)
    } else {
        None
    }
}

/// Whether a value has the form that its algorithm asks for.
pub open spec fn fits_algorithm(algorithm: Seq<char>, value: Seq<char>) -> bool {
    match hex_len(algorithm) {
        Some(n) => value.len() == n && forall|i: int|
            0 <= i < value.len() ==> is_lower_hex(#[trigger] value[i]),
        None => true,
    }
}

/// The digest that a text denotes, if it denotes one: the text is cut at its
/// first colon into the algorithm and the value.
pub open spec fn digest_spec(s: Seq<char>) -> Option<DigestView> {
    match s.index_of_first(':') {
        None => None,
        Some(i) => {
            let algorithm = s.take(i);
            let value = s.skip(i + 1);
            if is_algorithm(algorithm) && is_encoded(value) && fits_algorithm(algorithm, value) {
                Some(DigestView { algorithm, value })
            } else {
                None
            }
        },
    }
}

#[verifier::external_type_specification]
#[verifier::external_body]
pub struct ExOciSpecError(containers_image_proxy::oci_spec::OciSpecError);

/// `oci_spec::image::Digest::from_str`, with the algorithm and the value of
/// the digest it returns. It accepts exactly the texts with a colon whose
/// part before the first colon is an algorithm and whose part behind it is an
/// encoded value, of 64, 96 or 128 lower-case hexadecimal digits where the
/// algorithm is `sha256`, `sha384` or `sha512`.
#[verifier::external_body]
fn oci_digest(text: &str) -> (r: Result<
    (String, String),
    containers_image_proxy::oci_spec::OciSpecError,
>)
    ensures
        r is Ok <==> digest_spec(text@) is Some,
        r matches Ok(parts) ==> digest_spec(text@) == Some(
            DigestView { algorithm: parts.0@, value: parts.1@ },
        ),
{
    let d = text.parse::<containers_image_proxy::oci_spec::image::Digest>()?;
    Ok((d.algorithm().to_string(), d.digest().to_string()))
}

/// A content digest: the algorithm and the encoded hash.
#[derive(Debug, PartialEq, Eq)]
pub struct Digest {
    algorithm: String,
    value: String,
}

impl View for Digest {
    type V = DigestView;

    closed spec fn view(&self) -> DigestView {
        DigestView { algorithm: self.algorithm@, value: self.value@ }
    }
}

impl Digest {
    /// Reads a digest from its text.
    pub(crate) fn parse(text: &str) -> (r: Result<Digest, ImageError>)
        ensures
            match digest_spec(text@) {
                Some(v) => r matches Ok(d) && d@ == v,
                None => r matches Err(e) && e@ == Failure::DigestParse(text@),
            },
    {
        match oci_digest(text) {
            Ok(parts) => Ok(Digest { algorithm: parts.0, value: parts.1 }),
            Err(_) => Err(ImageError::DigestParse(text.to_owned())),
        }
    }

    /// The algorithm, such as `sha256`.
    pub fn algorithm(&self) -> (r: &str)
        ensures
            r@ == self@.algorithm,
    {
        self.algorithm.as_str()
    }

    /// The encoded hash.
    pub fn value(&self) -> (r: &str)
        ensures
            r@ == self@.value,
    {
        self.value.as_str()
    }
}

} // verus!
