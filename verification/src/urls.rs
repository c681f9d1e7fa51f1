//! The parts of a parsed URL that the link logic reads.
use vstd::prelude::*;
use vstd::utf8::{decode_utf8, encode_utf8, valid_utf8};

verus! {

/// The parts of a URL as the `url` crate reports them: scheme, user name,
/// host text, explicit port, raw query, decoded query pairs in order, and
/// the raw fragment.
pub struct UrlParts {
    pub scheme: String,
    pub username: String,
    pub host: Option<String>,
    pub port: Option<u16>,
    pub query: Option<String>,
    pub query_pairs: Vec<(String, String)>,
    pub fragment: Option<String>,
}

/// The model of `UrlParts`.
pub ghost struct UrlPartsV {
    pub scheme: Seq<char>,
    pub username: Seq<char>,
    pub host: Option<Seq<char>>,
    pub port: Option<u16>,
    pub query: Option<Seq<char>>,
    pub query_pairs: Seq<(Seq<char>, Seq<char>)>,
    pub fragment: Option<Seq<char>>,
}

pub open spec fn opt_view(o: Option<String>) -> Option<Seq<char>> {
    match o {
        Some(s) => Some(s@),
        None => None,
    }
}

pub open spec fn pairs_view(ps: Seq<(String, String)>) -> Seq<(Seq<char>, Seq<char>)> {
    ps.map_values(|p: (String, String)| (p.0@, p.1@))
}

impl View for UrlParts {
    type V = UrlPartsV;

    open spec fn view(&self) -> UrlPartsV {
        UrlPartsV {
            scheme: self.scheme@,
            username: self.username@,
            host: opt_view(self.host),
            port: self.port,
            query: opt_view(self.query),
            query_pairs: pairs_view(self.query_pairs@),
            fragment: opt_view(self.fragment),
        }
    }
}

/// What `url::Url::parse` makes of a text, read through `scheme`, `username`,
/// `host_str`, `port`, `query`, `query_pairs` and `fragment`; or the text of
/// its `ParseError`.
pub uninterp spec fn url_parse(input: Seq<char>) -> Result<UrlPartsV, Seq<char>>;

/// `url::Url::parse(input)`, read into `UrlParts`. The contract says only
/// that the outcome is `url_parse(input)`: the URL grammar is the `url`
/// crate's and is not restated here.
#[verifier::external_body]
pub(crate) fn parse_url(input: &str) -> (r: Result<UrlParts, String>)
    ensures
        match r {
            Ok(u) => url_parse(input@) == Ok::<UrlPartsV, Seq<char>>(u@),
            Err(e) => url_parse(input@) == Err::<UrlPartsV, Seq<char>>(e@),
        },
{
    match url::Url::parse(input) {
        Ok(u) => Ok(UrlParts {
            scheme: u.scheme().to_string(),
            username: u.username().to_string(),
            host: u.host_str().map(|h| h.to_string()),
            port: u.port(),
            query: u.query().map(|q| q.to_string()),
            query_pairs: u.query_pairs().into_owned().collect(),
            fragment: u.fragment().map(|f| f.to_string()),
        }),
        Err(e) => Err(e.to_string()),
    }
}

/// The value of an ASCII hexadecimal digit.
pub open spec fn hex_value(b: u8) -> Option<u8> {
    if 48 <= b <= 57 {
        Some((b - 48) as u8)
    } else if 65 <= b <= 70 {
        Some((b - 55) as u8)
    } else if 97 <= b <= 102 {
        Some((b - 87) as u8)
    } else {
        None
    }
}

/// Percent-decoding of bytes as `urlencoding::decode_binary` does it: `%`
/// followed by two hexadecimal digits is the byte they spell; every other
/// byte, a `%` without two digits after it included, stays as it is.
pub open spec fn percent_decode_bytes(b: Seq<u8>) -> Seq<u8>
    decreases b.len(),
{
    if b.len() == 0 {
        Seq::empty()
    } else if b[0] == 37 && b.len() >= 3 && hex_value(b[1]) is Some && hex_value(b[2]) is Some {
        seq![(hex_value(b[1])->0 * 16 + hex_value(b[2])->0) as u8] + percent_decode_bytes(b.skip(3))
    } else {
        seq![b[0]] + percent_decode_bytes(b.skip(1))
    }
}

/// Percent-decoding never lengthens the bytes, leaves bytes without `%` as
/// they are, and turns a `%` with two hexadecimal digits into the one byte
/// they spell, decoding the rest after it.
pub proof fn law_percent_decode_bytes(b: Seq<u8>)
    ensures
        percent_decode_bytes(b).len() <= b.len(),
        (forall|i: int| 0 <= i < b.len() ==> #[trigger] b[i] != 37u8) ==> percent_decode_bytes(b) == b,
        b.len() >= 3 && b[0] == 37u8 && hex_value(b[1]) is Some && hex_value(b[2]) is Some ==> percent_decode_bytes(
            b,
        ) == seq![(hex_value(b[1])->0 * 16 + hex_value(b[2])->0) as u8] + percent_decode_bytes(b.skip(3)),
    decreases b.len(),
{
    if b.len() > 0 {
        if b[0] == 37 && b.len() >= 3 && hex_value(b[1]) is Some && hex_value(b[2]) is Some {
            law_percent_decode_bytes(b.skip(3));
        } else {
            law_percent_decode_bytes(b.skip(1));
            if forall|i: int| 0 <= i < b.len() ==> #[trigger] b[i] != 37u8 {
                assert forall|i: int| 0 <= i < b.skip(1).len() implies #[trigger] b.skip(1)[i] != 37u8 by {
                    assert(b.skip(1)[i] == b[i + 1]);
                }
                assert(seq![b[0]] + b.skip(1) =~= b);
            }
        }
    }
}

/// What `urlencoding::decode` makes of a text: the percent-decoded UTF-8
/// bytes of the text read as UTF-8, or nothing when they are not UTF-8.
pub open spec fn percent_decoded(input: Seq<char>) -> Option<Seq<char>> {
    let b = percent_decode_bytes(encode_utf8(input));
    if valid_utf8(b) {
        Some(decode_utf8(b))
    } else {
        None
    }
}

/// `urlencoding::decode(input)`, with its error dropped; the crate does the
/// decoding, and the contract states what it computes.
#[verifier::external_body]
pub(crate) fn percent_decode(input: &str) -> (r: Option<String>)
    ensures
        opt_view(r) == percent_decoded(input@),
{
    urlencoding::decode(input).ok().map(|c| c.into_owned())
}

} // verus!
