//! The xDS target of a channel.

use vstd::prelude::*;

verus! {

/// What every xDS target URI without an authority begins with.
pub const XDS_PREFIX: &'static str = "xds:///";

/// Why a text is no xDS target URI.
#[derive(Debug)]
pub enum XdsUriError {
    /// The text does not begin with `xds:///`.
    NotXds,
    /// Nothing follows `xds:///`.
    MissingTarget,
}

/// An xDS target URI, `xds:///` and the target.
#[derive(Debug)]
pub struct XdsUri {
    /// The endpoint that the channel connects to: the name of its listener and the
    /// authority that its requests are routed by.
    pub target: String,
}

/// Whether `text` begins with `prefix`.
pub open spec fn starts_with(text: Seq<char>, prefix: Seq<char>) -> bool {
    prefix.len() <= text.len() && text.take(prefix.len() as int) == prefix
}

impl XdsUri {
    /// The URI as text.
    pub open spec fn text(self) -> Seq<char> {
        XDS_PREFIX@ + self.target@
    }

    /// Reads `xds:///` followed by a target.
    pub fn parse(uri: &str) -> (r: Result<Self, XdsUriError>)
        ensures
            match r {
                Ok(parsed) => parsed.text() == uri@ && parsed.target@.len() > 0,
                Err(XdsUriError::NotXds) => !starts_with(uri@, XDS_PREFIX@),
                Err(XdsUriError::MissingTarget) => uri@ == XDS_PREFIX@,
            },
    {
        let len = uri.unicode_len();
        let prefix_len = XDS_PREFIX.unicode_len();
        if len < prefix_len {
            return Err(XdsUriError::NotXds);
        }
        let prefix = uri.substring_char(0, prefix_len).to_owned();
        if prefix != XDS_PREFIX.to_owned() {
            return Err(XdsUriError::NotXds);
        }
        if len == prefix_len {
            assert(uri@ == XDS_PREFIX@);
            return Err(XdsUriError::MissingTarget);
        }
        let target = uri.substring_char(prefix_len, len).to_owned();
        assert(uri@ == XDS_PREFIX@ + target@);
        Ok(XdsUri { target })
    }

    /// The URI as text: `xds:///` and the target.
    pub fn to_string(&self) -> (r: String)
        ensures
            r@ == self.text(),
    {
        XDS_PREFIX.to_owned().concat(self.target.as_str())
    }
}

impl Clone for XdsUri {
    fn clone(&self) -> (r: Self)
        ensures
            r == *self,
    {
        XdsUri { target: self.target.clone() }
    }
}

/// What is read is what was written: parsing the text of a URI with a target succeeds,
/// and gives that target.
pub proof fn law_text_round_trip(
    uri: XdsUri,
    written: String,
    read: &str,
    parsed: Result<XdsUri, XdsUriError>,
)
    requires
        uri.target@.len() > 0,
        call_ensures(XdsUri::to_string, (&uri,), written),
        read@ == written@,
        call_ensures(XdsUri::parse, (read,), parsed),
    ensures
        parsed is Ok,
        parsed->Ok_0.target@ == uri.target@,
{
    let n = XDS_PREFIX@.len() as int;
    assert(uri.text().take(n) == XDS_PREFIX@);
    assert(uri.text().skip(n) == uri.target@);
    if parsed is Ok {
        assert(parsed->Ok_0.text().skip(n) == parsed->Ok_0.target@);
    }
}

} // verus!
