//! Request targets as plain values.

use vstd::prelude::*;

use crate::text::{copy_optional, optional_text};

verus! {

/// The components of a URI.
///
/// A value is either absolute (it has a scheme and an authority), in authority
/// form (an authority alone) or in origin form (a path alone).
#[derive(Debug)]
pub struct Uri {
    scheme: Option<String>,
    authority: Option<String>,
    host: Option<String>,
    port: Option<u16>,
    path_and_query: Option<String>,
}

/// What a [`Uri`] stands for.
pub ghost struct UriView {
    pub scheme: Option<Seq<char>>,
    pub authority: Option<Seq<char>>,
    /// The host within the authority, with the brackets of an IPv6 literal.
    pub host: Option<Seq<char>>,
    /// The port that the authority names.
    pub port: Option<u16>,
    pub path_and_query: Option<Seq<char>>,
}

impl View for Uri {
    type V = UriView;

    closed spec fn view(&self) -> UriView {
        UriView {
            scheme: optional_text(self.scheme),
            authority: optional_text(self.authority),
            host: optional_text(self.host),
            port: self.port,
            path_and_query: optional_text(self.path_and_query),
        }
    }
}

impl UriView {
    /// What holds of the components of every URI.
    pub open spec fn wf(self) -> bool {
        &&& self.scheme is Some ==> self.authority is Some
        &&& self.host is Some <==> self.authority is Some
        &&& self.port is Some ==> self.authority is Some
        &&& self.path_and_query is Some <==> (self.scheme is Some || self.authority is None)
    }

    /// The URI as it is written: scheme, authority and path, each where there is one.
    pub open spec fn text(self) -> Seq<char> {
        (match self.scheme {
            Some(scheme) => scheme + "://"@,
            None => Seq::empty(),
        }) + (match self.authority {
            Some(authority) => authority,
            None => Seq::empty(),
        }) + (match self.path_and_query {
            Some(path) => path,
            None => Seq::empty(),
        })
    }

    /// The path alone, which an origin is asked for.
    pub open spec fn origin_form(self) -> UriView {
        UriView {
            scheme: None,
            authority: None,
            host: None,
            port: None,
            path_and_query: Some(
                match self.path_and_query {
                    Some(path) => path,
                    None => "/"@,
                },
            ),
        }
    }

    /// The authority alone, which a tunnel is asked for.
    pub open spec fn authority_form(self) -> UriView {
        UriView { scheme: None, path_and_query: None, ..self }
    }
}

/// What [`http::Uri`] makes of a text: its components, or nothing where the
/// text is not a URI.
pub uninterp spec fn parsed_uri(text: Seq<char>) -> Option<UriView>;

/// Calls `<http::Uri as FromStr>::from_str`, and `scheme_str`, `authority`,
/// `host`, `port_u16` and `path_and_query` on its result; the path is taken as it
/// is displayed, with the slash that an absolute URI may have left out.
///
/// Taken on trust: the components are a function of the text; a scheme never
/// stands without an authority; `host` and `port_u16` read the authority, and
/// `host` finds one wherever there is an authority; there is a path unless the
/// URI is an authority alone.
#[verifier::external_body]
fn parse_components(text: &str) -> (uri: Option<Uri>)
    ensures
        match uri {
            Some(uri) => parsed_uri(text@) == Some(uri@) && uri@.wf(),
            None => parsed_uri(text@) is None,
        },
{
    match text.parse::<http::Uri>() {
        Ok(uri) => Some(Uri {
            scheme: uri.scheme_str().map(str::to_owned),
            authority: uri.authority().map(|authority| authority.as_str().to_owned()),
            host: uri.host().map(str::to_owned),
            port: uri.port_u16(),
            path_and_query: uri.path_and_query().map(|path| path.to_string()),
        }),
        Err(_) => None,
    }
}

impl Uri {
    /// The components of a URI fit together.
    #[verifier::type_invariant]
    pub open spec fn well_formed(self) -> bool {
        self@.wf()
    }

    /// Reads the components of a URI. Returns `None` for a text that is not one.
    pub fn parse(text: &str) -> (uri: Option<Self>)
        ensures
            match uri {
                Some(uri) => parsed_uri(text@) == Some(uri@) && uri@.wf(),
                None => parsed_uri(text@) is None,
            },
    {
        parse_components(text)
    }

    /// The absolute URI of a path below an origin.
    pub(crate) fn absolute(
        scheme: String,
        authority: String,
        host: String,
        port: Option<u16>,
        path_and_query: String,
    ) -> (uri: Self)
        ensures
            uri@.wf(),
            uri@ == (UriView {
                scheme: Some(scheme@),
                authority: Some(authority@),
                host: Some(host@),
                port,
                path_and_query: Some(path_and_query@),
            }),
    {
        Uri {
            scheme: Some(scheme),
            authority: Some(authority),
            host: Some(host),
            port,
            path_and_query: Some(path_and_query),
        }
    }

    pub fn scheme(&self) -> (scheme: Option<&str>)
        ensures
            match scheme {
                Some(scheme) => self@.scheme == Some(scheme@),
                None => self@.scheme is None,
            },
    {
        match &self.scheme {
            Some(scheme) => Some(scheme.as_str()),
            None => None,
        }
    }

    pub fn authority(&self) -> (authority: Option<&str>)
        ensures
            match authority {
                Some(authority) => self@.authority == Some(authority@),
                None => self@.authority is None,
            },
    {
        match &self.authority {
            Some(authority) => Some(authority.as_str()),
            None => None,
        }
    }

    /// The host within the authority. An IPv6 literal keeps its brackets.
    pub fn host(&self) -> (host: Option<&str>)
        ensures
            match host {
                Some(host) => self@.host == Some(host@),
                None => self@.host is None,
            },
    {
        match &self.host {
            Some(host) => Some(host.as_str()),
            None => None,
        }
    }

    /// The port that the authority names.
    pub fn port(&self) -> (port: Option<u16>)
        ensures
            port == self@.port,
    {
        self.port
    }

    /// Writes the URI out.
    pub fn text(&self) -> (text: String)
        ensures
            text@ == self@.text(),
    {
        let mut text = String::new();
        if let Some(scheme) = &self.scheme {
            text.append(scheme.as_str());
            text.append("://");
        }
        assert(text@ =~= match self@.scheme {
            Some(scheme) => scheme + "://"@,
            None => Seq::empty(),
        });
        if let Some(authority) = &self.authority {
            text.append(authority.as_str());
        }
        if let Some(path) = &self.path_and_query {
            text.append(path.as_str());
        }
        assert(text@ =~= self@.text());
        text
    }

    /// Copies the URI.
    pub fn duplicate(&self) -> (uri: Self)
        ensures
            uri@ == self@,
    {
        proof {
            use_type_invariant(self);
        }
        Uri {
            scheme: copy_optional(&self.scheme),
            authority: copy_optional(&self.authority),
            host: copy_optional(&self.host),
            port: self.port,
            path_and_query: copy_optional(&self.path_and_query),
        }
    }

    /// The same authority as an absolute URI.
    pub(crate) fn with_scheme(&self, scheme: String) -> (uri: Self)
        requires
            self@.authority is Some,
        ensures
            uri@ == (UriView { scheme: Some(scheme@), path_and_query: Some("/"@), ..self@ }),
    {
        proof {
            use_type_invariant(self);
        }
        Uri {
            scheme: Some(scheme),
            authority: copy_optional(&self.authority),
            host: copy_optional(&self.host),
            port: self.port,
            path_and_query: Some("/".to_owned()),
        }
    }

    /// The path alone.
    pub(crate) fn origin_form(&self) -> (uri: Self)
        ensures
            uri@ == self@.origin_form(),
    {
        let path_and_query = match &self.path_and_query {
            Some(path) => path.clone(),
            None => "/".to_owned(),
        };
        Uri {
            scheme: None,
            authority: None,
            host: None,
            port: None,
            path_and_query: Some(path_and_query),
        }
    }

    /// The authority alone.
    pub(crate) fn authority_form(&self) -> (uri: Self)
        requires
            self@.authority is Some,
        ensures
            uri@ == self@.authority_form(),
    {
        proof {
            use_type_invariant(self);
        }
        Uri {
            scheme: None,
            authority: copy_optional(&self.authority),
            host: copy_optional(&self.host),
            port: self.port,
            path_and_query: None,
        }
    }
}

/// An absolute URI is written out as scheme, authority and path; an authority alone
/// as it is, and a path alone as it is.
pub proof fn uris_are_written_out(uri: Uri, text: String)
    requires
        uri@.wf(),
        call_ensures(Uri::text, (&uri,), text),
    ensures
        uri@.scheme is Some ==> text@ == uri@.scheme->0 + "://"@ + uri@.authority->0
            + uri@.path_and_query->0,
        uri@.scheme is None && uri@.authority is Some ==> text@ == uri@.authority->0,
        uri@.authority is None ==> text@ == uri@.path_and_query->0,
{
    if uri@.scheme is None && uri@.authority is Some {
        assert(text@ =~= uri@.authority->0);
    }
    if uri@.authority is None {
        assert(text@ =~= uri@.path_and_query->0);
    }
}

} // verus!
