//! Image references: a transport and, behind it, what the transport needs to
//! find the image.

use vstd::prelude::*;
use vstd::string::StringExecFns;
use crate::error::{Failure, ImageError};
use crate::text::{chars_of, str_eq};

verus! {

/// How an image is reached.
#[derive(Debug, Clone, Copy, PartialEq, Eq, Structural)]
pub enum Transport {
    /// A registry (`docker://`).
    Registry,
    /// An OCI layout directory (`oci:`).
    OciDir,
    /// An OCI layout in a tar archive (`oci-archive:`).
    OciArchive,
    /// A `docker save` archive (`docker-archive:`).
    DockerArchive,
    /// An image held by the docker daemon (`docker-daemon:`).
    DockerDaemon,
    /// Local container storage (`containers-storage:`).
    ContainerStorage,
    /// A plain directory (`dir:`).
    Dir,
}

impl Transport {
    /// The transport's name, which a reference gives before its first colon.
    pub open spec fn scheme(self) -> Seq<char> {
        match self {
            Transport::Registry => "docker"@,
            Transport::OciDir => "oci"@,
            Transport::OciArchive => "oci-archive"@,
            Transport::DockerArchive => "docker-archive"@,
            Transport::DockerDaemon => "docker-daemon"@,
            Transport::ContainerStorage => "containers-storage"@,
            Transport::Dir => "dir"@,
        }
    }

    /// What a reference with this transport starts with: the name and the
    /// colon, and for a registry the two slashes.
    pub open spec fn prefix(self) -> Seq<char> {
        match self {
            Transport::Registry => self.scheme() + seq![':', '/', '/'],
            _ => self.scheme() + seq![':'],
        }
    }

    /// The transport with the given name, if there is one.
    pub open spec fn of_scheme(name: Seq<char>) -> Option<Transport> {
        if name == Transport::Registry.scheme() {
            Some(Transport::Registry)
        } else if name == Transport::OciDir.scheme() {
            Some(Transport::OciDir)
        } else if name == Transport::OciArchive.scheme() {
            Some(Transport::OciArchive)
        } else if name == Transport::DockerArchive.scheme() {
            Some(Transport::DockerArchive)
        } else if name == Transport::DockerDaemon.scheme() {
            Some(Transport::DockerDaemon)
        } else if name == Transport::ContainerStorage.scheme() {
            Some(Transport::ContainerStorage)
        } else if name == Transport::Dir.scheme() {
            Some(Transport::Dir)
        } else {
            None
        }
    }

    /// The transport's name.
    pub fn name(&self) -> (r: &'static str)
        ensures
            r@ == self.scheme(),
    {
        match self {
            Transport::Registry => "docker",
            Transport::OciDir => "oci",
            Transport::OciArchive => "oci-archive",
            Transport::DockerArchive => "docker-archive",
            Transport::DockerDaemon => "docker-daemon",
            Transport::ContainerStorage => "containers-storage",
            Transport::Dir => "dir",
        }
    }

    /// The transport with the given name, if there is one.
    pub fn from_name(name: &str) -> (r: Option<Transport>)
        ensures
            r == Transport::of_scheme(name@),
    {
        if str_eq(name, "docker") {
            Some(Transport::Registry)
        } else if str_eq(name, "oci") {
            Some(Transport::OciDir)
        } else if str_eq(name, "oci-archive") {
            Some(Transport::OciArchive)
        } else if str_eq(name, "docker-archive") {
            Some(Transport::DockerArchive)
        } else if str_eq(name, "docker-daemon") {
            Some(Transport::DockerDaemon)
        } else if str_eq(name, "containers-storage") {
            Some(Transport::ContainerStorage)
        } else if str_eq(name, "dir") {
            Some(Transport::Dir)
        } else {
            None
        }
    }
}

/// What an image reference says: the transport and the locator.
pub struct ReferenceView {
    pub transport: Transport,
    pub name: Seq<char>,
}

impl ReferenceView {
    /// A reference is valid when its locator is not empty.
    pub open spec fn valid(self) -> bool {
        self.name.len() > 0
    }
}

/// The text of a reference: the transport's prefix, then the locator.
pub open spec fn format_spec(r: ReferenceView) -> Seq<char> {
    r.transport.prefix() + r.name
}

/// The reference that a text denotes, if it denotes one. The text is cut at
/// its first colon; what stands before it must name a transport, and what
/// stands behind it (for a registry: behind the two slashes that must follow)
/// is the locator, which must not be empty.
pub open spec fn parse_spec(s: Seq<char>) -> Option<ReferenceView> {
    match s.index_of_first(':') {
        None => None,
        Some(i) => match Transport::of_scheme(s.take(i)) {
            None => None,
            Some(transport) => {
                let rest = s.skip(i + 1);
                if transport == Transport::Registry {
                    if rest.len() > 2 && rest[0] == '/' && rest[1] == '/' {
                        Some(ReferenceView { transport, name: rest.skip(2) })
                    } else {
                        None
                    }
                } else if rest.len() > 0 {
                    Some(ReferenceView { transport, name: rest })
                } else {
                    None
                }
            },
        },
    }
}

/// A transport-qualified locator of a container image. Its locator is never
/// empty.
#[derive(Debug, PartialEq, Eq)]
pub struct ImageReference {
    transport: Transport,
    name: String,
}

impl View for ImageReference {
    type V = ReferenceView;

    closed spec fn view(&self) -> ReferenceView {
        ReferenceView { transport: self.transport, name: self.name@ }
    }
}

impl Clone for ImageReference {
    fn clone(&self) -> (r: ImageReference)
        ensures
            r@ == self@,
    {
        proof {
            use_type_invariant(self);
        }
        ImageReference { transport: self.transport, name: self.name.clone() }
    }
}

impl ImageReference {
    #[verifier::type_invariant]
    spec fn inv(&self) -> bool {
        self.name@.len() > 0
    }

    /// The reference with the given transport and locator.
    pub fn new(transport: Transport, name: &str) -> (r: Result<ImageReference, ImageError>)
        ensures
            name@.len() > 0 ==> (r matches Ok(i) && i@ == (ReferenceView { transport, name: name@ })),
            name@.len() == 0 ==> (r matches Err(e) && e@ == Failure::InvalidReference(name@)),
    {
        if name.unicode_len() == 0 {
            Err(ImageError::InvalidReference(name.to_owned()))
        } else {
            Ok(ImageReference { transport, name: name.to_owned() })
        }
    }

    /// The transport.
    pub fn transport(&self) -> (r: Transport)
        ensures
            r == self@.transport,
            self@.valid(),
    {
        proof {
            use_type_invariant(self);
        }
        self.transport
    }

    /// The locator.
    pub fn name(&self) -> (r: &str)
        ensures
            r@ == self@.name,
            self@.valid(),
    {
        proof {
            use_type_invariant(self);
        }
        self.name.as_str()
    }

    /// Reads a reference from its text. The reference it gives formats to
    /// that text again.
    pub fn parse(text: &str) -> (r: Result<ImageReference, ImageError>)
        ensures
            match parse_spec(text@) {
                Some(v) => r matches Ok(i) && i@ == v,
                None => r matches Err(e) && e@ == Failure::InvalidReference(text@),
            },
            r matches Ok(i) ==> format_spec(i@) == text@,
    {
        proof {
            if parse_spec(text@) is Some {
                law_parse_then_format(text@);
            }
        }
        let chars = chars_of(text);
        let n = chars.len();
        let mut i: usize = 0;
        while i < n && chars[i] != ':'
            invariant
                i <= n,
                n == chars@.len(),
                forall|k: int| 0 <= k < i ==> chars@[k] != ':',
            decreases n - i,
        {
            i += 1;
        }
        proof {
            text@.index_of_first_ensures(':');
        }
        if i == n {
            return Err(ImageError::InvalidReference(text.to_owned()));
        }
        assert(text@.index_of_first(':') == Some(i as int));
        let head = text.substring_char(0, i);
        assert(head@ =~= text@.take(i as int));
        let transport = match Transport::from_name(head) {
            Some(t) => t,
            None => {
                return Err(ImageError::InvalidReference(text.to_owned()));
            },
        };
        let ghost rest = text@.skip(i + 1);
        let start = match transport {
            Transport::Registry => {
                if n - i > 3 && chars[i + 1] == '/' && chars[i + 2] == '/' {
                    i + 3
                } else {
                    return Err(ImageError::InvalidReference(text.to_owned()));
                }
            },
            _ => {
                if n - i > 1 {
                    i + 1
                } else {
                    return Err(ImageError::InvalidReference(text.to_owned()));
                }
            },
        };
        let name = text.substring_char(start, n);
        assert(name@ =~= if transport == Transport::Registry {
            rest.skip(2)
        } else {
            rest
        });
        Ok(ImageReference { transport, name: name.to_owned() })
    }

    /// The reference as text, which `parse` reads back.
    pub fn format(&self) -> (r: String)
        ensures
            r@ == format_spec(self@),
            parse_spec(r@) == Some(self@),
            self@.valid(),
    {
        proof {
            use_type_invariant(self);
            law_format_then_parse(self@);
        }
        let mut out = String::from_str(self.transport.name());
        match self.transport {
            Transport::Registry => {
                proof {
                    reveal_strlit("://");
                }
                out.append("://");
                assert(out@ =~= self@.transport.prefix());
            },
            _ => {
                proof {
                    reveal_strlit(":");
                }
                out.append(":");
                assert(out@ =~= self@.transport.prefix());
            },
        }
        out.append(self.name.as_str());
        out
    }
}

proof fn lemma_schemes()
    ensures
        forall|t: Transport| !(#[trigger] t.scheme()).contains(':'),
        forall|t: Transport| #[trigger] Transport::of_scheme(t.scheme()) == Some(t),
        forall|s: Seq<char>|
            #![trigger Transport::of_scheme(s)]
            Transport::of_scheme(s) matches Some(t) ==> t.scheme() == s,
{
    reveal_strlit("docker");
    reveal_strlit("oci");
    reveal_strlit("oci-archive");
    reveal_strlit("docker-archive");
    reveal_strlit("docker-daemon");
    reveal_strlit("containers-storage");
    reveal_strlit("dir");
    assert forall|t: Transport| !(#[trigger] t.scheme()).contains(':') by {
        let s = t.scheme();
        assert(forall|i: int| 0 <= i < s.len() ==> s[i] != ':');
    }
    assert forall|t: Transport| #[trigger] Transport::of_scheme(t.scheme()) == Some(t) by {
        let a = Transport::Registry.scheme();
        let b = Transport::OciDir.scheme();
        let c = Transport::OciArchive.scheme();
        let d = Transport::DockerArchive.scheme();
        let e = Transport::DockerDaemon.scheme();
        let f = Transport::ContainerStorage.scheme();
        let g = Transport::Dir.scheme();
        assert(a[0] == 'd' && a.len() == 6);
        assert(b[0] == 'o' && b.len() == 3);
        assert(c[0] == 'o' && c.len() == 11);
        assert(d[7] == 'a' && d.len() == 14);
        assert(e[7] == 'd' && e.len() == 13);
        assert(f[0] == 'c' && f.len() == 18);
        assert(g[0] == 'd' && g.len() == 3);
    }
}

/// Formatting a valid reference and parsing the text gives the reference back.
pub proof fn law_format_then_parse(v: ReferenceView)
    requires
        v.valid(),
    ensures
        parse_spec(format_spec(v)) == Some(v),
{
    lemma_schemes();
    let s = format_spec(v);
    let scheme = v.transport.scheme();
    let i = scheme.len() as int;
    s.index_of_first_ensures(':');
    assert(s[i] == ':');
    assert(forall|k: int| 0 <= k < i ==> s[k] == scheme[k]);
    assert(s.index_of_first(':') == Some(i)) by {
        let j = s.index_of_first(':').unwrap();
        if j < i {
            assert(scheme[j] == ':');
            assert(scheme.contains(':'));
        }
    }
    assert(s.take(i) =~= scheme);
    let rest = s.skip(i + 1);
    if v.transport == Transport::Registry {
        assert(rest.skip(2) =~= v.name);
    } else {
        assert(rest =~= v.name);
    }
}

/// Parsing a text that denotes a reference and formatting that reference
/// gives the text back, and the reference is valid.
pub proof fn law_parse_then_format(s: Seq<char>)
    requires
        parse_spec(s) is Some,
    ensures
        format_spec(parse_spec(s).unwrap()) == s,
        parse_spec(s).unwrap().valid(),
{
    lemma_schemes();
    s.index_of_first_ensures(':');
    let i = s.index_of_first(':').unwrap();
    let v = parse_spec(s).unwrap();
    assert(v.transport.scheme() == s.take(i));
    assert(format_spec(v) =~= s);
}

} // verus!
