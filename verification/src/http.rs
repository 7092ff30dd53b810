//! Configuration of the file server: virtual hosts, their mounts and
//! redirects, and the access-log format.

use vstd::prelude::*;

verus! {

/// A virtual host: the files it serves, its redirects and its TLS settings.
#[derive(Clone, Debug)]
pub struct Vhost {
    pub host: String,
    pub files: Vec<Files>,
    pub redir: Vec<Redir>,
    pub tls: Option<Tls>,
}

/// A directory served under a mount point.
#[derive(Clone, Debug)]
pub struct Files {
    pub mount: String,
    pub file_dir: std::path::PathBuf,
}

/// A redirect from a target path to a destination.
#[derive(Clone, Debug)]
pub struct Redir {
    pub target: String,
    pub dest: String,
    pub permanent: bool,
}

/// The certificate files of a host and, where plain HTTP is to be sent on
/// to HTTPS, the destination.
#[derive(Clone, Debug)]
pub struct Tls {
    pub pemfiles: Vec<std::path::PathBuf>,
    pub http_dest: Option<String>,
}

/// The access-log format used where the configuration names none.
pub fn default_server_log_format() -> (format: String)
    ensures
        format@ == "%{Host}i %a \"%r\" %s %b \"%{Referer}i\" \"%{User-Agent}i\" %D"@,
{
    String::from_str("%{Host}i %a \"%r\" %s %b \"%{Referer}i\" \"%{User-Agent}i\" %D")
}

/// What a host answers with, as the server is set up from it.
#[derive(Clone, Debug)]
pub enum ScopePlan {
    /// Every request is sent on to HTTPS, to the request's path behind
    /// `dest`.
    HttpsRedirect { dest: String },
    /// The redirects of the host, then the directories it serves.
    Routes { redirects: Vec<RedirectRoute>, mounts: Vec<Mount> },
}

/// One redirect of a host: requests under `target` are answered with
/// `status` and sent to `dest`.
#[derive(Clone, Debug)]
pub struct RedirectRoute {
    pub target: String,
    pub dest: String,
    pub status: u16,
}

/// One directory of a host, served under `mount`.
#[derive(Clone, Debug)]
pub struct Mount {
    pub mount: String,
    pub file_dir: std::path::PathBuf,
}

/// What a redirect route holds.
pub struct RedirectRouteView {
    pub target: Seq<char>,
    pub dest: Seq<char>,
    pub status: u16,
}

/// What a mount holds.
pub struct MountView {
    pub mount: Seq<char>,
    pub file_dir: std::path::PathBuf,
}

impl View for RedirectRoute {
    type V = RedirectRouteView;

    open spec fn view(&self) -> RedirectRouteView {
        RedirectRouteView { target: self.target@, dest: self.dest@, status: self.status }
    }
}

impl View for Mount {
    type V = MountView;

    open spec fn view(&self) -> MountView {
        MountView { mount: self.mount@, file_dir: self.file_dir }
    }
}

/// The status of a permanent redirect.
pub const PERMANENT_REDIRECT: u16 = 308;

/// The status of a temporary redirect.
pub const TEMPORARY_REDIRECT: u16 = 307;

/// The path under which a resource is registered: the root `/` is
/// registered as the empty path, any other path as it is.
pub open spec fn route_path(path: Seq<char>) -> Seq<char> {
    if path == seq!['/'] {
        Seq::empty()
    } else {
        path
    }
}

/// The status that a redirect answers with.
pub open spec fn redirect_status(permanent: bool) -> u16 {
    if permanent {
        PERMANENT_REDIRECT
    } else {
        TEMPORARY_REDIRECT
    }
}

/// The route of a redirect.
pub open spec fn route_of(redir: Redir) -> RedirectRouteView {
    RedirectRouteView {
        target: route_path(redir.target@),
        dest: redir.dest@,
        status: redirect_status(redir.permanent),
    }
}

/// The mount of a directory.
pub open spec fn mount_of(files: Files) -> MountView {
    MountView { mount: route_path(files.mount@), file_dir: files.file_dir }
}

/// Whether a host sends plain HTTP on to HTTPS, and where to.
pub open spec fn https_dest(vhost: Vhost) -> Option<Seq<char>> {
    match vhost.tls {
        Some(tls) => match tls.http_dest {
            Some(dest) => Some(dest@),
            None => None,
        },
        None => None,
    }
}

/// Whether a host is served on a listener: every host on the plain one, a
/// host with TLS settings on the TLS one.
pub open spec fn is_served(vhost: Vhost, is_tls: bool) -> bool {
    !is_tls || vhost.tls is Some
}

/// The path under which a resource is registered.
pub fn route_path_of(path: &String) -> (route: String)
    ensures
        route@ == route_path(path@),
{
    proof {
        reveal_strlit("/");
        reveal_strlit("");
        assert("/"@ =~= seq!['/']);
        assert(""@ =~= Seq::<char>::empty());
    }
    let root = "/".to_owned();
    if *path == root {
        "".to_owned()
    } else {
        path.clone()
    }
}

/// What a host answers with on a listener; `None` where the host is not
/// served there.
///
/// On the plain listener, a host that names a destination for plain HTTP
/// sends everything there. Else the host has its redirects and its
/// directories, in the order of the configuration, each under its path.
pub fn configure_vhost_scope(vhost: &Vhost, is_tls: bool) -> (plan: Option<ScopePlan>)
    ensures
        !is_served(*vhost, is_tls) ==> plan is None,
        is_served(*vhost, is_tls) && !is_tls && https_dest(*vhost) is Some ==> (plan matches Some(
            ScopePlan::HttpsRedirect { dest },
        ) && Some(dest@) == https_dest(*vhost)),
        is_served(*vhost, is_tls) && (is_tls || https_dest(*vhost) is None) ==> (plan matches Some(
            ScopePlan::Routes { redirects, mounts },
        ) && redirects@.len() == vhost.redir@.len() && mounts@.len() == vhost.files@.len()
            && (forall|i: int|
            0 <= i < redirects@.len() ==> (#[trigger] redirects@[i])@ == route_of(vhost.redir@[i]))
            && (forall|i: int|
            0 <= i < mounts@.len() ==> (#[trigger] mounts@[i])@ == mount_of(vhost.files@[i]))),
{
    if is_tls && vhost.tls.is_none() {
        return None;
    }
    if !is_tls {
        match &vhost.tls {
            Some(tls) => match &tls.http_dest {
                Some(dest) => {
                    return Some(ScopePlan::HttpsRedirect { dest: dest.clone() });
                },
                None => {},
            },
            None => {},
        }
    }
    let mut redirects: Vec<RedirectRoute> = Vec::new();
    let mut i: usize = 0;
    while i < vhost.redir.len()
        invariant
            i <= vhost.redir.len(),
            redirects@.len() == i,
            forall|k: int| 0 <= k < i ==> (#[trigger] redirects@[k])@ == route_of(vhost.redir@[k]),
        decreases vhost.redir.len() - i,
    {
        let redir = &vhost.redir[i];
        let status: u16 = if redir.permanent {
            PERMANENT_REDIRECT
        } else {
            TEMPORARY_REDIRECT
        };
        redirects.push(
            RedirectRoute { target: route_path_of(&redir.target), dest: redir.dest.clone(), status },
        );
        i = i + 1;
    }
    let mut mounts: Vec<Mount> = Vec::new();
    let mut j: usize = 0;
    while j < vhost.files.len()
        invariant
            j <= vhost.files.len(),
            mounts@.len() == j,
            forall|k: int| 0 <= k < j ==> (#[trigger] mounts@[k])@ == mount_of(vhost.files@[k]),
        decreases vhost.files.len() - j,
    {
        let files = &vhost.files[j];
        mounts.push(Mount { mount: route_path_of(&files.mount), file_dir: files.file_dir.clone() });
        j = j + 1;
    }
    Some(ScopePlan::Routes { redirects, mounts })
}

/// The destination with each segment appended behind a `/`.
pub open spec fn redirect_location(dest: Seq<char>, segments: Seq<Seq<char>>) -> Seq<char>
    decreases segments.len(),
{
    if segments.len() == 0 {
        dest
    } else {
        redirect_location(dest, segments.drop_last()) + seq!['/'] + segments.last()
    }
}

/// The views of segments.
pub open spec fn segment_views(segments: Seq<String>) -> Seq<Seq<char>> {
    Seq::new(segments.len(), |i: int| segments[i]@)
}

/// Where a redirect sends a request: its destination, followed by the
/// segments that the request matched, each behind a `/`.
pub fn handle_redirect(dest: &str, segments: &Vec<String>) -> (location: String)
    ensures
        location@ == redirect_location(dest@, segment_views(segments@)),
{
    proof {
        reveal_strlit("/");
        assert("/"@ =~= seq!['/']);
    }
    let ghost all = segment_views(segments@);
    let mut location = dest.to_owned();
    let mut i: usize = 0;
    while i < segments.len()
        invariant
            i <= segments.len(),
            all == segment_views(segments@),
            "/"@ == seq!['/'],
            location@ == redirect_location(dest@, all.take(i as int)),
        decreases segments.len() - i,
    {
        proof {
            assert(all.take(i + 1).drop_last() =~= all.take(i as int));
            assert(all.take(i + 1).last() == segments@[i as int]@);
        }
        location.append("/");
        location.append(segments[i].as_str());
        i = i + 1;
    }
    proof {
        assert(all.take(segments@.len() as int) =~= all);
    }
    location
}

/// Where a request on plain HTTP is sent: the destination followed by the
/// path of the request.
pub fn handle_https_redirect(dest: &str, path: &str) -> (location: String)
    ensures
        location@ == dest@ + path@,
{
    let mut location = dest.to_owned();
    location.append(path);
    location
}

/// One item of a certificate file.
#[derive(Clone, Debug)]
pub enum PemItem {
    /// A certificate.
    Certificate(Vec<u8>),
    /// A private key, in whichever encoding.
    Key(Vec<u8>),
}

/// The certificates of a host and the key that signs for them.
#[derive(Clone, Debug)]
pub struct KeyMaterial {
    pub certs: Vec<Vec<u8>>,
    pub key: Vec<u8>,
}

/// Why the certificate files of a host give no key material.
#[derive(Clone, Copy, Debug, PartialEq, Eq, Structural)]
pub enum KeyError {
    /// The files hold no private key.
    NoKey,
}

/// The certificates among the items, in their order.
pub open spec fn certificates(items: Seq<PemItem>) -> Seq<Seq<u8>>
    decreases items.len(),
{
    if items.len() == 0 {
        Seq::empty()
    } else {
        let before = certificates(items.drop_last());
        match items.last() {
            PemItem::Certificate(cert) => before.push(cert@),
            PemItem::Key(_) => before,
        }
    }
}

/// The first private key among the items.
pub open spec fn first_key(items: Seq<PemItem>) -> Option<Seq<u8>>
    decreases items.len(),
{
    if items.len() == 0 {
        None
    } else {
        match first_key(items.drop_last()) {
            Some(key) => Some(key),
            None => match items.last() {
                PemItem::Key(key) => Some(key@),
                PemItem::Certificate(_) => None,
            },
        }
    }
}

/// Sorts the items of the certificate files of a host, read in the order
/// of the files: every certificate, in that order, and the first private
/// key. Files without a key give no key material.
pub fn create_certified_key(items: &Vec<PemItem>) -> (material: Result<KeyMaterial, KeyError>)
    ensures
        match material {
            Ok(found) => first_key(items@) == Some(found.key@) && Seq::new(
                found.certs@.len(),
                |i: int| found.certs@[i]@,
            ) == certificates(items@),
            Err(_) => first_key(items@) is None,
        },
{
    let mut certs: Vec<Vec<u8>> = Vec::new();
    let mut key: Option<Vec<u8>> = None;
    let mut i: usize = 0;
    while i < items.len()
        invariant
            i <= items.len(),
            Seq::new(certs@.len(), |k: int| certs@[k]@) =~= certificates(items@.take(i as int)),
            match key {
                Some(found) => first_key(items@.take(i as int)) == Some(found@),
                None => first_key(items@.take(i as int)) is None,
            },
        decreases items.len() - i,
    {
        proof {
            assert(items@.take(i + 1).drop_last() =~= items@.take(i as int));
            assert(items@.take(i + 1).last() == items@[i as int]);
        }
        match &items[i] {
            PemItem::Certificate(cert) => {
                certs.push(cert.clone());
            },
            PemItem::Key(found) => {
                if key.is_none() {
                    key = Some(found.clone());
                }
            },
        }
        i = i + 1;
    }
    proof {
        assert(items@.take(items@.len() as int) =~= items@);
    }
    match key {
        Some(key) => Ok(KeyMaterial { certs, key }),
        None => Err(KeyError::NoKey),
    }
}

} // verus!
