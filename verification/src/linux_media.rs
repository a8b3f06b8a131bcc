//! Which documents may use the microphone and the camera in the WebKitGTK webview.
//!
//! The rule denies by default: a media request is allowed only when it comes from an origin of the
//! app and asks for an audio or a video device.
use crate::text;
use vstd::prelude::*;

verus! {

/// The origin that the packaged app is served from.
pub const PROD_ORIGIN: &'static str = "tauri://localhost";

/// The origin of the development server. It is trusted in debug builds only.
pub const DEV_ORIGIN: &'static str = "http://localhost:1420";

/// `uri` belongs to an origin of the app. The origin matches as a whole or as a path prefix, never
/// as the beginning of a longer host name or port.
pub open spec fn is_trusted(uri: Seq<char>, debug_build: bool) -> bool {
    text::is_path_under(uri, PROD_ORIGIN@) || debug_build && text::is_path_under(uri, DEV_ORIGIN@)
}

/// Whether the document at `uri` may use the microphone and the camera.
pub fn is_trusted_media_origin(uri: &str, debug_build: bool) -> (r: bool)
    ensures
        r == is_trusted(uri@, debug_build),
{
    if text::path_under(uri, PROD_ORIGIN) {
        return true;
    }
    if debug_build && text::path_under(uri, DEV_ORIGIN) {
        return true;
    }
    false
}

/// A permission request of the webview.
#[derive(Debug, Clone, Copy, PartialEq, Eq, Structural)]
pub enum PermissionRequest {
    /// A request for user media, and the devices that it asks for.
    UserMedia { audio: bool, video: bool },
    /// A request of any other sort.
    Other,
}

/// The answer to a permission request.
#[derive(Debug, Clone, Copy, PartialEq, Eq, Structural)]
pub enum PermissionAnswer {
    /// The request is allowed.
    Allow,
    /// The request is denied.
    Deny,
    /// The request is left to the default handling of the webview.
    Default,
}

/// The answer to `request` from the document at `uri`.
pub open spec fn answer_to(
    request: PermissionRequest,
    uri: Option<Seq<char>>,
    debug_build: bool,
) -> PermissionAnswer {
    match request {
        PermissionRequest::Other => PermissionAnswer::Default,
        PermissionRequest::UserMedia { audio, video } => if (audio || video) && uri is Some
            && is_trusted(uri->0, debug_build) {
            PermissionAnswer::Allow
        } else {
            PermissionAnswer::Deny
        },
    }
}

/// Answers a permission request from the document at `uri`; `None` where the webview shows no
/// document.
pub fn answer_permission_request(
    request: PermissionRequest,
    uri: Option<&str>,
    debug_build: bool,
) -> (answer: PermissionAnswer)
    ensures
        answer == answer_to(request, text::optional_text(uri), debug_build),
{
    match request {
        PermissionRequest::Other => PermissionAnswer::Default,
        PermissionRequest::UserMedia { audio, video } => {
            let trusted = match uri {
                Some(uri) => is_trusted_media_origin(uri, debug_build),
                None => false,
            };
            if (audio || video) && trusted {
                PermissionAnswer::Allow
            } else {
                PermissionAnswer::Deny
            }
        },
    }
}

/// Whatever continues an origin other than by a slash is not that origin: no longer host name or
/// port passes for it.
pub proof fn look_alikes_are_not_trusted(rest: Seq<char>, debug_build: bool)
    requires
        rest.len() > 0,
        rest[0] != '/',
    ensures
        !is_trusted(PROD_ORIGIN@ + rest, debug_build),
        !is_trusted(DEV_ORIGIN@ + rest, debug_build),
{
    reveal_strlit("tauri://localhost");
    reveal_strlit("http://localhost:1420");
    let prod = PROD_ORIGIN@ + rest;
    let dev = DEV_ORIGIN@ + rest;
    let p = PROD_ORIGIN@.len() as int;
    let d = DEV_ORIGIN@.len() as int;
    assert(prod[p] == rest[0] && dev[d] == rest[0]);
    assert(prod[0] == 't' && dev[0] == 'h');
    if PROD_ORIGIN@.push('/').is_prefix_of(prod) {
        assert(PROD_ORIGIN@.push('/')[p] == prod[p]);
    }
    if DEV_ORIGIN@.push('/').is_prefix_of(dev) {
        assert(DEV_ORIGIN@.push('/')[d] == dev[d]);
    }
    if PROD_ORIGIN@.push('/').is_prefix_of(dev) {
        assert(PROD_ORIGIN@.push('/')[0] == dev[0]);
    }
    if DEV_ORIGIN@.push('/').is_prefix_of(prod) {
        assert(DEV_ORIGIN@.push('/')[0] == prod[0]);
    }
    assert(PROD_ORIGIN@[0] == 't' && DEV_ORIGIN@[0] == 'h');
}

/// Every page of the packaged app is trusted, in any build.
pub proof fn app_pages_are_trusted(path: Seq<char>, debug_build: bool)
    ensures
        is_trusted(PROD_ORIGIN@, debug_build),
        is_trusted(PROD_ORIGIN@.push('/') + path, debug_build),
{
    let head = PROD_ORIGIN@.push('/');
    assert(head =~= (head + path).subrange(0, head.len() as int));
}

/// Pages of the development server are trusted in debug builds, and in no other.
pub proof fn dev_pages_are_trusted_in_debug_builds_only(path: Seq<char>, debug_build: bool)
    ensures
        is_trusted(DEV_ORIGIN@, debug_build) == debug_build,
        is_trusted(DEV_ORIGIN@.push('/') + path, debug_build) == debug_build,
{
    reveal_strlit("tauri://localhost");
    reveal_strlit("http://localhost:1420");
    let head = DEV_ORIGIN@.push('/');
    let page = head + path;
    assert(head =~= page.subrange(0, head.len() as int));
    assert(PROD_ORIGIN@[0] == 't' && DEV_ORIGIN@[0] == 'h' && page[0] == 'h');
    if PROD_ORIGIN@.push('/').is_prefix_of(page) {
        assert(PROD_ORIGIN@.push('/')[0] == page[0]);
    }
    if PROD_ORIGIN@.push('/').is_prefix_of(DEV_ORIGIN@) {
        assert(PROD_ORIGIN@.push('/')[0] == DEV_ORIGIN@[0]);
    }
}

/// Access is denied by default: a request is allowed only if it is for user media, asks for a
/// device, and comes from a trusted origin. A request for user media is never left to the default
/// handling, and any other request always is.
pub proof fn access_is_denied_by_default(
    request: PermissionRequest,
    uri: Option<Seq<char>>,
    debug_build: bool,
)
    ensures
        answer_to(request, uri, debug_build) == PermissionAnswer::Allow ==> {
            &&& request matches PermissionRequest::UserMedia { audio, video } && (audio || video)
            &&& uri matches Some(u) && is_trusted(u, debug_build)
        },
        (answer_to(request, uri, debug_build) == PermissionAnswer::Default) == (request
            == PermissionRequest::Other),
{
}

/// Nothing but an origin of the app is trusted: a trusted URI begins with every character of the
/// origin of the packaged app, or in a debug build of the development server, and what follows, if
/// anything, begins with a slash.
pub proof fn only_app_origins_are_trusted(uri: Seq<char>, debug_build: bool)
    requires
        is_trusted(uri, debug_build),
    ensures
        ({
            let prod = "tauri://localhost"@;
            let dev = "http://localhost:1420"@;
            ||| {
                &&& prod.len() <= uri.len()
                &&& forall|i: int| 0 <= i < prod.len() ==> #[trigger] uri[i] == prod[i]
                &&& prod.len() < uri.len() ==> uri[prod.len() as int] == '/'
            }
            ||| {
                &&& debug_build
                &&& dev.len() <= uri.len()
                &&& forall|i: int| 0 <= i < dev.len() ==> #[trigger] uri[i] == dev[i]
                &&& dev.len() < uri.len() ==> uri[dev.len() as int] == '/'
            }
        }),
{
    lemma_path_under_by_characters(uri, "tauri://localhost"@);
    lemma_path_under_by_characters(uri, "http://localhost:1420"@);
}

/// What begins with the origin of the packaged app, and goes on with a slash if it goes on, is
/// trusted in any build; the same holds of the development server in a debug build.
pub proof fn app_origins_are_trusted(uri: Seq<char>, origin: Seq<char>, debug_build: bool)
    requires
        origin == "tauri://localhost"@ || debug_build && origin == "http://localhost:1420"@,
        origin.len() <= uri.len(),
        forall|i: int| 0 <= i < origin.len() ==> #[trigger] uri[i] == origin[i],
        origin.len() < uri.len() ==> uri[origin.len() as int] == '/',
    ensures
        is_trusted(uri, debug_build),
{
    lemma_path_under_by_characters(uri, origin);
}

proof fn lemma_path_under_by_characters(uri: Seq<char>, head: Seq<char>)
    ensures
        text::is_path_under(uri, head) <==> {
            &&& head.len() <= uri.len()
            &&& forall|i: int| 0 <= i < head.len() ==> #[trigger] uri[i] == head[i]
            &&& head.len() < uri.len() ==> uri[head.len() as int] == '/'
        },
{
    let n = head.len() as int;
    if head.push('/').is_prefix_of(uri) {
        assert forall|i: int| 0 <= i < n implies #[trigger] uri[i] == head[i] by {
            assert(head.push('/')[i] == uri[i]);
        }
        assert(head.push('/')[n] == uri[n]);
    }
    if head.len() <= uri.len() && (forall|i: int| 0 <= i < n ==> #[trigger] uri[i] == head[i]) {
        if head.len() == uri.len() {
            assert(uri =~= head);
        } else if uri[n] == '/' {
            assert(head.push('/') =~= uri.subrange(0, n + 1));
        }
    }
}

/// The converse of denial by default: a request for the microphone, for the camera, or for both,
/// from a trusted document, is allowed. A request for no device, and one from any other document
/// or from none, is denied.
pub proof fn trusted_documents_get_their_devices(
    audio: bool,
    video: bool,
    uri: Option<Seq<char>>,
    debug_build: bool,
)
    ensures
        (audio || video) && (uri matches Some(u) && is_trusted(u, debug_build)) ==> answer_to(
            PermissionRequest::UserMedia { audio, video },
            uri,
            debug_build,
        ) == PermissionAnswer::Allow,
        !((audio || video) && (uri matches Some(u) && is_trusted(u, debug_build))) ==> answer_to(
            PermissionRequest::UserMedia { audio, video },
            uri,
            debug_build,
        ) == PermissionAnswer::Deny,
{
}

/// To ask for a further device never turns an allowed request into a denied one.
pub proof fn further_device_keeps_access(
    audio: bool,
    video: bool,
    more_audio: bool,
    more_video: bool,
    uri: Option<Seq<char>>,
    debug_build: bool,
)
    requires
        answer_to(PermissionRequest::UserMedia { audio, video }, uri, debug_build)
            == PermissionAnswer::Allow,
    ensures
        answer_to(
            PermissionRequest::UserMedia {
                audio: audio || more_audio,
                video: video || more_video,
            },
            uri,
            debug_build,
        ) == PermissionAnswer::Allow,
{
}

/// A debug build trusts whatever a release build trusts.
pub proof fn debug_build_trusts_no_less(uri: Seq<char>)
    requires
        is_trusted(uri, false),
    ensures
        is_trusted(uri, true),
{
}

} // verus!
