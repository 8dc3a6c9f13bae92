//! What the window shows.

use vstd::prelude::*;
use crate::local_url::local_address;
use crate::process::Platform;
use crate::text::opt_text;

verus! {

/// The serialization of the URL that `url::Url::parse` reads out of `input`,
/// or nothing when that is no absolute URL.
pub uninterp spec fn url_serialization(input: Seq<char>) -> Option<Seq<char>>;

/// The serialized address of the engine on `port`: the path is written out,
/// and the default port of the scheme is left out.
pub open spec fn engine_page(port: u16) -> Seq<char> {
    if port == 80 {
        "http://127.0.0.1/"@
    } else {
        local_address(port as nat) + "/"@
    }
}

/// `url::Url::parse` followed by the conversion of the URL into its
/// serialization. The result is a function of the input alone. Three kinds of
/// input are claimed to parse, each to the given serialization: the engine's
/// address on any port, and the two origins of the embedded assets.
#[verifier::external_body]
fn parse_url(input: &str) -> (url: Option<String>)
    ensures
        opt_text(url) == url_serialization(input@),
        forall|port: u16|
            input@ == #[trigger] local_address(port as nat) ==> opt_text(url) == Some(
                engine_page(port),
            ),
        input@ == "http://tauri.localhost"@ ==> opt_text(url) == Some(
            "http://tauri.localhost/"@,
        ),
        input@ == "tauri://localhost"@ ==> opt_text(url) == Some("tauri://localhost"@),
{
    match url::Url::parse(input) {
        Ok(url) => Some(String::from(url)),
        Err(_) => None,
    }
}

/// A request to show a page.
#[derive(Debug)]
pub struct NavigateOrder {
    /// The line for the debug log.
    pub debug: String,
    /// The URL to load. Nothing is loaded when there is none.
    pub target: Option<String>,
}

/// Prepares to show the page at `url`. A text that is no URL is not shown.
/// The engine's own address always is one.
pub fn navigate_to(url: &str) -> (order: NavigateOrder)
    ensures
        order.debug@ == "[dsh-desktop] navigating webview to "@ + url@,
        opt_text(order.target) == url_serialization(url@),
        forall|port: u16|
            url@ == #[trigger] local_address(port as nat) ==> opt_text(order.target) == Some(
                engine_page(port),
            ),
{
    NavigateOrder {
        debug: String::from_str("[dsh-desktop] navigating webview to ").concat(url),
        target: parse_url(url),
    }
}

/// What came of a request to load a URL.
#[derive(Debug)]
pub enum NavigateOutcome {
    Loaded,
    /// The window refused, for the given reason.
    Refused(String),
    /// There is no main window.
    NoWindow,
}

/// The line for the debug log that tells what came of a navigation.
pub fn navigation_report(outcome: NavigateOutcome) -> (debug: String)
    ensures
        debug@ == match outcome {
            NavigateOutcome::Loaded => "[dsh-desktop] webview navigate ok"@,
            NavigateOutcome::Refused(e) => "[dsh-desktop] webview navigate error: "@ + e@,
            NavigateOutcome::NoWindow => "[dsh-desktop] main window not found for navigation"@,
        },
{
    match outcome {
        NavigateOutcome::Loaded => String::from_str("[dsh-desktop] webview navigate ok"),
        NavigateOutcome::Refused(e) => String::from_str(
            "[dsh-desktop] webview navigate error: ",
        ).concat(e.as_str()),
        NavigateOutcome::NoWindow => String::from_str(
            "[dsh-desktop] main window not found for navigation",
        ),
    }
}

/// The origin of the embedded assets in a release build.
pub open spec fn release_origin(platform: Platform) -> Seq<char> {
    if platform == Platform::Windows {
        "http://tauri.localhost"@
    } else {
        "tauri://localhost"@
    }
}

/// The splash page of a release build.
pub open spec fn release_splash(platform: Platform) -> Seq<char> {
    if platform == Platform::Windows {
        "http://tauri.localhost/"@
    } else {
        "tauri://localhost"@
    }
}

/// Resolves the local splash page URL: the captured webview URL when it is
/// already meaningful, otherwise the dev server URL in dev builds and the
/// embedded-assets origin in release builds. A release build always has one.
pub fn resolve_splash_url(
    captured: Option<String>,
    dev_build: bool,
    dev_url: Option<String>,
    platform: Platform,
) -> (splash: Option<String>)
    ensures
        captured is Some && captured->0@ != "about:blank"@ ==> splash == captured,
        (captured is None || captured->0@ == "about:blank"@) && dev_build ==> splash == dev_url,
        (captured is None || captured->0@ == "about:blank"@) && !dev_build ==> {
            &&& opt_text(splash) == url_serialization(release_origin(platform))
            &&& opt_text(splash) == Some(release_splash(platform))
        },
{
    if let Some(url) = captured {
        if url != String::from_str("about:blank") {
            return Some(url);
        }
    }
    if dev_build {
        return dev_url;
    }
    match platform {
        Platform::Windows => parse_url("http://tauri.localhost"),
        _ => parse_url("tauri://localhost"),
    }
}

} // verus!
