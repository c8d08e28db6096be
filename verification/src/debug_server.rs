//! Request routing of the application's loopback debug server: the optional
//! token check, the endpoint table and the screenshot rate limit. The server
//! loop reads a request, asks `DebugRouter::route` what to answer, and
//! writes the answer.
use vstd::prelude::*;
use crate::debugger::{eq_ignore_ascii_case, str_eq_ignore_ascii_case};
use crate::text::str_eq;
use crate::widgets::{WidgetEntry, WidgetRegistry};

verus! {

/// Version of the debug protocol; clients check it first.
pub const PROTOCOL_VERSION: u32 = 1;

/// Minimum time between two screenshots, in milliseconds.
pub const SCREENSHOT_RATE_LIMIT_MS: u64 = 500;

/// An action sent with `POST /control`.
#[derive(Debug, Clone)]
pub struct ControlAction {
    /// "click", "keypress", "set_field" or "menu".
    pub action: String,
    /// Target widget id.
    pub target: Option<String>,
    /// Value for "set_field", key name for "keypress".
    pub value: Option<String>,
    /// Menu path for "menu".
    pub path: Option<Vec<String>>,
}

/// A queued control action and when it arrived (milliseconds on the
/// server's clock).
#[derive(Debug, Clone)]
pub struct PendingControl {
    pub action: ControlAction,
    pub submitted_at_ms: u64,
}

/// The request methods the server tells apart.
#[derive(Debug, Clone, Copy, PartialEq, Eq, Structural)]
pub enum HttpMethod {
    Get,
    Post,
    Other,
}

/// What the server answers a request with.
#[derive(Debug, Clone, Copy, PartialEq, Eq, Structural)]
pub enum Route {
    /// 401: the token is missing or wrong.
    Unauthorized,
    /// The protocol handshake.
    Health,
    /// The frame snapshot.
    State,
    /// The widget registry; empty when headless.
    Tree { headless: bool },
    /// No display to capture.
    ScreenshotHeadless,
    /// 429: the previous screenshot was too recent.
    ScreenshotRateLimited,
    /// Capture the screen.
    Screenshot,
    /// Parse and queue a control action.
    Control,
    /// The log tail.
    Logs,
    /// The HTML dashboard.
    Dashboard,
    /// 404.
    NotFound,
}

/// The header that carries the token.
pub open spec fn token_header() -> Seq<char> {
    "X-Debug-Token"@
}

/// The request may pass: no token is configured, or some header named
/// `X-Debug-Token` (in any ASCII case) carries exactly the token.
pub open spec fn authorized(token: Seq<char>, headers: Seq<(String, String)>) -> bool {
    token.len() == 0 || exists|i: int|
        0 <= i < headers.len() && eq_ignore_ascii_case(headers[i].0@, token_header())
            && #[trigger] headers[i].1@ == token
}

/// A screenshot at `now` comes too soon after the one at `last`.
pub open spec fn too_soon(last: Option<u64>, now: u64) -> bool {
    match last {
        Some(l) => (if now >= l {
            now - l
        } else {
            0
        }) < SCREENSHOT_RATE_LIMIT_MS,
        None => false,
    }
}

/// The answer to an authorized request, by method and path.
pub open spec fn endpoint(method: HttpMethod, url: Seq<char>, headless: bool, limited: bool) -> Route {
    if method == HttpMethod::Get && url == "/health"@ {
        Route::Health
    } else if method == HttpMethod::Get && url == "/state"@ {
        Route::State
    } else if method == HttpMethod::Get && url == "/tree"@ {
        Route::Tree { headless }
    } else if method == HttpMethod::Get && url == "/screenshot"@ {
        if headless {
            Route::ScreenshotHeadless
        } else if limited {
            Route::ScreenshotRateLimited
        } else {
            Route::Screenshot
        }
    } else if method == HttpMethod::Post && url == "/control"@ {
        Route::Control
    } else if method == HttpMethod::Get && url == "/logs"@ {
        Route::Logs
    } else if method == HttpMethod::Get && url == "/dashboard"@ {
        Route::Dashboard
    } else {
        Route::NotFound
    }
}

/// The routing state of a server: its token, whether it runs headless, and
/// when the last screenshot was taken.
pub struct DebugRouter {
    pub token: String,
    pub headless: bool,
    /// Milliseconds on the server's clock of the last screenshot; none when
    /// no screenshot is due to wait for.
    pub last_screenshot_ms: Option<u64>,
}

impl DebugRouter {
    /// A router for the given token and mode.
    pub fn new(token: String, headless: bool, last_screenshot_ms: Option<u64>) -> (r: Self)
        ensures
            r.token == token,
            r.headless == headless,
            r.last_screenshot_ms == last_screenshot_ms,
    {
        DebugRouter { token, headless, last_screenshot_ms }
    }

    /// Decides the answer to a request; a screenshot that is taken becomes the
    /// last one.
    pub fn route(
        &mut self,
        method: HttpMethod,
        url: &str,
        headers: &Vec<(String, String)>,
        now_ms: u64,
    ) -> (r: Route)
        ensures
            final(self).token == old(self).token,
            final(self).headless == old(self).headless,
            !authorized(old(self).token@, headers@) ==> r == Route::Unauthorized
                && final(self).last_screenshot_ms == old(self).last_screenshot_ms,
            authorized(old(self).token@, headers@) ==> r == endpoint(
                method,
                url@,
                old(self).headless,
                too_soon(old(self).last_screenshot_ms, now_ms),
            ) && final(self).last_screenshot_ms == if r == Route::Screenshot {
                Some(now_ms)
            } else {
                old(self).last_screenshot_ms
            },
    {
        if !self.is_authorized(headers) {
            return Route::Unauthorized;
        }
        proof {
            reveal_strlit("/health");
            reveal_strlit("/state");
            reveal_strlit("/tree");
            reveal_strlit("/screenshot");
            reveal_strlit("/control");
            reveal_strlit("/logs");
            reveal_strlit("/dashboard");
        }
        let get = method == HttpMethod::Get;
        if get && str_eq(url, "/health") {
            Route::Health
        } else if get && str_eq(url, "/state") {
            Route::State
        } else if get && str_eq(url, "/tree") {
            Route::Tree { headless: self.headless }
        } else if get && str_eq(url, "/screenshot") {
            if self.headless {
                Route::ScreenshotHeadless
            } else if self.screenshot_too_soon(now_ms) {
                Route::ScreenshotRateLimited
            } else {
                self.last_screenshot_ms = Some(now_ms);
                Route::Screenshot
            }
        } else if method == HttpMethod::Post && str_eq(url, "/control") {
            Route::Control
        } else if get && str_eq(url, "/logs") {
            Route::Logs
        } else if get && str_eq(url, "/dashboard") {
            Route::Dashboard
        } else {
            Route::NotFound
        }
    }

    fn screenshot_too_soon(&self, now_ms: u64) -> (r: bool)
        ensures
            r == too_soon(self.last_screenshot_ms, now_ms),
    {
        match self.last_screenshot_ms {
            Some(l) => {
                let since = if now_ms >= l {
                    now_ms - l
                } else {
                    0
                };
                since < SCREENSHOT_RATE_LIMIT_MS
            },
            None => false,
        }
    }

    /// Whether the headers pass the token check.
    pub fn is_authorized(&self, headers: &Vec<(String, String)>) -> (r: bool)
        ensures
            r == authorized(self.token@, headers@),
    {
        if self.token.as_str().unicode_len() == 0 {
            return true;
        }
        proof {
            reveal_strlit("X-Debug-Token");
        }
        let n = headers.len();
        let mut i: usize = 0;
        while i < n
            invariant
                n == headers@.len(),
                i <= n,
                forall|j: int|
                    0 <= j < i ==> !(eq_ignore_ascii_case(headers@[j].0@, token_header())
                        && #[trigger] headers@[j].1@ == self.token@),
            decreases n - i,
        {
            if str_eq_ignore_ascii_case(headers[i].0.as_str(), "X-Debug-Token") && str_eq(
                headers[i].1.as_str(),
                self.token.as_str(),
            ) {
                return true;
            }
            i = i + 1;
        }
        false
    }
}

impl Route {
    /// The status code of the answer, for the answers that have one fixed
    /// before any outside work.
    pub fn status_code(&self) -> (code: u16)
        ensures
            code == match *self {
                Route::Unauthorized => 401u16,
                Route::ScreenshotRateLimited => 429u16,
                Route::NotFound => 404u16,
                _ => 200u16,
            },
    {
        match self {
            Route::Unauthorized => 401,
            Route::ScreenshotRateLimited => 429,
            Route::NotFound => 404,
            _ => 200,
        }
    }
}

/// The status code of a screenshot answer: 200 with the image, 500 when the
/// capture failed.
pub fn screenshot_status(captured: bool) -> (code: u16)
    ensures
        code == if captured {
            200u16
        } else {
            500u16
        },
{
    if captured {
        200
    } else {
        500
    }
}

/// The status code of a control answer: 200 when the body parsed as an
/// action (which is then queued), 400 otherwise.
pub fn control_status(parsed: bool) -> (code: u16)
    ensures
        code == if parsed {
            200u16
        } else {
            400u16
        },
{
    if parsed {
        200
    } else {
        400
    }
}

/// Screenshots are rate-limited: once a screenshot was taken at `t`, another
/// request for one less than the limit later is refused with 429, and one at
/// least the limit later is served.
pub proof fn lemma_screenshot_rate_limit(t: u64, later: u64, headless: bool)
    requires
        t <= later,
        !headless,
    ensures
        later - t < SCREENSHOT_RATE_LIMIT_MS ==> endpoint(
            HttpMethod::Get,
            "/screenshot"@,
            headless,
            too_soon(Some(t), later),
        ) == Route::ScreenshotRateLimited,
        later - t >= SCREENSHOT_RATE_LIMIT_MS ==> endpoint(
            HttpMethod::Get,
            "/screenshot"@,
            headless,
            too_soon(Some(t), later),
        ) == Route::Screenshot,
{
    reveal_strlit("/screenshot");
    reveal_strlit("/health");
    reveal_strlit("/state");
    reveal_strlit("/tree");
    assert("/screenshot"@.len() == 11);
    assert("/health"@.len() == 7);
    assert("/state"@.len() == 6);
    assert("/tree"@.len() == 5);
}

/// Without the right token nothing but 401 is answered, whatever the path;
/// without a configured token every request passes the check.
pub proof fn lemma_token_gate(token: Seq<char>, headers: Seq<(String, String)>)
    ensures
        token.len() == 0 ==> authorized(token, headers),
        headers.len() == 0 && token.len() > 0 ==> !authorized(token, headers),
{
}

/// The widget list of a `/tree` reply: none on a headless server, whatever
/// the registry holds; otherwise every registered widget, in id order.
pub fn tree_widgets(headless: bool, registry: &WidgetRegistry) -> (r: Vec<WidgetEntry>)
    requires
        registry.wf(),
    ensures
        headless ==> r@.len() == 0,
        !headless ==> r@ == registry.entries_view(),
{
    if headless {
        Vec::new()
    } else {
        registry.snapshot()
    }
}

} // verus!
