//! Agent debugger: configuration, control requests, protocol checks,
//! screenshot replies and rate limiting, widget lookup, and before/after
//! session reports.
use vstd::prelude::*;
use crate::text::{
    ascii_lower,
    contains_text,
    decimal,
    decimal_text,
    lowercase,
    owned,
    push_char,
    push_decimal,
    str_contains,
    str_eq,
    to_lowercase,
};

verus! {

// ── Errors ───────────────────────────────────────────────────────────────────

/// Errors of the agent debugger.
#[derive(Debug)]
pub enum DebugError {
    /// HTTP transport error.
    Http(String),
    /// JSON parse or serialise error.
    Json(String),
    /// Filesystem error.
    Io(String),
    /// Protocol mismatch or unexpected response.
    Protocol(String),
    /// Operation timed out.
    Timeout(String),
    /// Feature not implemented by the application.
    NotImplemented(String),
    /// Rate-limited by the server (HTTP 429).
    RateLimited,
    /// Authentication failed (HTTP 401).
    Unauthorized,
    /// Config file missing or malformed.
    Config(String),
}

/// The message shown for an error.
pub open spec fn debug_error_text(e: DebugError) -> Seq<char> {
    match e {
        DebugError::Http(s) => "HTTP error: "@ + s@,
        DebugError::Json(s) => "JSON error: "@ + s@,
        DebugError::Io(s) => "I/O error: "@ + s@,
        DebugError::Protocol(s) => "Protocol error: "@ + s@,
        DebugError::Timeout(s) => "Timeout: "@ + s@,
        DebugError::NotImplemented(s) => "Not implemented: "@ + s@,
        DebugError::RateLimited => "Rate limited (429) — wait 500ms"@,
        DebugError::Unauthorized => "Unauthorized (401) — check debug_server_token"@,
        DebugError::Config(s) => "Config error: "@ + s@,
    }
}

/// `prefix` followed by `s`.
fn prefixed(prefix: &str, s: &String) -> (r: String)
    ensures
        r@ == prefix@ + s@,
{
    let mut r = owned(prefix);
    r.append(s.as_str());
    r
}

impl DebugError {
    /// The human-readable message for this error.
    pub fn message(&self) -> (r: String)
        ensures
            r@ == debug_error_text(*self),
    {
        match self {
            DebugError::Http(s) => prefixed("HTTP error: ", s),
            DebugError::Json(s) => prefixed("JSON error: ", s),
            DebugError::Io(s) => prefixed("I/O error: ", s),
            DebugError::Protocol(s) => prefixed("Protocol error: ", s),
            DebugError::Timeout(s) => prefixed("Timeout: ", s),
            DebugError::NotImplemented(s) => prefixed("Not implemented: ", s),
            DebugError::RateLimited => owned("Rate limited (429) — wait 500ms"),
            DebugError::Unauthorized => owned("Unauthorized (401) — check debug_server_token"),
            DebugError::Config(s) => prefixed("Config error: ", s),
        }
    }

    /// The error for an HTTP error status: 429 is `RateLimited`, 401 is
    /// `Unauthorized`, any other code is an `Http` error naming code and reason.
    pub fn from_status(code: u16, status_text: &str) -> (e: DebugError)
        ensures
            code == 429 ==> e is RateLimited,
            code == 401 ==> e is Unauthorized,
            code != 429 && code != 401 ==> (e matches DebugError::Http(m) && m@ == "HTTP "@
                + decimal(code as nat) + ": "@ + status_text@),
    {
        if code == 429 {
            DebugError::RateLimited
        } else if code == 401 {
            DebugError::Unauthorized
        } else {
            let mut m = owned("HTTP ");
            push_decimal(&mut m, code as u64);
            m.append(": ");
            m.append(status_text);
            DebugError::Http(m)
        }
    }
}

// ── Configuration ────────────────────────────────────────────────────────────

/// Runtime configuration of the agent debugger.
#[derive(Debug, Clone)]
pub struct AgentDebuggerConfig {
    /// Debug server host.
    pub host: String,
    /// Debug server port.
    pub port: u16,
    /// Optional auth token; empty means no auth.
    pub token: String,
    /// HTTP request timeout in seconds.
    pub timeout_secs: u64,
    /// Minimum gap between screenshot calls in milliseconds.
    pub screenshot_min_interval_ms: u64,
    /// Protocol version this tool expects.
    pub expected_protocol_version: u32,
}

/// Default debug server host.
pub fn default_host() -> (r: String)
    ensures
        r@ == "127.0.0.1"@,
{
    owned("127.0.0.1")
}

/// Default debug server port.
pub fn default_port() -> (r: u16)
    ensures
        r == 8082,
{
    8082
}

/// Default HTTP timeout in seconds.
pub fn default_timeout_secs() -> (r: u64)
    ensures
        r == 10,
{
    10
}

/// Default minimum gap between screenshots in milliseconds.
pub fn default_screenshot_min_interval_ms() -> (r: u64)
    ensures
        r == 500,
{
    500
}

/// Default expected protocol version.
pub fn default_protocol_version() -> (r: u32)
    ensures
        r == 1,
{
    1
}

/// The built-in configuration.
pub open spec fn is_default_config(c: AgentDebuggerConfig) -> bool {
    &&& c.host@ == "127.0.0.1"@
    &&& c.port == 8082
    &&& c.token@ == Seq::<char>::empty()
    &&& c.timeout_secs == 10
    &&& c.screenshot_min_interval_ms == 500
    &&& c.expected_protocol_version == 1
}

impl Default for AgentDebuggerConfig {
    fn default() -> (c: Self)
        ensures
            is_default_config(c),
    {
        AgentDebuggerConfig {
            host: default_host(),
            port: default_port(),
            token: String::new(),
            timeout_secs: default_timeout_secs(),
            screenshot_min_interval_ms: default_screenshot_min_interval_ms(),
            expected_protocol_version: default_protocol_version(),
        }
    }
}

impl AgentDebuggerConfig {
    /// Base URL of the debug server, `http://<host>:<port>`.
    pub fn base_url(&self) -> (r: String)
        ensures
            r@ == "http://"@ + self.host@ + ":"@ + decimal(self.port as nat),
    {
        let mut r = owned("http://");
        r.append(self.host.as_str());
        r.append(":");
        push_decimal(&mut r, self.port as u64);
        r
    }

    /// The URL of an endpoint of the debug server: the base URL followed by
    /// `path` (such as `/tree` or `/logs`).
    pub fn endpoint_url(&self, path: &str) -> (r: String)
        ensures
            r@ == "http://"@ + self.host@ + ":"@ + decimal(self.port as nat) + path@,
    {
        let mut r = self.base_url();
        r.append(path);
        r
    }

    /// The loaded configuration, or the defaults when loading failed.
    pub fn load_or_default(loaded: Result<AgentDebuggerConfig, DebugError>) -> (c: Self)
        ensures
            match loaded {
                Ok(l) => c == l,
                Err(_) => is_default_config(c),
            },
    {
        match loaded {
            Ok(c) => c,
            Err(_) => AgentDebuggerConfig::default(),
        }
    }
}

// ── Control ──────────────────────────────────────────────────────────────────

/// A control action sent to the application.
#[derive(Debug, Clone)]
pub struct ControlRequest {
    pub action: String,
    /// Widget id from the widget tree.
    pub target: Option<String>,
    /// Value for `set_field` or key name for `keypress`.
    pub value: Option<String>,
    /// Menu path for `menu`.
    pub path: Option<Vec<String>>,
}

/// Response to a control request.
#[derive(Debug)]
pub struct ControlResponse {
    pub ok: bool,
    pub error: Option<String>,
}

impl ControlRequest {
    /// A click on a widget.
    pub fn click(widget_id: String) -> (r: Self)
        ensures
            r.action@ == "click"@,
            r.target == Some(widget_id),
            r.value is None,
            r.path is None,
    {
        ControlRequest { action: owned("click"), target: Some(widget_id), value: None, path: None }
    }

    /// A key press on a widget.
    pub fn keypress(widget_id: String, key: String) -> (r: Self)
        ensures
            r.action@ == "keypress"@,
            r.target == Some(widget_id),
            r.value == Some(key),
            r.path is None,
    {
        ControlRequest {
            action: owned("keypress"),
            target: Some(widget_id),
            value: Some(key),
            path: None,
        }
    }

    /// Setting a text input or slider value.
    pub fn set_field(widget_id: String, value: String) -> (r: Self)
        ensures
            r.action@ == "set_field"@,
            r.target == Some(widget_id),
            r.value == Some(value),
            r.path is None,
    {
        ControlRequest {
            action: owned("set_field"),
            target: Some(widget_id),
            value: Some(value),
            path: None,
        }
    }

    /// Activating a menu path.
    pub fn menu(path: Vec<String>) -> (r: Self)
        ensures
            r.action@ == "menu"@,
            r.target is None,
            r.value is None,
            r.path == Some(path),
    {
        ControlRequest { action: owned("menu"), target: None, value: None, path: Some(path) }
    }
}

/// What the server's reply to a control request means: accepted, or rejected
/// with its reason ("unknown error" when it gives none).
pub fn control_outcome(resp: ControlResponse) -> (r: Result<(), DebugError>)
    ensures
        resp.ok ==> r is Ok,
        !resp.ok ==> (r matches Err(DebugError::Protocol(m)) && m@ == "control rejected: "@
            + match resp.error {
            Some(e) => e@,
            None => "unknown error"@,
        }),
{
    if resp.ok {
        Ok(())
    } else {
        let reason = match resp.error {
            Some(e) => e,
            None => owned("unknown error"),
        };
        Err(DebugError::Protocol(prefixed("control rejected: ", &reason)))
    }
}

// ── Health ───────────────────────────────────────────────────────────────────

/// Reply to the health endpoint.
#[derive(Debug)]
pub struct HealthResponse {
    pub ok: bool,
    pub protocol_version: u32,
}

/// Accepts a health reply whose protocol version is the expected one, and
/// rejects any other with a protocol error naming both versions.
pub fn check(cfg: &AgentDebuggerConfig, health: HealthResponse) -> (r: Result<
    HealthResponse,
    DebugError,
>)
    ensures
        health.protocol_version == cfg.expected_protocol_version ==> r == Ok::<
            HealthResponse,
            DebugError,
        >(health),
        health.protocol_version != cfg.expected_protocol_version ==> (r matches Err(
            DebugError::Protocol(m),
        ) && m@ == "protocol_version mismatch: server="@ + decimal(
            health.protocol_version as nat,
        ) + ", expected="@ + decimal(cfg.expected_protocol_version as nat)),
{
    if health.protocol_version != cfg.expected_protocol_version {
        let mut m = owned("protocol_version mismatch: server=");
        push_decimal(&mut m, health.protocol_version as u64);
        m.append(", expected=");
        push_decimal(&mut m, cfg.expected_protocol_version as u64);
        return Err(DebugError::Protocol(m));
    }
    Ok(health)
}

// ── Screenshots ──────────────────────────────────────────────────────────────

/// Result of a screenshot attempt.
#[derive(Debug)]
pub enum ScreenshotResult {
    /// PNG bytes from the server.
    Png(Vec<u8>),
    /// The server cannot take screenshots yet.
    NotImplemented,
    /// The application runs without a display.
    Headless,
}

/// The JSON reply of the screenshot endpoint when it sends no image.
#[derive(Debug)]
pub struct ScreenshotError {
    pub ok: bool,
    pub error: Option<String>,
    pub headless: bool,
}

/// The server reports that it cannot take screenshots yet.
pub open spec fn says_not_implemented(error: Option<String>) -> bool {
    match error {
        Some(e) => e@ == "screenshot_not_implemented"@,
        None => false,
    }
}

/// Does a reply with this content type carry PNG bytes?
pub fn is_png_reply(content_type: &str) -> (r: bool)
    ensures
        r == contains_text(content_type@, "image/png"@),
{
    str_contains(content_type, "image/png")
}

/// What a screenshot reply without an image means: headless, not implemented,
/// or a protocol error naming the server's error ("unknown" when it gives none).
pub fn interpret_screenshot_error(err: ScreenshotError) -> (r: Result<ScreenshotResult, DebugError>)
    ensures
        err.headless ==> r matches Ok(ScreenshotResult::Headless),
        !err.headless && says_not_implemented(err.error) ==> r matches Ok(
            ScreenshotResult::NotImplemented,
        ),
        !err.headless && !says_not_implemented(err.error) ==> (r matches Err(
            DebugError::Protocol(m),
        ) && m@ == "screenshot error: "@ + match err.error {
            Some(e) => e@,
            None => "unknown"@,
        }),
{
    if err.headless {
        return Ok(ScreenshotResult::Headless);
    }
    let error_str = match err.error {
        Some(e) => e,
        None => {
            proof {
                reveal_strlit("unknown");
                reveal_strlit("screenshot_not_implemented");
                assert("unknown"@.len() != "screenshot_not_implemented"@.len());
            }
            owned("unknown")
        },
    };
    if str_eq(error_str.as_str(), "screenshot_not_implemented") {
        return Ok(ScreenshotResult::NotImplemented);
    }
    Err(DebugError::Protocol(prefixed("screenshot error: ", &error_str)))
}

/// Rate limiter for screenshot requests, on a millisecond clock.
pub struct ScreenshotRateLimit {
    last_ms: Option<u64>,
    min_interval_ms: u64,
}

/// How long to wait before the next screenshot at time `now`.
pub open spec fn wait_needed(last: Option<u64>, min_interval: u64, now: u64) -> u64 {
    match last {
        None => 0,
        Some(l) => {
            let elapsed: int = if now >= l {
                now - l
            } else {
                0
            };
            if elapsed < min_interval {
                (min_interval - elapsed) as u64
            } else {
                0
            }
        },
    }
}

impl ScreenshotRateLimit {
    /// Time of the last screenshot, if any.
    pub closed spec fn last(&self) -> Option<u64> {
        self.last_ms
    }

    /// The minimum gap between screenshots.
    pub closed spec fn min_interval(&self) -> u64 {
        self.min_interval_ms
    }

    /// A limiter with no screenshot taken yet.
    pub fn new(min_interval_ms: u64) -> (r: Self)
        ensures
            r.last() is None,
            r.min_interval() == min_interval_ms,
    {
        ScreenshotRateLimit { last_ms: None, min_interval_ms }
    }

    /// How long to sleep at time `now_ms` before the next screenshot so that
    /// the minimum gap since the last one is respected.
    pub fn wait_ms(&self, now_ms: u64) -> (r: u64)
        ensures
            r == wait_needed(self.last(), self.min_interval(), now_ms),
    {
        match self.last_ms {
            None => 0,
            Some(l) => {
                let elapsed = if now_ms >= l {
                    now_ms - l
                } else {
                    0
                };
                if elapsed < self.min_interval_ms {
                    self.min_interval_ms - elapsed
                } else {
                    0
                }
            },
        }
    }

    /// Records a screenshot taken at time `now_ms`.
    pub fn record(&mut self, now_ms: u64)
        ensures
            final(self).last() == Some(now_ms),
            final(self).min_interval() == old(self).min_interval(),
    {
        self.last_ms = Some(now_ms);
    }
}

// ── Widget tree ──────────────────────────────────────────────────────────────

/// A widget in the application's widget tree.
#[derive(Debug, Clone)]
pub struct WidgetEntry {
    pub id: String,
    pub kind: String,
    pub label: String,
    pub enabled: bool,
    pub value: Option<String>,
}

/// Reply of the tree endpoint.
#[derive(Debug, Clone)]
pub struct TreeResponse {
    pub headless: bool,
    pub widgets: Vec<WidgetEntry>,
}

/// Reply of the logs endpoint.
#[derive(Debug, Clone)]
pub struct LogsResponse {
    pub lines: Vec<String>,
}

/// Some widget of `ws` has id `id`.
pub open spec fn has_widget(ws: Seq<WidgetEntry>, id: Seq<char>) -> bool {
    exists|i: int| 0 <= i < ws.len() && ws[i].id@ == id
}

/// `i` is the first position of `ws` whose id is `id`.
pub open spec fn first_with_id(ws: Seq<WidgetEntry>, id: Seq<char>, i: int) -> bool {
    0 <= i < ws.len() && ws[i].id@ == id && forall|j: int| 0 <= j < i ==> ws[j].id@ != id
}

/// `i` is the first position of `ws` whose label equals `label` ignoring case.
pub open spec fn first_with_label(ws: Seq<WidgetEntry>, label: Seq<char>, i: int) -> bool {
    &&& 0 <= i < ws.len()
    &&& lowercase(ws[i].label@) == lowercase(label)
    &&& forall|j: int| 0 <= j < i ==> lowercase(ws[j].label@) != lowercase(label)
}

/// The first widget with the given id.
pub fn find_widget<'a>(tree: &'a TreeResponse, id: &str) -> (r: Option<&'a WidgetEntry>)
    ensures
        match r {
            Some(w) => exists|i: int| first_with_id(tree.widgets@, id@, i) && *w == tree.widgets@[i],
            None => !has_widget(tree.widgets@, id@),
        },
{
    let n = tree.widgets.len();
    let mut i: usize = 0;
    while i < n
        invariant
            n == tree.widgets@.len(),
            i <= n,
            forall|j: int| 0 <= j < i ==> tree.widgets@[j].id@ != id@,
        decreases n - i,
    {
        if str_eq(tree.widgets[i].id.as_str(), id) {
            assert(first_with_id(tree.widgets@, id@, i as int));
            return Some(&tree.widgets[i]);
        }
        i = i + 1;
    }
    None
}

/// The first widget whose label equals `label` ignoring case.
pub fn find_widget_by_label<'a>(tree: &'a TreeResponse, label: &str) -> (r: Option<&'a WidgetEntry>)
    ensures
        match r {
            Some(w) => exists|i: int|
                first_with_label(tree.widgets@, label@, i) && *w == tree.widgets@[i],
            None => forall|j: int|
                0 <= j < tree.widgets@.len() ==> lowercase(tree.widgets@[j].label@) != lowercase(
                    label@,
                ),
        },
{
    let label_lower = to_lowercase(label);
    let n = tree.widgets.len();
    let mut i: usize = 0;
    while i < n
        invariant
            n == tree.widgets@.len(),
            i <= n,
            label_lower@ == lowercase(label@),
            forall|j: int| 0 <= j < i ==> lowercase(tree.widgets@[j].label@) != lowercase(label@),
        decreases n - i,
    {
        let w_lower = to_lowercase(tree.widgets[i].label.as_str());
        if str_eq(w_lower.as_str(), label_lower.as_str()) {
            assert(first_with_label(tree.widgets@, label@, i as int));
            return Some(&tree.widgets[i]);
        }
        i = i + 1;
    }
    None
}


// ── Command-line control requests ────────────────────────────────────────────

/// Pieces of `s` between commas (std's `str::split(',')`): one more piece than
/// there are commas, possibly empty.
pub open spec fn split_commas(s: Seq<char>) -> Seq<Seq<char>>
    decreases s.len(),
{
    if s.len() == 0 {
        seq![Seq::<char>::empty()]
    } else {
        let r = split_commas(s.drop_last());
        if s.last() == ',' {
            r.push(Seq::<char>::empty())
        } else {
            r.update(r.len() - 1, r.last().push(s.last()))
        }
    }
}

/// A character with the Unicode White_Space property, which std's `str::trim`
/// strips: U+0009 to U+000D, space, U+0085, U+00A0, U+1680, U+2000 to
/// U+200A, U+2028, U+2029, U+202F, U+205F and U+3000.
pub open spec fn is_white_space(c: char) -> bool {
    ||| '\u{9}' <= c && c <= '\u{d}'
    ||| c == ' '
    ||| c == '\u{85}'
    ||| c == '\u{a0}'
    ||| c == '\u{1680}'
    ||| '\u{2000}' <= c && c <= '\u{200a}'
    ||| c == '\u{2028}'
    ||| c == '\u{2029}'
    ||| c == '\u{202f}'
    ||| c == '\u{205f}'
    ||| c == '\u{3000}'
}

/// `s` without its leading whitespace.
pub open spec fn trim_start_text(s: Seq<char>) -> Seq<char>
    decreases s.len(),
{
    if s.len() > 0 && is_white_space(s[0]) {
        trim_start_text(s.drop_first())
    } else {
        s
    }
}

/// `s` without its trailing whitespace.
pub open spec fn trim_end_text(s: Seq<char>) -> Seq<char>
    decreases s.len(),
{
    if s.len() > 0 && is_white_space(s.last()) {
        trim_end_text(s.drop_last())
    } else {
        s
    }
}

/// `s` without leading and trailing whitespace (std's `str::trim`).
pub open spec fn trimmed(s: Seq<char>) -> Seq<char> {
    trim_end_text(trim_start_text(s))
}

/// Whether `c` has the Unicode White_Space property.
fn white_space(c: char) -> (r: bool)
    ensures
        r == is_white_space(c),
{
    ('\u{9}' <= c && c <= '\u{d}') || c == ' ' || c == '\u{85}' || c == '\u{a0}'
        || c == '\u{1680}' || ('\u{2000}' <= c && c <= '\u{200a}') || c == '\u{2028}'
        || c == '\u{2029}' || c == '\u{202f}' || c == '\u{205f}' || c == '\u{3000}'
}

/// The text without its leading and trailing White_Space characters, as an
/// owned `String` (what std's `str::trim` gives).
fn trim_text(s: &str) -> (r: String)
    ensures
        r@ == trimmed(s@),
{
    let n = s.unicode_len();
    let mut a: usize = 0;
    assert(s@.subrange(0, n as int) =~= s@);
    while a < n && white_space(s.get_char(a))
        invariant
            n == s@.len(),
            a <= n,
            trim_start_text(s@) == trim_start_text(s@.subrange(a as int, n as int)),
        decreases n - a,
    {
        proof {
            assert(s@.subrange(a as int, n as int).drop_first() =~= s@.subrange(a + 1, n as int));
        }
        a = a + 1;
    }
    assert(trim_start_text(s@) == s@.subrange(a as int, n as int));
    let mut b: usize = n;
    while b > a && white_space(s.get_char(b - 1))
        invariant
            n == s@.len(),
            a <= b <= n,
            trim_end_text(s@.subrange(a as int, n as int)) == trim_end_text(
                s@.subrange(a as int, b as int),
            ),
        decreases b - a,
    {
        proof {
            assert(s@.subrange(a as int, b as int).drop_last() =~= s@.subrange(a as int, b - 1));
        }
        b = b - 1;
    }
    assert(trim_end_text(s@.subrange(a as int, b as int)) == s@.subrange(a as int, b as int));
    String::from_str(s.substring_char(a, b))
}

proof fn lemma_split_nonempty(s: Seq<char>)
    ensures
        split_commas(s).len() >= 1,
    decreases s.len(),
{
    if s.len() > 0 {
        lemma_split_nonempty(s.drop_last());
    }
}

/// The trimmed comma-separated pieces of a menu path.
pub fn menu_path_parts(path: &str) -> (r: Vec<String>)
    ensures
        r@.len() == split_commas(path@).len(),
        forall|i: int| 0 <= i < r@.len() ==> #[trigger] r@[i]@ == trimmed(split_commas(path@)[i]),
{
    let n = path.unicode_len();
    let mut raw: Vec<String> = Vec::new();
    let mut cur = String::new();
    let mut i: usize = 0;
    while i < n
        invariant
            n == path@.len(),
            i <= n,
            raw@.len() + 1 == split_commas(path@.take(i as int)).len(),
            forall|k: int| 0 <= k < raw@.len() ==> #[trigger] raw@[k]@ == split_commas(
                path@.take(i as int),
            )[k],
            cur@ == split_commas(path@.take(i as int)).last(),
        decreases n - i,
    {
        let c = path.get_char(i);
        proof {
            let t = path@.take(i + 1);
            assert(t.drop_last() =~= path@.take(i as int));
            assert(t.last() == c);
            lemma_split_nonempty(path@.take(i as int));
        }
        if c == ',' {
            raw.push(cur);
            cur = String::new();
        } else {
            push_char(&mut cur, c);
        }
        i = i + 1;
    }
    proof {
        assert(path@.take(n as int) =~= path@);
    }
    raw.push(cur);
    let mut out: Vec<String> = Vec::new();
    let mut j: usize = 0;
    while j < raw.len()
        invariant
            j <= raw@.len(),
            raw@.len() == split_commas(path@).len(),
            forall|k: int| 0 <= k < raw@.len() ==> #[trigger] raw@[k]@ == split_commas(path@)[k],
            out@.len() == j,
            forall|k: int| 0 <= k < j ==> #[trigger] out@[k]@ == trimmed(split_commas(path@)[k]),
        decreases raw@.len() - j,
    {
        out.push(trim_text(raw[j].as_str()));
        j = j + 1;
    }
    out
}

/// `o` holds a string with text `t`.
pub open spec fn opt_text_is(o: Option<String>, t: Seq<char>) -> bool {
    match o {
        Some(x) => x@ == t,
        None => false,
    }
}

/// `path` holds the trimmed comma-separated pieces of `p`.
pub open spec fn menu_parts_of(path: Option<Vec<String>>, p: Seq<char>) -> bool {
    match path {
        Some(parts) => parts@.len() == split_commas(p).len() && forall|i: int|
            0 <= i < parts@.len() ==> #[trigger] parts@[i]@ == trimmed(split_commas(p)[i]),
        None => false,
    }
}

/// The request that `build_control_request` produces, or the error it reports.
pub open spec fn control_request_ok(
    r: Result<ControlRequest, DebugError>,
    action: Seq<char>,
    target: Option<&str>,
    value: Option<&str>,
    menu_path: Option<&str>,
) -> bool {
    if action == "click"@ {
        match target {
            None => r matches Err(DebugError::Protocol(m)) && m@
                == "click action requires --target <widget_id>"@,
            Some(t) => match r {
                Ok(q) => q.action@ == "click"@ && opt_text_is(q.target, t@) && q.value is None
                    && q.path is None,
                Err(_) => false,
            },
        }
    } else if action == "keypress"@ {
        match (target, value) {
            (None, _) => r matches Err(DebugError::Protocol(m)) && m@
                == "keypress action requires --target <widget_id>"@,
            (Some(_), None) => r matches Err(DebugError::Protocol(m)) && m@
                == "keypress action requires --value <key_name>"@,
            (Some(t), Some(v)) => match r {
                Ok(q) => q.action@ == "keypress"@ && opt_text_is(q.target, t@) && opt_text_is(
                    q.value,
                    v@,
                ) && q.path is None,
                Err(_) => false,
            },
        }
    } else if action == "set_field"@ {
        match (target, value) {
            (None, _) => r matches Err(DebugError::Protocol(m)) && m@
                == "set_field action requires --target <widget_id>"@,
            (Some(_), None) => r matches Err(DebugError::Protocol(m)) && m@
                == "set_field action requires --value <value>"@,
            (Some(t), Some(v)) => match r {
                Ok(q) => q.action@ == "set_field"@ && opt_text_is(q.target, t@) && opt_text_is(
                    q.value,
                    v@,
                ) && q.path is None,
                Err(_) => false,
            },
        }
    } else if action == "menu"@ {
        match menu_path {
            None => r matches Err(DebugError::Protocol(m)) && m@
                == "menu action requires --menu-path <File,Save>"@,
            Some(p) => match r {
                Ok(q) => q.action@ == "menu"@ && q.target is None && q.value is None && menu_parts_of(
                    q.path,
                    p@,
                ),
                Err(_) => false,
            },
        }
    } else {
        r matches Err(DebugError::Protocol(m)) && m@ == "unknown action: "@ + action
            + " (valid: click, keypress, set_field, menu)"@
    }
}

/// Builds the control request for a command-line action (`click`, `keypress`,
/// `set_field`, `menu`), or a protocol error naming what is missing.
pub fn build_control_request(
    action: &str,
    target: Option<&str>,
    value: Option<&str>,
    menu_path: Option<&str>,
) -> (r: Result<ControlRequest, DebugError>)
    ensures
        control_request_ok(r, action@, target, value, menu_path),
{
    proof {
        reveal_strlit("click");
        reveal_strlit("keypress");
        reveal_strlit("set_field");
        reveal_strlit("menu");
    }
    if str_eq(action, "click") {
        match target {
            None => Err(
                DebugError::Protocol(owned("click action requires --target <widget_id>")),
            ),
            Some(t) => Ok(ControlRequest::click(owned(t))),
        }
    } else if str_eq(action, "keypress") {
        match target {
            None => Err(
                DebugError::Protocol(owned("keypress action requires --target <widget_id>")),
            ),
            Some(t) => match value {
                None => Err(
                    DebugError::Protocol(owned("keypress action requires --value <key_name>")),
                ),
                Some(v) => Ok(ControlRequest::keypress(owned(t), owned(v))),
            },
        }
    } else if str_eq(action, "set_field") {
        match target {
            None => Err(
                DebugError::Protocol(owned("set_field action requires --target <widget_id>")),
            ),
            Some(t) => match value {
                None => Err(
                    DebugError::Protocol(owned("set_field action requires --value <value>")),
                ),
                Some(v) => Ok(ControlRequest::set_field(owned(t), owned(v))),
            },
        }
    } else if str_eq(action, "menu") {
        match menu_path {
            None => Err(
                DebugError::Protocol(owned("menu action requires --menu-path <File,Save>")),
            ),
            Some(p) => Ok(ControlRequest::menu(menu_path_parts(p))),
        }
    } else {
        let mut m = owned("unknown action: ");
        m.append(action);
        m.append(" (valid: click, keypress, set_field, menu)");
        Err(DebugError::Protocol(m))
    }
}

/// The session timestamp: whole seconds since the Unix epoch, in decimal.
pub fn chrono_like_timestamp(secs: u64) -> (r: String)
    ensures
        r@ == decimal(secs as nat),
{
    decimal_text(secs)
}

// ── Debugging sessions ───────────────────────────────────────────────────────

/// The id of a debugging session: the given one, else the seconds since the
/// Unix epoch in decimal, else (without a clock) `session`.
pub fn session_id(given: Option<&str>, now_secs: Option<u64>) -> (r: String)
    ensures
        r@ == match (given, now_secs) {
            (Some(g), _) => g@,
            (None, Some(t)) => decimal(t as nat),
            (None, None) => "session"@,
        },
{
    match given {
        Some(g) => owned(g),
        None => match now_secs {
            Some(t) => decimal_text(t),
            None => owned("session"),
        },
    }
}

/// The action a session report names: the one performed, or `none`.
pub fn action_label(action: Option<&str>) -> (r: String)
    ensures
        r@ == match action {
            Some(a) => a@,
            None => "none"@,
        },
{
    match action {
        Some(a) => owned(a),
        None => owned("none"),
    }
}

/// What a debugging session has found missing so far.
#[derive(Debug)]
pub struct SessionNotes {
    /// Some evidence could not be collected.
    pub incomplete: bool,
    /// Why, one note per missing piece.
    pub notes: Vec<String>,
}

/// The note for the first screenshot of a session, if it brought no image.
pub open spec fn screenshot_note(r: ScreenshotResult) -> Option<Seq<char>> {
    match r {
        ScreenshotResult::Png(_) => None,
        ScreenshotResult::NotImplemented => Some(
            "screenshot_not_implemented: C8 xcap stub active"@,
        ),
        ScreenshotResult::Headless => Some("headless: no display"@),
    }
}

impl SessionNotes {
    /// Nothing missing yet.
    pub fn new() -> (n: Self)
        ensures
            !n.incomplete,
            n.notes@.len() == 0,
    {
        SessionNotes { incomplete: false, notes: Vec::new() }
    }

    /// Records the outcome of the screenshot taken before the action: without
    /// an image the session is incomplete and a note says why.
    pub fn record_screenshot(&mut self, r: &ScreenshotResult)
        ensures
            match screenshot_note(*r) {
                Some(t) => {
                    &&& final(self).incomplete
                    &&& final(self).notes@.len() == old(self).notes@.len() + 1
                    &&& final(self).notes@.drop_last() == old(self).notes@
                    &&& final(self).notes@.last()@ == t
                },
                None => *final(self) == *old(self),
            },
    {
        match r {
            ScreenshotResult::Png(_) => {},
            ScreenshotResult::NotImplemented => {
                self.incomplete = true;
                self.notes.push(owned("screenshot_not_implemented: C8 xcap stub active"));
            },
            ScreenshotResult::Headless => {
                self.incomplete = true;
                self.notes.push(owned("headless: no display"));
            },
        }
    }
}

// ── Session cleanup ──────────────────────────────────────────────────────────

/// One entry of a session directory listing.
#[derive(Debug, Clone)]
pub struct DirEntryInfo {
    /// Path of the entry, as text.
    pub path: String,
    /// Whether the entry is a regular file.
    pub is_file: bool,
    /// The file extension, if any.
    pub extension: Option<String>,
}

/// Equality ignoring ASCII case (std's `eq_ignore_ascii_case`).
pub open spec fn eq_ignore_ascii_case(a: Seq<char>, b: Seq<char>) -> bool {
    a.len() == b.len() && forall|i: int| 0 <= i < a.len() ==> ascii_lower(a[i]) == ascii_lower(b[i])
}

fn ascii_lower_char(c: char) -> (r: char)
    ensures
        r == ascii_lower(c),
{
    if 'A' <= c && c <= 'Z' {
        let b: u32 = c as u32 + 32;
        let r: u8 = b as u8;
        r as char
    } else {
        c
    }
}

/// Equality ignoring ASCII case.
pub fn str_eq_ignore_ascii_case(a: &str, b: &str) -> (r: bool)
    ensures
        r == eq_ignore_ascii_case(a@, b@),
{
    let la = a.unicode_len();
    let lb = b.unicode_len();
    if la != lb {
        return false;
    }
    let mut i: usize = 0;
    while i < la
        invariant
            la == a@.len(),
            lb == b@.len(),
            la == lb,
            i <= la,
            forall|j: int| 0 <= j < i ==> ascii_lower(a@[j]) == ascii_lower(b@[j]),
        decreases la - i,
    {
        if ascii_lower_char(a.get_char(i)) != ascii_lower_char(b.get_char(i)) {
            return false;
        }
        i = i + 1;
    }
    true
}

/// The entry is a regular file with extension `png` in any ASCII case.
pub open spec fn is_png_file(e: DirEntryInfo) -> bool {
    e.is_file && match e.extension {
        Some(x) => eq_ignore_ascii_case(x@, "png"@),
        None => false,
    }
}

/// Paths of the PNG files of a listing, in listing order.
pub open spec fn png_paths(entries: Seq<DirEntryInfo>) -> Seq<Seq<char>>
    decreases entries.len(),
{
    if entries.len() == 0 {
        Seq::empty()
    } else {
        png_paths(entries.drop_last()) + if is_png_file(entries.last()) {
            seq![entries.last().path@]
        } else {
            Seq::empty()
        }
    }
}

/// Which files of a session directory to delete: every PNG file of its listing,
/// or an I/O error when the session directory does not exist.
pub fn cleanup_session(session_dir: &str, exists: bool, entries: &Vec<DirEntryInfo>) -> (r: Result<
    Vec<String>,
    DebugError,
>)
    ensures
        !exists ==> (r matches Err(DebugError::Io(m)) && m@ == "session directory not found: "@
            + session_dir@),
        exists ==> (r matches Ok(paths) && paths@.map_values(|p: String| p@) == png_paths(
            entries@,
        )),
{
    if !exists {
        let mut m = owned("session directory not found: ");
        m.append(session_dir);
        return Err(DebugError::Io(m));
    }
    Ok(png_files(entries))
}

/// The paths of the PNG files of a directory listing (regular files whose
/// extension is `png` in any ASCII case), in listing order.
pub fn png_files(entries: &Vec<DirEntryInfo>) -> (r: Vec<String>)
    ensures
        r@.map_values(|p: String| p@) == png_paths(entries@),
{
    let mut out: Vec<String> = Vec::new();
    let n = entries.len();
    let mut i: usize = 0;
    while i < n
        invariant
            n == entries@.len(),
            i <= n,
            out@.map_values(|p: String| p@) == png_paths(entries@.take(i as int)),
        decreases n - i,
    {
        let e = &entries[i];
        let png = e.is_file && match &e.extension {
            Some(x) => str_eq_ignore_ascii_case(x.as_str(), "png"),
            None => false,
        };
        if png {
            out.push(e.path.clone());
        }
        proof {
            let t = entries@.take(i + 1);
            assert(t.drop_last() =~= entries@.take(i as int));
            assert(t.last() == entries@[i as int]);
            assert(out@.map_values(|p: String| p@) =~= png_paths(t));
        }
        i = i + 1;
    }
    assert(entries@.take(n as int) =~= entries@);
    out
}

/// Right after a screenshot the full interval must pass; a wait shrinks as
/// time passes and is gone once the interval has elapsed.
pub proof fn lemma_wait_after_record(min_interval: u64, taken: u64, now: u64)
    requires
        taken <= now,
    ensures
        wait_needed(Some(taken), min_interval, taken) == min_interval,
        now - taken < min_interval ==> wait_needed(Some(taken), min_interval, now) == min_interval
            - (now - taken),
        now - taken >= min_interval ==> wait_needed(Some(taken), min_interval, now) == 0,
{
}

} // verus!
