//! Merge-approval helper: a requester publishes a GitLab merge request to
//! the team, an approver's client approves it on GitLab and answers.
use vstd::prelude::*;

pub mod pubsub;
pub mod store;
pub mod text;
pub mod tray;

use crate::pubsub::gitlab::User;
use crate::text::{
    before_char, chars_of, decimal, find_at_or_after, find_first, has_at, is_digit,
    lemma_decimal_digits, lemma_find_from_bounds, lemma_find_skip, lemma_occurs_prefix, lemma_parse_decimal, occurs_at,
    parse_error_text, parse_u64_range, push_str, spec_parse_u64, starts_with, str_eq,
    str_starts_with, string_of_range, strip_prefix, sub_vec, ParseIntErrorKind,
};

verus! {

/// What the application keeps between commands: whether the log stream to
/// the user interface has been started, and the current GitLab user once known.
#[derive(Debug)]
pub struct AppData {
    once_push_log: bool,
    me: Option<User>,
}

impl AppData {
    /// Whether the log stream has been started.
    pub closed spec fn log_streaming(&self) -> bool {
        self.once_push_log
    }

    /// The current user, once known.
    pub closed spec fn known_me(&self) -> Option<User> {
        self.me
    }
}

/// `d` with its log stream started.
pub closed spec fn started(d: AppData) -> AppData {
    AppData { once_push_log: true, me: d.me }
}

impl AppData {
    /// Nothing started, nobody known.
    pub fn new() -> (r: Self)
        ensures
            !r.log_streaming(),
            r.known_me() is None,
    {
        AppData { once_push_log: false, me: None }
    }

    /// Marks the log stream as started; true when it was not started before,
    /// that is, when the caller is the one to run it.
    pub fn begin_push_log(&mut self) -> (first: bool)
        ensures
            first == !old(self).log_streaming(),
            *final(self) == started(*old(self)),
    {
        let first = !self.once_push_log;
        self.once_push_log = true;
        first
    }

    /// The current user, once known.
    pub fn cached_me(&self) -> (r: Option<&User>)
        ensures
            match (r, self.known_me()) {
                (Some(u), Some(m)) => *u == m,
                (None, None) => true,
                _ => false,
            },
    {
        match &self.me {
            Some(u) => Some(u),
            None => None,
        }
    }

    /// Remembers `me` as the current user.
    pub fn remember_me(&mut self, me: User)
        ensures
            final(self).known_me() == Some(me),
            final(self).log_streaming() == old(self).log_streaming(),
    {
        self.me = Some(me);
    }
}

/// The log stream is started once: a start after a start changes nothing
/// and reports that the stream runs already; starting never touches the
/// current user.
pub proof fn law_log_stream_starts_once(d: AppData)
    ensures
        started(started(d)) == started(d),
        started(d).log_streaming(),
        started(d).known_me() == d.known_me(),
{
}

/// The severity of a log record, most severe first.
#[derive(Debug, Clone, Copy, PartialEq, Eq, Structural)]
pub enum LogLevel {
    Error,
    Warn,
    Info,
    Debug,
    Trace,
}

/// The name of a severity, as logs print it.
pub open spec fn level_name(l: LogLevel) -> Seq<char> {
    match l {
        LogLevel::Error => seq!['E', 'R', 'R', 'O', 'R'],
        LogLevel::Warn => seq!['W', 'A', 'R', 'N'],
        LogLevel::Info => seq!['I', 'N', 'F', 'O'],
        LogLevel::Debug => seq!['D', 'E', 'B', 'U', 'G'],
        LogLevel::Trace => seq!['T', 'R', 'A', 'C', 'E'],
    }
}

/// The terminal colour in which records of a severity are printed.
pub open spec fn level_color(l: LogLevel) -> Seq<char> {
    match l {
        LogLevel::Debug => seq!['\u{1b}', '[', '9', '0', 'm'],
        LogLevel::Info => seq!['\u{1b}', '[', '3', '7', 'm'],
        LogLevel::Warn => seq!['\u{1b}', '[', '3', '3', 'm'],
        LogLevel::Error => seq!['\u{1b}', '[', '3', '1', 'm'],
        LogLevel::Trace => seq!['\u{1b}', '[', '3', '2', 'm'],
    }
}

/// The code that restores the terminal's default colour.
pub open spec fn color_reset_code() -> Seq<char> {
    seq!['\u{1b}', '[', '3', '9', 'm']
}

/// `inline_colorization::color_bright_black`: the code of the bright black
/// foreground, ESC `[90m`.
#[verifier::external_body]
fn color_bright_black() -> (s: &'static str)
    ensures
        s@ == seq!['\u{1b}', '[', '9', '0', 'm'],
{
    inline_colorization::color_bright_black
}

/// `inline_colorization::color_white`: the code of the white foreground, ESC `[37m`.
#[verifier::external_body]
fn color_white() -> (s: &'static str)
    ensures
        s@ == seq!['\u{1b}', '[', '3', '7', 'm'],
{
    inline_colorization::color_white
}

/// `inline_colorization::color_yellow`: the code of the yellow foreground, ESC `[33m`.
#[verifier::external_body]
fn color_yellow() -> (s: &'static str)
    ensures
        s@ == seq!['\u{1b}', '[', '3', '3', 'm'],
{
    inline_colorization::color_yellow
}

/// `inline_colorization::color_red`: the code of the red foreground, ESC `[31m`.
#[verifier::external_body]
fn color_red() -> (s: &'static str)
    ensures
        s@ == seq!['\u{1b}', '[', '3', '1', 'm'],
{
    inline_colorization::color_red
}

/// `inline_colorization::color_green`: the code of the green foreground, ESC `[32m`.
#[verifier::external_body]
fn color_green() -> (s: &'static str)
    ensures
        s@ == seq!['\u{1b}', '[', '3', '2', 'm'],
{
    inline_colorization::color_green
}

/// `inline_colorization::color_reset`: the code of the default foreground, ESC `[39m`.
#[verifier::external_body]
fn color_reset() -> (s: &'static str)
    ensures
        s@ == seq!['\u{1b}', '[', '3', '9', 'm'],
{
    inline_colorization::color_reset
}

impl LogLevel {
    /// The name of this severity, as logs print it.
    pub fn as_str(&self) -> (r: &'static str)
        ensures
            r@ == level_name(*self),
    {
        proof {
            reveal_strlit("ERROR");
            reveal_strlit("WARN");
            reveal_strlit("INFO");
            reveal_strlit("DEBUG");
            reveal_strlit("TRACE");
        }
        match self {
            LogLevel::Error => {
                assert("ERROR"@ =~= level_name(LogLevel::Error));
                "ERROR"
            },
            LogLevel::Warn => {
                assert("WARN"@ =~= level_name(LogLevel::Warn));
                "WARN"
            },
            LogLevel::Info => {
                assert("INFO"@ =~= level_name(LogLevel::Info));
                "INFO"
            },
            LogLevel::Debug => {
                assert("DEBUG"@ =~= level_name(LogLevel::Debug));
                "DEBUG"
            },
            LogLevel::Trace => {
                assert("TRACE"@ =~= level_name(LogLevel::Trace));
                "TRACE"
            },
        }
    }

    /// The terminal colour in which records of this severity are printed.
    pub fn color(&self) -> (r: &'static str)
        ensures
            r@ == level_color(*self),
    {
        match self {
            LogLevel::Debug => color_bright_black(),
            LogLevel::Info => color_white(),
            LogLevel::Warn => color_yellow(),
            LogLevel::Error => color_red(),
            LogLevel::Trace => color_green(),
        }
    }

    /// Whether this severity is at least as severe as `Info`.
    pub open spec fn at_most_info(self) -> bool {
        self == LogLevel::Error || self == LogLevel::Warn || self == LogLevel::Info
    }
}

/// The log targets whose records are kept only from `Info` up.
pub open spec fn quiet_target(target: Seq<char>) -> bool {
    starts_with(target, "reqwest"@) || starts_with(target, "gitlab"@)
}

/// Whether a record of `level` from `target` is logged.
pub open spec fn target_enabled(target: Seq<char>, level: LogLevel) -> bool {
    quiet_target(target) ==> level.at_most_info()
}

/// Whether a record of `level` from `target` is logged: the HTTP client and
/// the GitLab client log only from `Info` up, everything else at every level.
pub fn log_target_enabled(target: &str, level: LogLevel) -> (r: bool)
    ensures
        r == target_enabled(target@, level),
{
    if str_starts_with(target, "reqwest") || str_starts_with(target, "gitlab") {
        return match level {
            LogLevel::Error | LogLevel::Warn | LogLevel::Info => true,
            _ => false,
        };
    }
    true
}

/// Records from a target that begins with neither `reqwest` nor `gitlab` are
/// logged at every level; records from one that does are logged exactly at
/// the levels `Error`, `Warn` and `Info`.
pub proof fn law_log_filter(target: Seq<char>, level: LogLevel)
    ensures
        !starts_with(target, "reqwest"@) && !starts_with(target, "gitlab"@) ==> target_enabled(
            target,
            level,
        ),
        starts_with(target, "reqwest"@) || starts_with(target, "gitlab"@) ==> (target_enabled(
            target,
            level,
        ) <==> (level == LogLevel::Error || level == LogLevel::Warn || level == LogLevel::Info)),
{
}

/// The coloured line that shows a record of `level` with text `msg`, logged
/// on `date` at `time`.
pub open spec fn log_line(level: LogLevel, date: Seq<char>, time: Seq<char>, msg: Seq<char>) -> Seq<
    char,
> {
    level_color(level) + "["@ + date + "]["@ + time + "]["@ + level_name(level) + "] "@ + msg
        + color_reset_code()
}

/// The coloured line that shows a record of `level` with text `msg`, logged
/// on `date` at `time`.
pub fn format_log_line(level: LogLevel, date: &str, time: &str, msg: &str) -> (r: String)
    ensures
        r@ == log_line(level, date@, time@, msg@),
{
    let mut r = String::new();
    push_str(&mut r, level.color());
    push_str(&mut r, "[");
    push_str(&mut r, date);
    push_str(&mut r, "][");
    push_str(&mut r, time);
    push_str(&mut r, "][");
    push_str(&mut r, level.as_str());
    push_str(&mut r, "] ");
    push_str(&mut r, msg);
    push_str(&mut r, color_reset());
    r
}

/// Whether closing the window labelled `label` hides it rather than quitting:
/// so for the main window.
pub fn hides_on_close(label: &str) -> (r: bool)
    ensures
        r == (label@ == "main"@),
{
    str_eq(label, "main")
}

/// The scheme that a merge request URL may begin with.
pub open spec fn https_scheme() -> Seq<char> {
    seq!['h', 't', 't', 'p', 's', ':', '/', '/']
}

/// The path segment between a project and a merge request's number.
pub open spec fn mr_marker() -> Seq<char> {
    seq!['/', '-', '/', 'm', 'e', 'r', 'g', 'e', '_', 'r', 'e', 'q', 'u', 'e', 's', 't', 's', '/']
}

/// Why a merge request URL was refused.
#[derive(Debug)]
pub enum ExtractionErr {
    DomainNotMatch { domain: String },
    PatternNotRecognized { pattern: String },
    MissingPidOrMid,
    InvalidMid { mid: String, error: ParseIntErrorKind },
}

/// The text that describes a refused merge request URL.
pub open spec fn extraction_error_text(e: ExtractionFailure) -> Seq<char> {
    match e {
        ExtractionFailure::DomainNotMatch { domain } => "invalid url, expect domain is "@ + domain,
        ExtractionFailure::PatternNotRecognized { pattern } => "pattern not recognized: "@
            + pattern,
        ExtractionFailure::MissingPidOrMid => "project or merge request id not found"@,
        ExtractionFailure::InvalidMid { mid, error } => "could not parse "@ + mid
            + " into a numeric mid: "@ + parse_error_text(error),
    }
}

impl ExtractionErr {
    /// The text that describes this refusal.
    pub fn message(&self) -> (r: String)
        ensures
            r@ == extraction_error_text(self@),
    {
        let mut r = String::new();
        match self {
            ExtractionErr::DomainNotMatch { domain } => {
                push_str(&mut r, "invalid url, expect domain is ");
                push_str(&mut r, domain.as_str());
            },
            ExtractionErr::PatternNotRecognized { pattern } => {
                push_str(&mut r, "pattern not recognized: ");
                push_str(&mut r, pattern.as_str());
            },
            ExtractionErr::MissingPidOrMid => {
                push_str(&mut r, "project or merge request id not found");
            },
            ExtractionErr::InvalidMid { mid, error } => {
                push_str(&mut r, "could not parse ");
                push_str(&mut r, mid.as_str());
                push_str(&mut r, " into a numeric mid: ");
                push_str(&mut r, error.description());
            },
        }
        r
    }
}

/// The same refusal over character sequences.
pub enum ExtractionFailure {
    DomainNotMatch { domain: Seq<char> },
    PatternNotRecognized { pattern: Seq<char> },
    MissingPidOrMid,
    InvalidMid { mid: Seq<char>, error: ParseIntErrorKind },
}

impl View for ExtractionErr {
    type V = ExtractionFailure;

    open spec fn view(&self) -> ExtractionFailure {
        match self {
            ExtractionErr::DomainNotMatch { domain } => ExtractionFailure::DomainNotMatch {
                domain: domain@,
            },
            ExtractionErr::PatternNotRecognized { pattern } =>
                ExtractionFailure::PatternNotRecognized { pattern: pattern@ },
            ExtractionErr::MissingPidOrMid => ExtractionFailure::MissingPidOrMid,
            ExtractionErr::InvalidMid { mid, error } => ExtractionFailure::InvalidMid {
                mid: mid@,
                error: *error,
            },
        }
    }
}

/// Where the path of `url` begins: one character past the domain, once the
/// scheme is stripped. The character there must be a single byte for the
/// path to be sliced at it; this holds whenever the domain does not match.
pub open spec fn path_start_in_bounds(url: Seq<char>, domain: Seq<char>) -> bool {
    let s = strip_prefix(url, https_scheme());
    starts_with(s, domain) ==> (s.len() > domain.len() && (s[domain.len() as int] as u32) < 128)
}

/// The project path and merge request number named by `url`, or why there are none.
pub open spec fn spec_extract(url: Seq<char>, domain: Seq<char>) -> Result<
    (Seq<char>, u64),
    ExtractionFailure,
> {
    let s = strip_prefix(url, https_scheme());
    if !starts_with(s, domain) {
        Err(ExtractionFailure::DomainNotMatch { domain })
    } else {
        let path = s.skip(domain.len() + 1int);
        match find_first(path, mr_marker()) {
            None => Err(ExtractionFailure::PatternNotRecognized { pattern: mr_marker() }),
            Some(i) => {
                let mid_text = path.skip(i + mr_marker().len());
                match spec_parse_u64(before_char(mid_text, '?')) {
                    Ok(mid) => Ok((path.take(i), mid)),
                    Err(error) => Err(ExtractionFailure::InvalidMid { mid: mid_text, error }),
                }
            },
        }
    }
}

/// The result of an extraction over character sequences.
pub open spec fn extraction_view(r: Result<(String, u64), ExtractionErr>) -> Result<
    (Seq<char>, u64),
    ExtractionFailure,
> {
    match r {
        Ok((pid, mid)) => Ok((pid@, mid)),
        Err(e) => Err(e@),
    }
}

/// Whether `extract_pid_and_mid` can slice `url` past `expected_domain`.
pub fn path_start_is_valid(url: &str, expected_domain: &str) -> (b: bool)
    ensures
        b == path_start_in_bounds(url@, expected_domain@),
{
    let u = chars_of(url);
    let ulen = u.len();
    let d = chars_of(expected_domain);
    let scheme = chars_of("https://");
    proof {
        reveal_strlit("https://");
        assert(scheme@ =~= https_scheme());
    }
    let start = if has_at(&u, 0, &scheme) {
        scheme.len()
    } else {
        0
    };
    let ghost s = strip_prefix(u@, https_scheme());
    assert(s =~= u@.subrange(start as int, u@.len() as int));
    if !has_at(&u, start, &d) {
        assert(!starts_with(s, d@)) by {
            if starts_with(s, d@) {
                assert(u@.subrange(start as int, start + d@.len()) =~= s.subrange(0, d@.len() as int));
            }
        }
        return true;
    }
    assert(starts_with(s, d@)) by {
        assert(u@.subrange(start as int, start + d@.len()) =~= s.subrange(0, d@.len() as int));
    }
    let at = start + d.len();
    at < u.len() && (u[at] as u32) < 128
}

/// Splits a merge request URL such as
/// `https://gitlab.example.com/group/project/-/merge_requests/42?tab=diffs`
/// into the project path (`group/project`) and the merge request number (42).
pub fn extract_pid_and_mid(url: &str, expected_domain: &str) -> (r: Result<(String, u64), ExtractionErr>)
    requires
        path_start_in_bounds(url@, expected_domain@),
    ensures
        extraction_view(r) == spec_extract(url@, expected_domain@),
{
    let u = chars_of(url);
    let ulen = u.len();
    let d = chars_of(expected_domain);
    let scheme = chars_of("https://");
    proof {
        reveal_strlit("https://");
        assert(scheme@ =~= https_scheme());
    }
    let start = if has_at(&u, 0, &scheme) {
        scheme.len()
    } else {
        0
    };
    let ghost s = strip_prefix(u@, https_scheme());
    assert(s =~= u@.subrange(start as int, u@.len() as int));
    if !has_at(&u, start, &d) {
        assert(!starts_with(s, d@)) by {
            if starts_with(s, d@) {
                assert(u@.subrange(start as int, start + d@.len()) =~= s.subrange(0, d@.len() as int));
            }
        }
        return Err(ExtractionErr::DomainNotMatch { domain: expected_domain.to_owned() });
    }
    assert(starts_with(s, d@)) by {
        assert(u@.subrange(start as int, start + d@.len()) =~= s.subrange(0, d@.len() as int));
    }
    let path = sub_vec(&u, start + d.len() + 1, u.len());
    assert(path@ =~= s.skip(d@.len() + 1int));
    let marker_text = "/-/merge_requests/";
    let marker = chars_of(marker_text);
    proof {
        reveal_strlit("/-/merge_requests/");
        assert(marker@ =~= mr_marker());
    }
    let found = find_at_or_after(&path, &marker, 0);
    let marker_index = match found {
        None => {
            return Err(ExtractionErr::PatternNotRecognized { pattern: marker_text.to_owned() });
        },
        Some(i) => i,
    };
    let pid = string_of_range(&path, 0, marker_index);
    let mid_text = sub_vec(&path, marker_index + marker.len(), path.len());
    assert(mid_text@ =~= path@.skip(marker_index + mr_marker().len()));
    let question = chars_of("?");
    proof {
        reveal_strlit("?");
        assert(question@ =~= seq!['?']);
    }
    let head_end = match find_at_or_after(&mid_text, &question, 0) {
        Some(j) => j,
        None => mid_text.len(),
    };
    assert(mid_text@.subrange(0, head_end as int) =~= before_char(mid_text@, '?'));
    match parse_u64_range(&mid_text, 0, head_end) {
        Ok(mid) => {
            assert(pid@ =~= path@.take(marker_index as int));
            Ok((pid, mid))
        },
        Err(error) => {
            let mid_string = string_of_range(&mid_text, 0, mid_text.len());
            assert(mid_string@ =~= mid_text@);
            Err(ExtractionErr::InvalidMid { mid: mid_string, error })
        },
    }
}

/// The URL of merge request `mid` of project `pid` on `domain`, followed by `query`.
pub open spec fn merge_request_url(domain: Seq<char>, pid: Seq<char>, mid: u64, query: Seq<char>) -> Seq<
    char,
> {
    https_scheme() + domain + seq!['/'] + pid + mr_marker() + decimal(mid as nat) + query
}

/// A merge request URL yields the project path and the merge request number
/// it was made of, whatever query follows the number, provided the marker
/// does not begin inside the project path.
pub proof fn law_merge_request_url_round_trip(
    domain: Seq<char>,
    pid: Seq<char>,
    mid: u64,
    query: Seq<char>,
)
    requires
        forall|j: int| 0 <= j < pid.len() ==> !#[trigger] occurs_at(pid + mr_marker(), mr_marker(), j),
        query.len() == 0 || query[0] == '?',
    ensures
        path_start_in_bounds(merge_request_url(domain, pid, mid, query), domain),
        spec_extract(merge_request_url(domain, pid, mid, query), domain) == Ok::<
            (Seq<char>, u64),
            ExtractionFailure,
        >((pid, mid)),
{
    let url = merge_request_url(domain, pid, mid, query);
    let dec = decimal(mid as nat);
    let m = mr_marker();
    assert(url.subrange(0, 8) =~= https_scheme());
    let s = strip_prefix(url, https_scheme());
    assert(s =~= domain + seq!['/'] + (pid + m + dec + query));
    assert(s.subrange(0, domain.len() as int) =~= domain);
    assert(s[domain.len() as int] == '/');
    let path = s.skip(domain.len() + 1int);
    assert(path =~= (pid + m) + (dec + query));
    assert forall|j: int| 0 <= j < pid.len() implies !#[trigger] occurs_at(path, m, j) by {
        lemma_occurs_prefix(pid + m, dec + query, m, j);
    }
    lemma_find_skip(path, m, 0, pid.len() as int);
    assert(path.subrange(pid.len() as int, (pid.len() + m.len()) as int) =~= m);
    assert(find_first(path, m) == Some(pid.len() as int));
    let mid_text = path.skip((pid.len() + m.len()) as int);
    assert(mid_text =~= dec + query);
    lemma_decimal_digits(mid as nat);
    assert forall|j: int| 0 <= j < dec.len() implies !#[trigger] occurs_at(mid_text, seq!['?'], j) by {
        if occurs_at(mid_text, seq!['?'], j) {
            assert(mid_text.subrange(j, j + 1)[0] == mid_text[j]);
            assert(is_digit(dec[j]));
        }
    }
    lemma_find_skip(mid_text, seq!['?'], 0, dec.len() as int);
    if query.len() > 0 {
        assert(mid_text.subrange(dec.len() as int, dec.len() + 1int) =~= seq!['?']);
        assert(mid_text.take(dec.len() as int) =~= dec);
    } else {
        assert(mid_text =~= dec);
    }
    assert(before_char(mid_text, '?') == dec);
    lemma_parse_decimal(mid);
    assert(path.take(pid.len() as int) =~= pid);
}

/// A URL that, past an optional `https://`, does not begin with the domain is
/// refused as naming another domain; a project path that comes out holds no
/// merge-request marker, and comes out only for a URL on the domain.
pub proof fn law_extraction_outcomes(url: Seq<char>, domain: Seq<char>)
    ensures
        !starts_with(strip_prefix(url, https_scheme()), domain) ==> spec_extract(url, domain)
            == Err::<(Seq<char>, u64), ExtractionFailure>(
            ExtractionFailure::DomainNotMatch { domain },
        ),
        spec_extract(url, domain) matches Ok((pid, mid)) ==> starts_with(
            strip_prefix(url, https_scheme()),
            domain,
        ) && (forall|j: int| 0 <= j ==> !#[trigger] occurs_at(pid, mr_marker(), j)),
{
    let s = strip_prefix(url, https_scheme());
    if starts_with(s, domain) {
        let path = s.skip(domain.len() + 1int);
        lemma_find_from_bounds(path, mr_marker(), 0);
        if let Some(i) = find_first(path, mr_marker()) {
            let pid = path.take(i);
            assert forall|j: int| 0 <= j implies !#[trigger] occurs_at(pid, mr_marker(), j) by {
                if occurs_at(pid, mr_marker(), j) {
                    assert(pid.subrange(j, j + mr_marker().len()) =~= path.subrange(
                        j,
                        j + mr_marker().len(),
                    ));
                    assert(occurs_at(path, mr_marker(), j));
                }
            }
        }
    }
}

/// The `https://` scheme in front of a URL changes nothing of what it yields.
pub proof fn law_scheme_is_optional(url: Seq<char>, domain: Seq<char>)
    requires
        !starts_with(url, https_scheme()),
    ensures
        spec_extract(https_scheme() + url, domain) == spec_extract(url, domain),
        path_start_in_bounds(https_scheme() + url, domain) == path_start_in_bounds(url, domain),
{
    assert((https_scheme() + url).subrange(0, 8) =~= https_scheme());
    assert((https_scheme() + url).skip(8) =~= url);
}

} // verus!
