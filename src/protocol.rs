//! The newline-delimited text protocol spoken with the privileged helper.
use vstd::prelude::*;
use vstd::string::StrSliceExecFns;
use vstd::string::StringExecFns;

verus! {

/// Unicode `White_Space`: the characters that `str::trim` removes.
pub open spec fn is_white_space(c: char) -> bool {
    let n = c as u32;
    (0x9 <= n && n <= 0xd) || n == 0x20 || n == 0x85 || n == 0xa0 || n == 0x1680 || (0x2000 <= n
        && n <= 0x200a) || n == 0x2028 || n == 0x2029 || n == 0x202f || n == 0x205f || n == 0x3000
}

/// `s` without its leading white space.
pub open spec fn trim_front(s: Seq<char>) -> Seq<char>
    decreases s.len(),
{
    if s.len() > 0 && is_white_space(s[0]) {
        trim_front(s.drop_first())
    } else {
        s
    }
}

/// `s` without its trailing white space.
pub open spec fn trim_back(s: Seq<char>) -> Seq<char>
    decreases s.len(),
{
    if s.len() > 0 && is_white_space(s.last()) {
        trim_back(s.drop_last())
    } else {
        s
    }
}

/// `s` without leading and trailing white space.
pub open spec fn trimmed(s: Seq<char>) -> Seq<char> {
    trim_back(trim_front(s))
}

pub open spec fn is_prefix(p: Seq<char>, s: Seq<char>) -> bool {
    p.len() <= s.len() && s.subrange(0, p.len() as int) == p
}

/// `w` occurs in `s` as a contiguous run of characters.
pub open spec fn seq_contains(s: Seq<char>, w: Seq<char>) -> bool {
    exists|i: int| 0 <= i && i + w.len() <= s.len() && #[trigger] s.subrange(i, i + w.len()) == w
}

/// What the helper says on one line.
pub enum HelperDirective {
    /// `PAM_PROMPT_ECHO_OFF <prompt>`: the helper asks for a hidden value.
    EchoOffPrompt { prompt: String },
    /// `PAM_TEXT_INFO <text>`: an informational message.
    TextInfo { text: String },
    /// `FAILURE`: the attempt was rejected.
    Failure,
    /// `SUCCESS`: the credential was accepted.
    Success,
    /// Anything else; tolerated and ignored.
    Unrecognized,
}

pub enum DirectiveModel {
    EchoOffPrompt { prompt: Seq<char> },
    TextInfo { text: Seq<char> },
    Failure,
    Success,
    Unrecognized,
}

impl View for HelperDirective {
    type V = DirectiveModel;

    open spec fn view(&self) -> DirectiveModel {
        match self {
            HelperDirective::EchoOffPrompt { prompt } => DirectiveModel::EchoOffPrompt {
                prompt: prompt@,
            },
            HelperDirective::TextInfo { text } => DirectiveModel::TextInfo { text: text@ },
            HelperDirective::Failure => DirectiveModel::Failure,
            HelperDirective::Success => DirectiveModel::Success,
            HelperDirective::Unrecognized => DirectiveModel::Unrecognized,
        }
    }
}

pub open spec fn echo_off_tag() -> Seq<char> {
    "PAM_PROMPT_ECHO_OFF"@
}

pub open spec fn text_info_tag() -> Seq<char> {
    "PAM_TEXT_INFO"@
}

pub open spec fn failure_tag() -> Seq<char> {
    "FAILURE"@
}

pub open spec fn success_tag() -> Seq<char> {
    "SUCCESS"@
}

pub open spec fn password_prompt() -> Seq<char> {
    "Password:"@
}

/// How one line of helper output is read: the tags are tried in this order,
/// and the text after a prompt or info tag is trimmed.
pub open spec fn directive_of(line: Seq<char>) -> DirectiveModel {
    if is_prefix(echo_off_tag(), line) {
        DirectiveModel::EchoOffPrompt {
            prompt: trimmed(line.subrange(echo_off_tag().len() as int, line.len() as int)),
        }
    } else if is_prefix(text_info_tag(), line) {
        DirectiveModel::TextInfo {
            text: trimmed(line.subrange(text_info_tag().len() as int, line.len() as int)),
        }
    } else if is_prefix(failure_tag(), line) {
        DirectiveModel::Failure
    } else if is_prefix(success_tag(), line) {
        DirectiveModel::Success
    } else {
        DirectiveModel::Unrecognized
    }
}

/// The text names a unit of time.
pub open spec fn names_time_unit(text: Seq<char>) -> bool {
    seq_contains(text, "second"@) || seq_contains(text, "minute"@) || seq_contains(text, "hour"@)
}

/// An info text that announces a lockout: it names a time unit and a lock.
pub open spec fn lockout_notice(text: Seq<char>) -> bool {
    names_time_unit(text) && seq_contains(text, "lock"@)
}

/// A line that ends the helper's attempt: a verdict.
pub open spec fn is_verdict(line: Seq<char>) -> bool {
    directive_of(line) is Failure || directive_of(line) is Success
}

fn is_white_space_char(c: char) -> (r: bool)
    ensures
        r == is_white_space(c),
{
    let n = c as u32;
    (0x9 <= n && n <= 0xd) || n == 0x20 || n == 0x85 || n == 0xa0 || n == 0x1680 || (0x2000 <= n
        && n <= 0x200a) || n == 0x2028 || n == 0x2029 || n == 0x202f || n == 0x205f || n == 0x3000
}

/// Removes leading and trailing white space.
pub fn trim(s: &str) -> (r: String)
    ensures
        r@ == trimmed(s@),
{
    let n = s.unicode_len();
    let mut i: usize = 0;
    assert(s@.subrange(0, n as int) =~= s@);
    while i < n && is_white_space_char(s.get_char(i))
        invariant
            n == s@.len(),
            i <= n,
            trim_front(s@) == trim_front(s@.subrange(i as int, n as int)),
        decreases n - i,
    {
        assert(s@.subrange(i as int, n as int).drop_first() =~= s@.subrange(
            i as int + 1,
            n as int,
        ));
        i = i + 1;
    }
    let ghost front = s@.subrange(i as int, n as int);
    assert(trim_front(front) == front);
    let mut j: usize = n;
    while j > i && is_white_space_char(s.get_char(j - 1))
        invariant
            n == s@.len(),
            i <= j <= n,
            front == s@.subrange(i as int, n as int),
            trim_back(front) == trim_back(s@.subrange(i as int, j as int)),
        decreases j,
    {
        assert(s@.subrange(i as int, j as int).drop_last() =~= s@.subrange(
            i as int,
            j as int - 1,
        ));
        j = j - 1;
    }
    s.substring_char(i, j).to_owned()
}

/// Whether `s` starts with `p`.
pub fn has_prefix(s: &str, p: &str) -> (r: bool)
    ensures
        r == is_prefix(p@, s@),
{
    let n = s.unicode_len();
    let m = p.unicode_len();
    if m > n {
        return false;
    }
    let mut k: usize = 0;
    while k < m
        invariant
            n == s@.len(),
            m == p@.len(),
            m <= n,
            k <= m,
            forall|t: int| 0 <= t < k ==> s@[t] == p@[t],
        decreases m - k,
    {
        if s.get_char(k) != p.get_char(k) {
            assert(s@.subrange(0, m as int)[k as int] != p@[k as int]);
            return false;
        }
        k = k + 1;
    }
    assert(s@.subrange(0, m as int) =~= p@);
    true
}

/// Whether the two strings hold the same characters.
pub fn str_equals(a: &str, b: &str) -> (r: bool)
    ensures
        r == (a@ == b@),
{
    if a.unicode_len() != b.unicode_len() {
        return false;
    }
    let r = has_prefix(a, b);
    assert(a@ =~= a@.subrange(0, b@.len() as int));
    r
}

/// Whether `w` occurs in `s`.
pub fn str_contains(s: &str, w: &str) -> (r: bool)
    ensures
        r == seq_contains(s@, w@),
{
    let n = s.unicode_len();
    let m = w.unicode_len();
    if m > n {
        assert forall|i: int| 0 <= i && i + m <= n implies #[trigger] s@.subrange(i, i + m) != w@ by {}
        return false;
    }
    if m == 0 {
        assert(s@.subrange(0, 0 + w@.len() as int) =~= w@);
        return true;
    }
    let mut i: usize = 0;
    while i <= n - m
        invariant
            n == s@.len(),
            m == w@.len(),
            1 <= m <= n,
            forall|t: int| 0 <= t < i ==> #[trigger] s@.subrange(t, t + m) != w@,
        decreases n - m + 1 - i,
    {
        let mut k: usize = 0;
        let mut same = true;
        while k < m
            invariant
                n == s@.len(),
                m == w@.len(),
                i + m <= n,
                k <= m,
                same ==> forall|t: int| 0 <= t < k ==> s@[i + t] == w@[t],
                !same ==> s@.subrange(i as int, i + m) != w@,
            decreases m - k,
        {
            if same && s.get_char(i + k) != w.get_char(k) {
                assert(s@.subrange(i as int, i + m)[k as int] != w@[k as int]);
                same = false;
            }
            k = k + 1;
        }
        if same {
            assert(s@.subrange(i as int, i + m) =~= w@);
            return true;
        }
        i = i + 1;
    }
    false
}

/// Reads one line of helper output.
pub fn parse_helper_line(line: &str) -> (r: HelperDirective)
    ensures
        r@ == directive_of(line@),
{
    let n = line.unicode_len();
    if has_prefix(line, "PAM_PROMPT_ECHO_OFF") {
        let rest = line.substring_char("PAM_PROMPT_ECHO_OFF".unicode_len(), n);
        HelperDirective::EchoOffPrompt { prompt: trim(rest) }
    } else if has_prefix(line, "PAM_TEXT_INFO") {
        let rest = line.substring_char("PAM_TEXT_INFO".unicode_len(), n);
        HelperDirective::TextInfo { text: trim(rest) }
    } else if has_prefix(line, "FAILURE") {
        HelperDirective::Failure
    } else if has_prefix(line, "SUCCESS") {
        HelperDirective::Success
    } else {
        HelperDirective::Unrecognized
    }
}

/// Whether an info text announces a lockout, which is shown to the user at once.
pub fn is_lockout_notice(text: &str) -> (r: bool)
    ensures
        r == lockout_notice(text@),
{
    (str_contains(text, "second") || str_contains(text, "minute") || str_contains(text, "hour"))
        && str_contains(text, "lock")
}

/// Whether a line of helper output is a verdict, after which the helper
/// says nothing more for this attempt.
pub fn ends_attempt(line: &str) -> (r: bool)
    ensures
        r == is_verdict(line@),
{
    match parse_helper_line(line) {
        HelperDirective::Failure => true,
        HelperDirective::Success => true,
        _ => false,
    }
}

/// The reply to the helper's password prompt: the password and a newline.
pub fn password_reply(password: String) -> (r: String)
    ensures
        r@ == password@ + "\n"@,
{
    password.concat("\n")
}

/// How the helper conversation was opened.
#[derive(PartialEq, Eq, Structural, Clone, Copy, Debug)]
pub enum HelperEndpoint {
    /// A persistent helper service; it learns the user from the handshake.
    Persistent,
    /// A helper process spawned for one attempt, with the user as argument.
    Spawned,
}

/// The first text written to the helper, before any of its output is read.
pub open spec fn handshake_text(endpoint: HelperEndpoint, username: Seq<char>, cookie: Seq<char>) -> Seq<char> {
    match endpoint {
        HelperEndpoint::Persistent => username + "\n"@ + cookie + "\n"@,
        HelperEndpoint::Spawned => cookie + "\n"@,
    }
}

/// The handshake: `<username>\n<cookie>\n` for a persistent helper,
/// `<cookie>\n` for a spawned one.
pub fn handshake(endpoint: HelperEndpoint, username: &str, cookie: &str) -> (r: String)
    ensures
        r@ == handshake_text(endpoint, username@, cookie@),
{
    match endpoint {
        HelperEndpoint::Persistent => {
            let mut r = username.to_owned();
            r.append("\n");
            r.append(cookie);
            r.append("\n");
            r
        },
        HelperEndpoint::Spawned => {
            let mut r = cookie.to_owned();
            r.append("\n");
            r
        },
    }
}

} // verus!
