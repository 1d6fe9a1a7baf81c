//! The local repository state: the head commit and the `(owner, repository)`
//! pair read off the configured remote URL.
//!
//! The caller probes the repository on disk — does one exist at the current
//! working directory, what is HEAD's short identifier, which `remote.*.url`
//! entries does the effective configuration list, in its order — and hands
//! the findings here as plain values. Everything after the probe is decided
//! in this module: the first remote URL that parses as a forge URL wins
//! (among the URL shapes the parser provably returns on; see `get_remote`),
//! and each way the probe can fall short maps to its own typed failure.

use vstd::prelude::*;

use crate::error::StateError;

verus! {

/// The mathematical shape of a parsed remote: an optional owner and a name.
pub ghost struct RemoteModel {
    pub owner: Option<Seq<char>>,
    pub name: Seq<char>,
}

/// The `(owner, repository)` pair a remote URL names. The owner may be
/// absent for URL shapes that omit it; construction still succeeds, and the
/// callers that need an owner report its absence as a recoverable failure.
#[derive(Debug)]
pub struct GitRemote {
    pub owner: Option<String>,
    pub name: String,
}

impl View for GitRemote {
    type V = RemoteModel;

    open spec fn view(&self) -> RemoteModel {
        RemoteModel {
            owner: match self.owner {
                Some(o) => Some(o@),
                None => None,
            },
            name: self.name@,
        }
    }
}

/// The mathematical shape of the repository state.
pub ghost struct StateModel {
    pub head_sha: Seq<char>,
    pub git_remote: RemoteModel,
}

/// The local repository state: HEAD's short identifier and the parsed
/// remote. A pure read of the repository; never mutated after construction.
#[derive(Debug)]
pub struct State {
    pub head_sha: String,
    pub git_remote: GitRemote,
}

impl View for State {
    type V = StateModel;

    open spec fn view(&self) -> StateModel {
        StateModel { head_sha: self.head_sha@, git_remote: self.git_remote@ }
    }
}

/// What parsing a remote URL yields: nothing for text that is no forge URL,
/// else the optional owner and the repository name. The trusted item
/// characterizes this name only on text admitted by `parser_safe_url`;
/// there the parse reads nothing but the string and takes no
/// platform-specific route (the shapes of native absolute file paths, whose
/// conversion is compiled per platform, are excluded), so equal text gives
/// an equal result on every machine. No proof here pins a concrete value of
/// this name.
pub uninterp spec fn parsed_remote(url: Seq<char>) -> Option<(Option<Seq<char>>, Seq<char>)>;

/// ASCII-case-insensitive character equality.
pub open spec fn ci_char_eq(a: char, b: char) -> bool {
    lower_ascii(a) == lower_ascii(b)
}

/// The code point of `c` with an ASCII capital letter folded to lower case.
pub open spec fn lower_ascii(c: char) -> int {
    if 'A' <= c && c <= 'Z' {
        c as int + 32
    } else {
        c as int
    }
}

/// The host name whose URL shapes the underlying parser mishandles.
pub open spec fn azure_host() -> Seq<char> {
    "dev.azure.com"@
}

/// Does `s` contain the Azure DevOps host name, in any ASCII casing,
/// starting at position `i`?
pub open spec fn azure_host_at(s: Seq<char>, i: int) -> bool {
    forall|j: int| 0 <= j < azure_host().len() ==> ci_char_eq(s[i + j], #[trigger] azure_host()[j])
}

/// Does `s` mention the Azure DevOps host name anywhere, in any ASCII
/// casing?
pub open spec fn mentions_azure_host(s: Seq<char>) -> bool {
    exists|i: int| 0 <= i && i + azure_host().len() <= s.len() && #[trigger] azure_host_at(s, i)
}

/// ASCII-case-insensitive character comparison.
fn chars_ci_eq(a: char, b: char) -> (r: bool)
    ensures
        r == ci_char_eq(a, b),
{
    let la: u32 = if 'A' <= a && a <= 'Z' {
        a as u32 + 32
    } else {
        a as u32
    };
    let lb: u32 = if 'A' <= b && b <= 'Z' {
        b as u32 + 32
    } else {
        b as u32
    };
    la == lb
}

/// Scan `s` for the Azure DevOps host name, in any ASCII casing.
pub fn text_mentions_azure_host(s: &str) -> (r: bool)
    ensures
        r == mentions_azure_host(s@),
{
    let pat = "dev.azure.com";
    let plen = pat.unicode_len();
    proof {
        reveal_strlit("dev.azure.com");
    }
    let n = s.unicode_len();
    if n < plen {
        return false;
    }
    let mut i: usize = 0;
    while i <= n - plen
        invariant
            n == s@.len(),
            plen == azure_host().len(),
            pat@ == azure_host(),
            plen <= n,
            i <= n - plen + 1,
            forall|k: int| 0 <= k < i ==> !azure_host_at(s@, k),
        decreases n + 1 - plen - i,
    {
        let mut j: usize = 0;
        let mut hit = true;
        while j < plen
            invariant
                n == s@.len(),
                plen == azure_host().len(),
                pat@ == azure_host(),
                plen <= n,
                i + plen <= n,
                j <= plen,
                hit == forall|j2: int| 0 <= j2 < j ==> ci_char_eq(
                    s@[i + j2],
                    #[trigger] azure_host()[j2],
                ),
            decreases plen - j,
        {
            if !chars_ci_eq(s.get_char(i + j), pat.get_char(j)) {
                hit = false;
                proof {
                    assert(!ci_char_eq(s@[i as int + j], azure_host()[j as int]));
                }
                j = plen;
            } else {
                j += 1;
            }
        }
        if hit {
            proof {
                assert(azure_host_at(s@, i as int));
            }
            return true;
        }
        proof {
            assert(!azure_host_at(s@, i as int));
        }
        i += 1;
    }
    proof {
        assert forall|k: int| 0 <= k && k + azure_host().len() <= s@.len() implies !azure_host_at(
            s@,
            k,
        ) by {
            assert(k < i);
        }
    }
    false
}

/// A visible ASCII character that the parser's input cleanup and host and
/// path handling cannot rewrite into something else: not `%`
/// (percent-decoded in hosts and dot segments), not `?` or `#` (they keep a
/// trailing separator from being trimmed), not `\` (a path separator under
/// some schemes and the native separator of one platform's file paths), not
/// a control character or space (stripped or trimmed before parsing), and
/// not a code point beyond ASCII (folded into ASCII host names).
pub open spec fn visible_remote_char(c: char) -> bool {
    0x21 <= (c as int) && (c as int) <= 0x7e && c != '%' && c != '?' && c != '#' && c != '\\'
}

/// Every character of `s` is a visible remote character.
pub open spec fn visible_remote_chars(s: Seq<char>) -> bool {
    forall|i: int| 0 <= i < s.len() ==> visible_remote_char(#[trigger] s[i])
}

/// An ASCII letter.
pub open spec fn ascii_letter(c: char) -> bool {
    ('a' <= c && c <= 'z') || ('A' <= c && c <= 'Z')
}

/// Does `s` start like a drive-letter path, `"<letter>:"`?
pub open spec fn drive_letter_prefix(s: Seq<char>) -> bool {
    s.len() >= 2 && ascii_letter(s[0]) && s[1] == ':'
}

/// Is position `i` the start of a dot segment: one or two dots standing
/// alone between separators (`/` or `:`) or the ends of the text?
pub open spec fn dot_segment_at(s: Seq<char>, i: int) -> bool {
    let d: int = if i + 1 < s.len() && s[i + 1] == '.' {
        2
    } else {
        1
    };
    &&& 0 <= i < s.len()
    &&& s[i] == '.'
    &&& (i == 0 || s[i - 1] == '/' || s[i - 1] == ':')
    &&& (i + d == s.len() || s[i + d] == '/' || s[i + d] == ':')
}

/// Does `s` contain a dot segment anywhere?
pub open spec fn has_dot_segment(s: Seq<char>) -> bool {
    exists|i: int| #[trigger] dot_segment_at(s, i)
}

/// Does `s` start with the `ssh:` scheme, in any ASCII casing?
pub open spec fn ssh_scheme_prefix(s: Seq<char>) -> bool {
    s.len() >= 4 && ci_char_eq(s[0], 's') && ci_char_eq(s[1], 's') && ci_char_eq(s[2], 'h')
        && s[3] == ':'
}

/// Does `s` start with the full `ssh://` form, in any ASCII casing of the
/// scheme?
pub open spec fn ssh_full_prefix(s: Seq<char>) -> bool {
    ssh_scheme_prefix(s) && s.len() >= 6 && s[4] == '/' && s[5] == '/'
}

/// The URL shapes that the underlying parser provably returns on, and
/// parses the same way on every platform: visible ASCII without `%`, `?`,
/// `#`, `\`; not mentioning the Azure DevOps host in any casing; the `ssh:`
/// scheme only in its full `ssh://` form; no dot segment (a lone `.` or
/// `..` between separators, which path normalization collapses, possibly
/// down to a bare `/`); and neither the leading `/` nor the `"<letter>:"`
/// prefix of a native absolute file path, whose conversion is
/// platform-specific. Outside these shapes the parser can index path
/// segments out of bounds, so such text is never handed to it.
pub open spec fn parser_safe_url(s: Seq<char>) -> bool {
    &&& visible_remote_chars(s)
    &&& s.len() > 0 ==> s[0] != '/'
    &&& !drive_letter_prefix(s)
    &&& !has_dot_segment(s)
    &&& !mentions_azure_host(s)
    &&& (ssh_scheme_prefix(s) ==> ssh_full_prefix(s))
}

/// Decide `parser_safe_url` by scanning the text.
pub fn url_is_parser_safe(s: &str) -> (r: bool)
    ensures
        r == parser_safe_url(s@),
{
    let n = s.unicode_len();
    let mut i: usize = 0;
    while i < n
        invariant
            n == s@.len(),
            i <= n,
            forall|j: int| 0 <= j < i ==> visible_remote_char(#[trigger] s@[j]),
        decreases n - i,
    {
        let c = s.get_char(i);
        if (c as u32) < 0x21 || (c as u32) > 0x7e || c == '%' || c == '?' || c == '#' || c == '\\'
        {
            return false;
        }
        i += 1;
    }
    if n > 0 && s.get_char(0) == '/' {
        return false;
    }
    if n >= 2 {
        let c0 = s.get_char(0);
        if (('a' <= c0 && c0 <= 'z') || ('A' <= c0 && c0 <= 'Z')) && s.get_char(1) == ':' {
            return false;
        }
    }
    let mut i: usize = 0;
    while i < n
        invariant
            n == s@.len(),
            i <= n,
            forall|j: int| 0 <= j < i ==> !dot_segment_at(s@, j),
        decreases n - i,
    {
        let c = s.get_char(i);
        if c == '.' {
            let left_ok = if i == 0 {
                true
            } else {
                let p = s.get_char(i - 1);
                p == '/' || p == ':'
            };
            let d: usize = if i + 1 < n && s.get_char(i + 1) == '.' {
                2
            } else {
                1
            };
            if left_ok {
                let right_ok = if i + d == n {
                    true
                } else {
                    let q = s.get_char(i + d);
                    q == '/' || q == ':'
                };
                if right_ok {
                    proof {
                        assert(dot_segment_at(s@, i as int));
                    }
                    return false;
                }
            }
            proof {
                assert(!dot_segment_at(s@, i as int));
            }
        }
        i += 1;
    }
    proof {
        assert(!has_dot_segment(s@)) by {
            if has_dot_segment(s@) {
                let k = choose|k: int| dot_segment_at(s@, k);
                assert(0 <= k < s@.len());
                assert(!dot_segment_at(s@, k));
            }
        }
    }
    if text_mentions_azure_host(s) {
        return false;
    }
    if n >= 4 && chars_ci_eq(s.get_char(0), 's') && chars_ci_eq(s.get_char(1), 's')
        && chars_ci_eq(s.get_char(2), 'h') && s.get_char(3) == ':' {
        if !(n >= 6 && s.get_char(4) == '/' && s.get_char(5) == '/') {
            return false;
        }
    }
    true
}

/// Relies on `git_url_parse::GitUrl::parse` (v0.4): on text admitted by
/// `parser_safe_url` the parser returns, its result depends on that text
/// alone, and a successful parse fills the `owner` and `name` fields read
/// here.
///
/// The precondition carries the whole weight. The parser slices the path of
/// an `ssh`-scheme URL and indexes the first path segment unchecked, so its
/// path must never normalize to a bare `/`: dot segments (which collapse,
/// `%2e` spellings included), `?`/`#` (which shield a trailing separator
/// from its trimming), and bare `ssh:` forms are excluded. It indexes the
/// second and third segment unchecked for the Azure DevOps hosts, and
/// compares the host after normalization (lowercasing, percent-decoding,
/// folding of non-ASCII dots), so Azure mentions, `%`, and non-ASCII text
/// are excluded. Its fallback for scheme-less text converts a native
/// absolute file path by a platform-specific routine (compiled as an
/// explicit dead end on targets without native file paths), so text shaped
/// like one — a leading `/`, a `"<letter>:"` prefix, or a `\` anywhere — is
/// excluded: that routine then refuses whatever still reaches it, and every
/// remaining route is one platform-independent string computation. Controls
/// and spaces, which the parser strips or trims, are excluded as well.
#[verifier::external_body]
fn parse_remote_url(url: &String) -> (r: Option<GitRemote>)
    requires
        parser_safe_url(url@),
    ensures
        r is None <==> parsed_remote(url@) is None,
        r matches Some(g) ==> parsed_remote(url@) == Some((g@.owner, g@.name)),
{
    match git_url_parse::GitUrl::parse(url.as_str()) {
        Ok(u) => Some(GitRemote { owner: u.owner, name: u.name }),
        Err(_) => None,
    }
}

/// What a configured remote URL contributes: nothing when its shape is kept
/// away from the parser, else whatever the parser yields.
pub open spec fn usable_remote(url: Seq<char>) -> Option<(Option<Seq<char>>, Seq<char>)> {
    if parser_safe_url(url) {
        parsed_remote(url)
    } else {
        None
    }
}

/// No URL of the listing contributes a parsed remote.
pub open spec fn no_usable_remote(urls: Seq<String>) -> bool {
    forall|i: int| 0 <= i < urls.len() ==> #[trigger] usable_remote(urls[i]@) is None
}

/// `g` is the parse of the first URL of the listing that contributes one.
pub open spec fn first_usable_remote(urls: Seq<String>, g: RemoteModel) -> bool {
    exists|i: int|
        {
            &&& 0 <= i < urls.len()
            &&& #[trigger] usable_remote(urls[i]@) matches Some(p)
            &&& forall|j: int| 0 <= j < i ==> #[trigger] usable_remote(urls[j]@) is None
            &&& g.owner == p.0
            &&& g.name == p.1
        }
}

impl State {
    /// Walk the configured remote URLs in the order the configuration
    /// reports them and keep the first that parses as a forge URL; none
    /// parsing is the typed failure.
    ///
    /// One deliberate narrowing: a URL outside `parser_safe_url` — text that
    /// is not visible ASCII, carries `%`, `?`, `#` or `\`, holds a dot
    /// segment, mentions the Azure DevOps host, writes the `ssh:` scheme
    /// without `//`, or is shaped like a native absolute file path — is
    /// skipped without an attempt, because the underlying parser does not
    /// provably return on such shapes, or parses them by a platform-specific
    /// route. A well-formed Azure DevOps remote listed first therefore loses
    /// to a later entry, where a parser that returned on it would have taken
    /// it.
    pub fn get_remote(urls: &Vec<String>) -> (r: Result<GitRemote, StateError>)
        ensures
            r matches Ok(g) ==> first_usable_remote(urls@, g@),
            r matches Err(e) ==> e == StateError::UnresolvableRemote && no_usable_remote(urls@),
    {
        let mut idx: usize = 0;
        while idx < urls.len()
            invariant
                idx <= urls@.len(),
                forall|j: int| 0 <= j < idx ==> #[trigger] usable_remote(urls@[j]@) is None,
            decreases urls@.len() - idx,
        {
            let url = &urls[idx];
            if url_is_parser_safe(url.as_str()) {
                match parse_remote_url(url) {
                    Some(g) => {
                        proof {
                            assert(usable_remote(urls@[idx as int]@) matches Some(p) && g@.owner
                                == p.0 && g@.name == p.1);
                        }
                        return Ok(g);
                    },
                    None => {},
                }
            }
            idx += 1;
        }
        Err(StateError::UnresolvableRemote)
    }

    /// Build the repository state from a probe of the repository on disk:
    /// no repository, then no head, then no parseable remote each map to
    /// their typed failure, in that order; otherwise the head identifier is
    /// taken verbatim and the first parseable remote wins.
    pub fn init(probe: Option<RepoProbe>) -> (r: Result<State, StateError>)
        ensures
            probe is None ==> (r matches Err(e) && e == StateError::NotAGitRepository),
            probe matches Some(p) && p.head_shorthand is None ==> (r matches Err(e) && e
                == StateError::UnresolvableHead),
            (probe is Some && probe->Some_0.head_shorthand is Some) ==> match r {
                Ok(st) => st@.head_sha == probe->Some_0.head_shorthand->Some_0@
                    && first_usable_remote(probe->Some_0.remote_urls@, st@.git_remote),
                Err(e) => e == StateError::UnresolvableRemote && no_usable_remote(
                    probe->Some_0.remote_urls@,
                ),
            },
    {
        match probe {
            None => Err(StateError::NotAGitRepository),
            Some(p) => {
                let RepoProbe { head_shorthand, remote_urls } = p;
                match head_shorthand {
                    None => Err(StateError::UnresolvableHead),
                    Some(head_sha) => match Self::get_remote(&remote_urls) {
                        Err(e) => Err(e),
                        Ok(git_remote) => Ok(State { head_sha, git_remote }),
                    },
                }
            },
        }
    }
}

/// What the caller found when probing the repository at the current working
/// directory: HEAD's short identifier, when HEAD resolves, and the
/// `remote.*.url` values in configuration order.
#[derive(Debug)]
pub struct RepoProbe {
    pub head_shorthand: Option<String>,
    pub remote_urls: Vec<String>,
}

/// `g` is the parse of the first URL of the listing that the parser
/// accepts, every entry before it attempted and refused.
pub open spec fn first_parsed_remote(urls: Seq<String>, g: RemoteModel) -> bool {
    exists|i: int|
        {
            &&& 0 <= i < urls.len()
            &&& #[trigger] parsed_remote(urls[i]@) matches Some(p)
            &&& forall|j: int| 0 <= j < i ==> #[trigger] parsed_remote(urls[j]@) is None
            &&& g.owner == p.0
            &&& g.name == p.1
        }
}

/// Law: on a listing whose entries all lie within the guarded URL shapes,
/// the selection is exactly "the first URL that parses wins", and the remote
/// is unresolvable exactly when no entry parses — the guard's skipping never
/// changes an outcome there.
pub proof fn lemma_first_parse_wins_on_safe_urls(urls: Seq<String>, g: RemoteModel)
    requires
        forall|i: int| 0 <= i < urls.len() ==> parser_safe_url(#[trigger] urls[i]@),
    ensures
        first_usable_remote(urls, g) <==> first_parsed_remote(urls, g),
        no_usable_remote(urls) <==> forall|i: int|
            0 <= i < urls.len() ==> #[trigger] parsed_remote(urls[i]@) is None,
{
    assert forall|i: int| 0 <= i < urls.len() implies #[trigger] usable_remote(urls[i]@)
        == parsed_remote(urls[i]@) by {
        assert(parser_safe_url(urls[i]@));
    }
    if first_usable_remote(urls, g) {
        let i = choose|i: int|
            {
                &&& 0 <= i < urls.len()
                &&& #[trigger] usable_remote(urls[i]@) matches Some(p)
                &&& forall|j: int| 0 <= j < i ==> #[trigger] usable_remote(urls[j]@) is None
                &&& g.owner == p.0
                &&& g.name == p.1
            };
        assert(parsed_remote(urls[i]@) == usable_remote(urls[i]@));
        assert forall|j: int| 0 <= j < i implies #[trigger] parsed_remote(urls[j]@) is None by {
            assert(usable_remote(urls[j]@) is None);
        }
        assert(first_parsed_remote(urls, g));
    }
    if first_parsed_remote(urls, g) {
        let i = choose|i: int|
            {
                &&& 0 <= i < urls.len()
                &&& #[trigger] parsed_remote(urls[i]@) matches Some(p)
                &&& forall|j: int| 0 <= j < i ==> #[trigger] parsed_remote(urls[j]@) is None
                &&& g.owner == p.0
                &&& g.name == p.1
            };
        assert(usable_remote(urls[i]@) == parsed_remote(urls[i]@));
        assert forall|j: int| 0 <= j < i implies #[trigger] usable_remote(urls[j]@) is None by {
            assert(parsed_remote(urls[j]@) is None);
        }
        assert(first_usable_remote(urls, g));
    }
    if no_usable_remote(urls) {
        assert forall|i: int| 0 <= i < urls.len() implies #[trigger] parsed_remote(urls[i]@)
            is None by {
            assert(usable_remote(urls[i]@) is None);
        }
    }
    if forall|i: int| 0 <= i < urls.len() ==> #[trigger] parsed_remote(urls[i]@) is None {
        assert forall|i: int| 0 <= i < urls.len() implies #[trigger] usable_remote(urls[i]@)
            is None by {
            assert(parsed_remote(urls[i]@) is None);
        }
    }
}

} // verus!
