//! The target specification grammar.
//!
//! A target names where a comment goes: a commit, a pull request, or an
//! issue, each with an optional identifier. The textual form is
//! `"<kind>/<id>"`; a bare kind word stands for the empty identifier, and
//! rendering always writes the separator, so `"pr"` parses like `"pr/"` and
//! renders back as `"pr/"`.

use vstd::prelude::*;

use crate::error::ParseError;
use crate::text::first_index_of;
use crate::text::lemma_first_index_of_is;
use crate::text::lemma_first_index_of_none;
use crate::text::str_eq;

verus! {

/// The mathematical shape of a target: a kind and an identifier.
pub ghost enum TargetModel {
    Commit(Seq<char>),
    Pr(Seq<char>),
    Issue(Seq<char>),
}

/// The identifier carried by a target, whatever its kind.
pub open spec fn model_id(m: TargetModel) -> Seq<char> {
    match m {
        TargetModel::Commit(id) => id,
        TargetModel::Pr(id) => id,
        TargetModel::Issue(id) => id,
    }
}

/// Where a comment goes: a commit, a pull request, or an issue. An empty
/// identifier means "resolve implicitly" and is settled by the orchestrator.
#[derive(Debug, PartialEq, Eq)]
pub enum CommentTarget {
    Commit(String),
    Pr(String),
    Issue(String),
}

impl View for CommentTarget {
    type V = TargetModel;

    open spec fn view(&self) -> TargetModel {
        match self {
            CommentTarget::Commit(id) => TargetModel::Commit(id@),
            CommentTarget::Pr(id) => TargetModel::Pr(id@),
            CommentTarget::Issue(id) => TargetModel::Issue(id@),
        }
    }
}

impl Clone for CommentTarget {
    /// Cloning keeps the kind and the identifier.
    fn clone(&self) -> (r: Self)
        ensures
            r@ == self@,
    {
        match self {
            CommentTarget::Commit(id) => CommentTarget::Commit(id.clone()),
            CommentTarget::Pr(id) => CommentTarget::Pr(id.clone()),
            CommentTarget::Issue(id) => CommentTarget::Issue(id.clone()),
        }
    }
}

/// Sort a kind word and an identifier into a target; an unrecognized kind
/// word sorts to nothing.
pub open spec fn spec_classify(kind: Seq<char>, id: Seq<char>) -> Option<TargetModel> {
    if kind == "commit"@ {
        Some(TargetModel::Commit(id))
    } else if kind == "pr"@ {
        Some(TargetModel::Pr(id))
    } else if kind == "issue"@ {
        Some(TargetModel::Issue(id))
    } else {
        None
    }
}

/// The target grammar. A string with a separator splits at the first one
/// into a kind word and an identifier; a string without one must be a bare
/// kind word and carries the empty identifier.
pub open spec fn spec_parse(s: Seq<char>) -> Result<TargetModel, ParseError> {
    match first_index_of(s, '/') {
        Some(i) => match spec_classify(s.take(i), s.skip(i + 1)) {
            Some(m) => Ok(m),
            None => Err(ParseError::UnknownKind),
        },
        None => match spec_classify(s, Seq::empty()) {
            Some(m) => Ok(m),
            None => Err(ParseError::InvalidFormat),
        },
    }
}

/// The canonical textual form: always `"<kind>/<id>"`, the separator
/// included even for an empty identifier.
pub open spec fn spec_render(m: TargetModel) -> Seq<char> {
    match m {
        TargetModel::Commit(id) => "commit/"@ + id,
        TargetModel::Pr(id) => "pr/"@ + id,
        TargetModel::Issue(id) => "issue/"@ + id,
    }
}

/// `r` carries the same outcome as the model result `m`.
pub open spec fn parse_result_models(
    r: Result<CommentTarget, ParseError>,
    m: Result<TargetModel, ParseError>,
) -> bool {
    match r {
        Ok(t) => m matches Ok(mm) && t@ == mm,
        Err(e) => m matches Err(e2) && e == e2,
    }
}

/// Sort a kind word and an already-owned identifier into a target.
fn classify(kind: &str, id: String) -> (r: Option<CommentTarget>)
    ensures
        match r {
            Some(t) => spec_classify(kind@, id@) == Some(t@),
            None => spec_classify(kind@, id@) is None,
        },
{
    if str_eq(kind, "commit") {
        Some(CommentTarget::Commit(id))
    } else if str_eq(kind, "pr") {
        Some(CommentTarget::Pr(id))
    } else if str_eq(kind, "issue") {
        Some(CommentTarget::Issue(id))
    } else {
        None
    }
}

impl CommentTarget {
    /// Parse a target specification, faithfully to the grammar
    /// `spec_parse`: split at the first separator, or accept a bare kind
    /// word as the empty-identifier form.
    pub fn parse(s: &str) -> (r: Result<CommentTarget, ParseError>)
        ensures
            parse_result_models(r, spec_parse(s@)),
    {
        let n = s.unicode_len();
        match crate::text::find_char(s, '/') {
            Some(i) => {
                let kind = s.substring_char(0, i);
                let id = s.substring_char(i + 1, n).to_owned();
                proof {
                    assert(kind@ =~= s@.take(i as int));
                    assert(id@ =~= s@.skip(i as int + 1));
                }
                match classify(kind, id) {
                    Some(t) => Ok(t),
                    None => Err(ParseError::UnknownKind),
                }
            },
            None => {
                let empty = String::new();
                match classify(s, empty) {
                    Some(t) => Ok(t),
                    None => Err(ParseError::InvalidFormat),
                }
            },
        }
    }

    /// Render the canonical textual form `"<kind>/<id>"`.
    pub fn render(&self) -> (r: String)
        ensures
            r@ == spec_render(self@),
    {
        match self {
            CommentTarget::Commit(id) => {
                let mut out = String::from_str("commit/");
                out.append(id.as_str());
                out
            },
            CommentTarget::Pr(id) => {
                let mut out = String::from_str("pr/");
                out.append(id.as_str());
                out
            },
            CommentTarget::Issue(id) => {
                let mut out = String::from_str("issue/");
                out.append(id.as_str());
                out
            },
        }
    }

    /// Parse only the separated form `"<kind>/<id>"`; a string without a
    /// separator, bare kind words included, yields nothing.
    pub fn c_from_string(s: &String) -> (r: Option<CommentTarget>)
        ensures
            match r {
                Some(t) => spec_c_from_string(s@) == Some(t@),
                None => spec_c_from_string(s@) is None,
            },
    {
        let n = s.as_str().unicode_len();
        match crate::text::find_char(s.as_str(), '/') {
            Some(i) => {
                let kind = s.as_str().substring_char(0, i);
                let id = s.as_str().substring_char(i + 1, n).to_owned();
                proof {
                    assert(kind@ =~= s@.take(i as int));
                    assert(id@ =~= s@.skip(i as int + 1));
                }
                classify(kind, id)
            },
            None => None,
        }
    }

    /// Resolution of a target from a prior run's saved state. No such source
    /// is defined yet, so no target is ever produced and the caller falls
    /// back to the default target.
    pub fn c_from_run_state(_run_state: String) -> (r: Option<CommentTarget>)
        ensures
            r is None,
    {
        None
    }
}

/// What `c_from_string` accepts: only the separated form of the grammar.
pub open spec fn spec_c_from_string(s: Seq<char>) -> Option<TargetModel> {
    match first_index_of(s, '/') {
        Some(i) => spec_classify(s.take(i), s.skip(i + 1)),
        None => None,
    }
}

impl core::str::FromStr for CommentTarget {
    type Err = String;

    /// The standard-trait face of `parse`, reporting failures as text.
    fn from_str(s: &str) -> Result<CommentTarget, String> {
        match CommentTarget::parse(s) {
            Ok(t) => Ok(t),
            Err(e) => Err(e.describe()),
        }
    }
}

/// Law: a bare kind word and the word with a trailing separator parse to the
/// same empty-identifier target, whose rendering is the word with the
/// separator appended.
pub proof fn lemma_bare_kind_parse(k: Seq<char>)
    requires
        k == "commit"@ || k == "pr"@ || k == "issue"@,
    ensures
        spec_parse(k) is Ok,
        model_id(spec_parse(k)->Ok_0).len() == 0,
        spec_parse(k + "/"@) == spec_parse(k),
        spec_render(spec_parse(k)->Ok_0) == k + "/"@,
{
    reveal_strlit("commit");
    reveal_strlit("commit/");
    reveal_strlit("pr");
    reveal_strlit("pr/");
    reveal_strlit("issue");
    reveal_strlit("issue/");
    reveal_strlit("/");
    lemma_no_slash_in_kind_words();
    let s = k + "/"@;
    assert(s[k.len() as int] == '/');
    lemma_first_index_of_none(k, '/');
    lemma_first_index_of_is(s, '/', k.len() as int);
    assert(s.take(k.len() as int) =~= k);
    assert(s.skip(k.len() as int + 1) =~= Seq::<char>::empty());
    assert(Seq::<char>::empty() =~= Seq::<char>::empty());
    if k == "commit"@ {
        assert(spec_render(TargetModel::Commit(Seq::empty())) =~= k + "/"@);
    } else if k == "pr"@ {
        assert(spec_render(TargetModel::Pr(Seq::empty())) =~= k + "/"@);
    } else {
        assert(spec_render(TargetModel::Issue(Seq::empty())) =~= k + "/"@);
    }
}

/// The three kind words contain no separator, and differ from each other.
proof fn lemma_no_slash_in_kind_words()
    ensures
        forall|j: int| 0 <= j < "commit"@.len() ==> "commit"@[j] != '/',
        forall|j: int| 0 <= j < "pr"@.len() ==> "pr"@[j] != '/',
        forall|j: int| 0 <= j < "issue"@.len() ==> "issue"@[j] != '/',
{
    reveal_strlit("commit");
    reveal_strlit("pr");
    reveal_strlit("issue");
    assert forall|j: int| 0 <= j < "commit"@.len() implies "commit"@[j] != '/' by {
        assert("commit"@.len() == 6);
    }
    assert forall|j: int| 0 <= j < "pr"@.len() implies "pr"@[j] != '/' by {
        assert("pr"@.len() == 2);
    }
    assert forall|j: int| 0 <= j < "issue"@.len() implies "issue"@[j] != '/' by {
        assert("issue"@.len() == 5);
    }
}

/// Law: rendering any target and parsing the rendering yields the target
/// back, identifiers of every shape included.
pub proof fn lemma_render_parse_round_trip(m: TargetModel)
    ensures
        spec_parse(spec_render(m)) == Ok::<TargetModel, ParseError>(m),
{
    reveal_strlit("commit");
    reveal_strlit("commit/");
    reveal_strlit("pr");
    reveal_strlit("pr/");
    reveal_strlit("issue");
    reveal_strlit("issue/");
    let id = model_id(m);
    let pre = match m {
        TargetModel::Commit(_) => "commit/"@,
        TargetModel::Pr(_) => "pr/"@,
        TargetModel::Issue(_) => "issue/"@,
    };
    let w = pre.len() as int - 1;
    let rendered = spec_render(m);
    assert(rendered == pre + id);
    assert(rendered[w] == pre[w] && pre[w] == '/');
    assert forall|j: int| 0 <= j < w implies rendered[j] != '/' by {
        assert(rendered[j] == pre[j]);
    }
    lemma_first_index_of_is(rendered, '/', w);
    match m {
        TargetModel::Commit(_) => {
            assert(rendered.take(w) =~= "commit"@);
        },
        TargetModel::Pr(_) => {
            assert(rendered.take(w) =~= "pr"@);
            assert(rendered.take(w) != "commit"@) by {
                assert("pr"@.len() != "commit"@.len());
            }
        },
        TargetModel::Issue(_) => {
            assert(rendered.take(w) =~= "issue"@);
            assert(rendered.take(w) != "commit"@) by {
                assert("issue"@.len() != "commit"@.len());
            }
            assert(rendered.take(w) != "pr"@) by {
                assert("issue"@.len() != "pr"@.len());
            }
        },
    }
    assert(rendered.skip(w + 1) =~= id);
}

/// Law: a separated string whose kind word is unrecognized is rejected as
/// `UnknownKind`, and an unseparated string that is not a bare kind word as
/// `InvalidFormat`.
pub proof fn lemma_parse_rejects(s: Seq<char>)
    ensures
        (first_index_of(s, '/') matches Some(i) && spec_classify(s.take(i), s.skip(i + 1)) is None)
            ==> spec_parse(s) == Err::<TargetModel, ParseError>(ParseError::UnknownKind),
        (first_index_of(s, '/') is None && s != "commit"@ && s != "pr"@ && s != "issue"@)
            ==> spec_parse(s) == Err::<TargetModel, ParseError>(ParseError::InvalidFormat),
{
}

} // verus!
