//! Command allowlist on top of the engine's destructive-command blacklist:
//! when allow patterns are configured, a command must both survive the
//! blacklist and match one allow pattern, otherwise it is forbidden.
//!
//! The allowlist can be replaced at runtime (`reload`) so the management UI
//! can edit it without a restart. An empty allowlist means "not enforced",
//! identical to the blacklist-only default.

use vstd::prelude::*;
use crate::text::{concat_str, decimal, decimal_string};

verus! {

/// `regex::RegexSet`, carried opaquely; what the logic reads of it is named below.
#[verifier::external_type_specification]
#[verifier::external_body]
pub struct ExRegexSet(regex::RegexSet);

/// The outcome of `regex::RegexSet::new` on these patterns: `None` when the
/// crate accepts them (every pattern is a valid expression and the set fits
/// the crate's default size limits), otherwise the `Display` text of the
/// crate's error.
pub uninterp spec fn regex_set_error(patterns: Seq<Seq<char>>) -> Option<Seq<char>>;

/// The patterns a compiled `regex::RegexSet` was built from, in order.
pub uninterp spec fn regex_set_patterns(set: regex::RegexSet) -> Seq<Seq<char>>;

/// Whether at least one of `patterns` matches somewhere in `haystack`
/// (`regex::RegexSet::is_match`; patterns are unanchored).
pub uninterp spec fn regex_set_is_match(patterns: Seq<Seq<char>>, haystack: Seq<char>) -> bool;

/// `regex::RegexSet::new`: compiles the patterns into one set, or fails with
/// the crate's error, handed on as its `Display` text. The contract names the
/// outcome as a function of the patterns, and states that the set keeps the
/// given patterns in order, as the crate's builder stores them and
/// `RegexSet::patterns` documents.
#[verifier::external_body]
fn regex_set_new(patterns: &Vec<String>) -> (r: Result<regex::RegexSet, String>)
    ensures
        r is Ok <==> regex_set_error(patterns.deep_view()) is None,
        r matches Err(t) ==> regex_set_error(patterns.deep_view()) == Some(t@),
        r matches Ok(set) ==> regex_set_patterns(set) == patterns.deep_view(),
{
    match regex::RegexSet::new(patterns) {
        Ok(set) => Ok(set),
        Err(e) => Err(e.to_string()),
    }
}

/// `regex::RegexSet::is_match`: whether any pattern of the set matches in the
/// haystack; the result is named over the set's patterns and the haystack.
#[verifier::external_body]
fn regex_set_match(set: &regex::RegexSet, haystack: &str) -> (r: bool)
    ensures
        r == regex_set_is_match(regex_set_patterns(*set), haystack@),
{
    set.is_match(haystack)
}

/// Why a policy could not be built or a command is refused.
#[derive(Debug)]
pub enum PolicyError {
    /// The allowlist holds an invalid pattern.
    Invalid(String),
    /// The command is refused.
    Forbidden(String),
}

/// Whether the allowlist `patterns` admits `command`.
pub open spec fn allowlist_admits(patterns: Seq<Seq<char>>, command: Seq<char>) -> bool {
    patterns.len() == 0 || regex_set_is_match(patterns, command)
}

/// The refusal text for a command that matches none of `n` patterns.
pub open spec fn forbidden_text(n: nat) -> Seq<char> {
    "command not permitted by allowlist ("@ + decimal(n) + " patterns)"@
}

/// Whether an allowlist of these patterns can be built.
pub open spec fn allowlist_valid(patterns: Seq<Seq<char>>) -> bool {
    patterns.len() == 0 || regex_set_error(patterns) is None
}

/// The error for an allowlist that does not compile: `allowlist regex: `
/// followed by the regex crate's message.
pub open spec fn is_regex_error(e: PolicyError, patterns: Seq<Seq<char>>) -> bool {
    e matches PolicyError::Invalid(m) && m@ == "allowlist regex: "@ + regex_set_error(
        patterns,
    )->Some_0
}

/// A refusal carrying the allowlist text for `n` patterns.
pub open spec fn is_forbidden(e: PolicyError, n: nat) -> bool {
    e matches PolicyError::Forbidden(m) && m@ == forbidden_text(n)
}

struct Compiled {
    patterns: Vec<String>,
    allow: Option<regex::RegexSet>,
}

impl Compiled {
    spec fn wf(self) -> bool {
        &&& (self.allow is Some <==> self.patterns@.len() > 0)
        &&& (self.allow matches Some(set) ==> regex_set_patterns(set) == self.patterns.deep_view())
    }

    fn compile(patterns: Vec<String>) -> (r: Result<Compiled, PolicyError>)
        ensures
            r is Ok <==> allowlist_valid(patterns.deep_view()),
            r matches Ok(c) ==> c.wf() && c.patterns.deep_view() == patterns.deep_view(),
            r matches Err(e) ==> is_regex_error(e, patterns.deep_view()),
    {
        if patterns.len() == 0 {
            return Ok(Compiled { patterns, allow: None });
        }
        match regex_set_new(&patterns) {
            Ok(set) => Ok(Compiled { patterns, allow: Some(set) }),
            Err(detail) => Err(PolicyError::Invalid(concat_str("allowlist regex: ", detail.as_str()))),
        }
    }
}

/// The live allowlist. Its view is the list of allow patterns; it is
/// enforced exactly when that list is non-empty.
pub struct WhitelistPolicy {
    inner: Compiled,
}

impl View for WhitelistPolicy {
    type V = Seq<Seq<char>>;

    closed spec fn view(&self) -> Seq<Seq<char>> {
        self.inner.patterns.deep_view()
    }
}

impl WhitelistPolicy {
    #[verifier::type_invariant]
    spec fn inv(self) -> bool {
        self.inner.wf()
    }

    /// Build from allow patterns (regular expressions). Empty means
    /// blacklist-only.
    pub fn new(allow_patterns: Vec<String>) -> (r: Result<WhitelistPolicy, PolicyError>)
        ensures
            r is Ok <==> allowlist_valid(allow_patterns.deep_view()),
            r matches Ok(p) ==> p@ == allow_patterns.deep_view(),
            r matches Err(e) ==> is_regex_error(e, allow_patterns.deep_view()),
    {
        let inner = Compiled::compile(allow_patterns)?;
        Ok(WhitelistPolicy { inner })
    }

    /// Replace the live allowlist. The patterns are checked before the swap;
    /// on error the current list is left untouched.
    pub fn reload(&mut self, patterns: Vec<String>) -> (r: Result<(), PolicyError>)
        ensures
            r is Ok <==> allowlist_valid(patterns.deep_view()),
            r is Ok ==> final(self)@ == patterns.deep_view(),
            r is Err ==> final(self)@ == old(self)@,
            r matches Err(e) ==> is_regex_error(e, patterns.deep_view()),
    {
        let compiled = Compiled::compile(patterns)?;
        self.inner = compiled;
        Ok(())
    }

    /// The current patterns, and whether the allowlist is enforced.
    pub fn snapshot(&self) -> (r: (Vec<String>, bool))
        ensures
            r.0.deep_view() == self@,
            r.1 == (self@.len() > 0),
    {
        proof {
            use_type_invariant(self);
        }
        let mut out: Vec<String> = Vec::new();
        let n = self.inner.patterns.len();
        let mut i: usize = 0;
        while i < n
            invariant
                n == self.inner.patterns@.len(),
                i <= n,
                out@.len() == i,
                forall|k: int| 0 <= k < i ==> #[trigger] out@[k]@ == self.inner.patterns@[k]@,
            decreases n - i,
        {
            out.push(self.inner.patterns[i].clone());
            i = i + 1;
        }
        assert(out.deep_view() =~= self@);
        (out, self.inner.allow.is_some())
    }

    /// Whether the allowlist is enforced (holds at least one pattern).
    pub fn enforced(&self) -> (r: bool)
        ensures
            r == (self@.len() > 0),
    {
        proof {
            use_type_invariant(self);
        }
        self.inner.allow.is_some()
    }

    /// Decide a command. `blacklist` is the engine blacklist's verdict on the
    /// same command, which always applies first; then, when the allowlist is
    /// enforced, the command must match one of its patterns.
    pub fn authorize_exec(&self, blacklist: Result<(), PolicyError>, command: &str) -> (r: Result<
        (),
        PolicyError,
    >)
        ensures
            blacklist is Err ==> r == blacklist,
            blacklist is Ok ==> (r is Ok <==> allowlist_admits(self@, command@)),
            self@.len() == 0 ==> r == blacklist,
            blacklist is Ok && r is Err ==> is_forbidden(r->Err_0, self@.len()),
    {
        proof {
            use_type_invariant(self);
        }
        blacklist?;
        match &self.inner.allow {
            Some(set) => {
                if !regex_set_match(set, command) {
                    let count = decimal_string(self.inner.patterns.len());
                    let head = concat_str("command not permitted by allowlist (", count.as_str());
                    let m = concat_str(head.as_str(), " patterns)");
                    return Err(PolicyError::Forbidden(m));
                }
                Ok(())
            },
            None => Ok(()),
        }
    }
}

} // verus!
