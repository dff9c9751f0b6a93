//! Domain policy matching: wildcard domain patterns compiled to anchored
//! regular expressions, and the allow/deny decision shared by both proxies.

use vstd::prelude::*;
use crate::config::texts;
use crate::error::SandboxError;

verus! {

/// `regex::Regex`, carried opaque: what it matches is given by `regex_is_match`.
#[verifier::external_type_specification]
#[verifier::external_body]
pub struct ExRegex(regex::Regex);

/// Whether `regex::Regex::new` accepts `source`.
pub uninterp spec fn regex_accepts(source: Seq<char>) -> bool;

/// Whether the whole host fits the pattern: a star takes any run of
/// characters (newlines included), every other character matches only itself.
pub open spec fn pattern_matches(p: Seq<char>, h: Seq<char>) -> bool
    decreases p.len(), h.len(),
{
    if p.len() == 0 {
        h.len() == 0
    } else if p[0] == '*' {
        pattern_matches(p.drop_first(), h) || (h.len() > 0 && pattern_matches(p, h.drop_first()))
    } else {
        h.len() > 0 && h[0] == p[0] && pattern_matches(p.drop_first(), h.drop_first())
    }
}

/// An ASCII letter or digit.
pub open spec fn ascii_alphanumeric(c: char) -> bool {
    ('a' <= c <= 'z') || ('A' <= c <= 'Z') || ('0' <= c <= '9')
}

/// The characters a backslash turns into literals: every ASCII character but
/// letters, digits, `<` and `>`. All other characters are literals already.
pub open spec fn needs_escape(c: char) -> bool {
    c <= '\u{7f}' && !ascii_alphanumeric(c) && c != '<' && c != '>'
}

/// The regular-expression text of one pattern character: a star becomes
/// "any run", punctuation is escaped, every other character stands for itself.
pub open spec fn escape_char(c: char) -> Seq<char> {
    if c == '*' {
        seq!['.', '*']
    } else if needs_escape(c) {
        seq!['\\', c]
    } else {
        seq![c]
    }
}

/// The pattern with each character escaped.
pub open spec fn escape_pattern(p: Seq<char>) -> Seq<char>
    decreases p.len(),
{
    if p.len() == 0 {
        Seq::empty()
    } else {
        escape_pattern(p.drop_last()) + escape_char(p.last())
    }
}

/// The regular expression a domain pattern compiles to: `.` may match a
/// newline (flag `s`), anchored at both ends of the host.
pub open spec fn regex_source(p: Seq<char>) -> Seq<char> {
    seq!['(', '?', 's', ')', '^'] + escape_pattern(p) + seq!['$']
}

/// A regular expression together with the source text it was compiled from.
pub struct CompiledRegex {
    source: String,
    regex: regex::Regex,
}

/// Relies on regex::Regex::new: whether a source compiles depends on the
/// source alone; the compiled value keeps that source.
#[verifier::external_body]
fn compile_regex(source: String) -> (r: Result<CompiledRegex, String>)
    ensures
        r is Ok <==> regex_accepts(source@),
        r matches Ok(c) ==> c.source@ == source@,
{
    match regex::Regex::new(&source) {
        Ok(regex) => Ok(CompiledRegex { source, regex }),
        Err(e) => Err(e.to_string()),
    }
}

/// Relies on regex::Regex::is_match, and on the regex syntax: with flag `s`,
/// `.*` matches any run of characters; `^` and `$` are the ends of the
/// haystack; a backslash before an ASCII character other than a letter,
/// digit, `<` or `>` makes it literal; any other character matches itself,
/// case-sensitively. So the source of a domain pattern matches exactly the
/// hosts that fit the pattern.
#[verifier::external_body]
fn regex_is_match(c: &CompiledRegex, haystack: &str) -> (r: bool)
    ensures
        forall|p: Seq<char>| #[trigger] regex_source(p) == c.source@ ==> (r <==> pattern_matches(p, haystack@)),
{
    c.regex.is_match(haystack)
}

/// Whether a domain pattern compiles.
pub open spec fn pattern_compiles(p: Seq<char>) -> bool {
    regex_accepts(regex_source(p))
}

/// Whether some pattern of the list matches the host.
pub open spec fn any_matches(patterns: Seq<Seq<char>>, host: Seq<char>) -> bool {
    exists|i: int| 0 <= i < patterns.len() && #[trigger] pattern_matches(patterns[i], host)
}

/// The policy decision: a denied match always refuses; otherwise an empty
/// allow-list admits everything, and a non-empty one admits only its matches.
pub open spec fn host_allowed(host: Seq<char>, allowed: Seq<Seq<char>>, denied: Seq<Seq<char>>) -> bool {
    &&& !any_matches(denied, host)
    &&& (allowed.len() == 0 || any_matches(allowed, host))
}

/// A compiled domain pattern.
pub struct DomainPattern {
    pattern: String,
    compiled: CompiledRegex,
}

impl View for DomainPattern {
    type V = Seq<char>;

    closed spec fn view(&self) -> Seq<char> {
        self.pattern@
    }
}

impl DomainPattern {
    #[verifier::type_invariant]
    spec fn source_is_anchored_pattern(&self) -> bool {
        self.compiled.source@ == regex_source(self.pattern@)
    }

    /// Whether this pattern matches the whole host name.
    pub fn matches(&self, host: &str) -> (r: bool)
        ensures
            r == pattern_matches(self@, host@),
    {
        proof {
            use_type_invariant(self);
        }
        let r = regex_is_match(&self.compiled, host);
        assert(regex_source(self.pattern@) == self.compiled.source@);
        r
    }

    /// The pattern as written.
    pub fn pattern(&self) -> (r: &str)
        ensures
            r@ == self@,
    {
        self.pattern.as_str()
    }
}

/// The views of a list of compiled patterns.
pub open spec fn patterns_view(v: Seq<DomainPattern>) -> Seq<Seq<char>> {
    v.map_values(|p: DomainPattern| p@)
}

fn needs_escape_exec(c: char) -> (r: bool)
    ensures
        r == needs_escape(c),
{
    c <= '\u{7f}' && !(('a' <= c && c <= 'z') || ('A' <= c && c <= 'Z') || ('0' <= c && c <= '9')) && c != '<'
        && c != '>'
}

/// Escapes a domain pattern into regular-expression text (without anchors).
fn escape_domain_pattern(pattern: &str) -> (r: String)
    ensures
        r@ == escape_pattern(pattern@),
{
    let n = pattern.unicode_len();
    let mut out = String::new();
    let mut i: usize = 0;
    while i < n
        invariant
            n == pattern@.len(),
            i <= n,
            out@ == escape_pattern(pattern@.subrange(0, i as int)),
        decreases n - i,
    {
        let c = pattern.get_char(i);
        proof {
            reveal_strlit("\\");
            reveal_strlit(".*");
            let prefix = pattern@.subrange(0, i + 1);
            assert(prefix.drop_last() =~= pattern@.subrange(0, i as int));
            assert(prefix.last() == c);
        }
        let single = pattern.substring_char(i, i + 1);
        assert(single@ =~= seq![c]);
        if c == '*' {
            out.append(".*");
        } else if needs_escape_exec(c) {
            out.append("\\");
            out.append(single);
        } else {
            out.append(single);
        }
        assert(out@ =~= escape_pattern(pattern@.subrange(0, i + 1)));
        i = i + 1;
    }
    assert(pattern@.subrange(0, n as int) =~= pattern@);
    out
}

/// Compiles a domain pattern: `*` matches any run of characters, every other
/// character only itself, over the whole host. A pattern the regular
/// expression engine refuses is a configuration error.
pub fn domain_to_regex(pattern: &str) -> (r: Result<DomainPattern, SandboxError>)
    ensures
        r is Ok <==> pattern_compiles(pattern@),
        r matches Ok(p) ==> p@ == pattern@,
        r matches Err(e) ==> e is Config,
{
    let mut source = String::from_str("(?s)^");
    let escaped = escape_domain_pattern(pattern);
    source.append(escaped.as_str());
    source.append("$");
    proof {
        reveal_strlit("(?s)^");
        reveal_strlit("$");
    }
    assert(source@ =~= regex_source(pattern@));
    match compile_regex(source) {
        Ok(compiled) => Ok(DomainPattern { pattern: String::from_str(pattern), compiled }),
        Err(msg) => {
            let mut text = String::from_str("Invalid domain pattern: ");
            text.append(msg.as_str());
            Err(SandboxError::Config(text))
        },
    }
}

/// Whether every pattern of the list compiles.
pub open spec fn all_compile(patterns: Seq<Seq<char>>) -> bool {
    forall|i: int| 0 <= i < patterns.len() ==> #[trigger] pattern_compiles(patterns[i])
}

/// Compiles a list of domain patterns, failing on the first that does not compile.
pub fn compile_patterns(patterns: &Vec<String>) -> (r: Result<Vec<DomainPattern>, SandboxError>)
    ensures
        r is Ok <==> all_compile(texts(patterns@)),
        r matches Ok(v) ==> patterns_view(v@) == texts(patterns@),
        r matches Err(e) ==> e is Config,
{
    let mut out: Vec<DomainPattern> = Vec::new();
    let mut i: usize = 0;
    while i < patterns.len()
        invariant
            i <= patterns@.len(),
            out@.len() == i,
            forall|k: int| 0 <= k < i ==> (#[trigger] out@[k])@ == patterns@[k]@,
            forall|k: int| 0 <= k < i ==> pattern_compiles(#[trigger] patterns@[k]@),
        decreases patterns@.len() - i,
    {
        match domain_to_regex(patterns[i].as_str()) {
            Ok(p) => {
                out.push(p);
                i = i + 1;
            },
            Err(e) => {
                assert(!all_compile(texts(patterns@))) by {
                    assert(texts(patterns@)[i as int] == patterns@[i as int]@);
                }
                return Err(e);
            },
        }
    }
    assert(patterns_view(out@) =~= texts(patterns@));
    assert(all_compile(texts(patterns@))) by {
        assert forall|k: int| 0 <= k < patterns@.len() implies #[trigger] pattern_compiles(
            texts(patterns@)[k],
        ) by {
            assert(texts(patterns@)[k] == patterns@[k]@);
        }
    }
    Ok(out)
}

/// Whether some compiled pattern of the list matches the host.
fn any_pattern_matches(host: &str, patterns: &Vec<DomainPattern>) -> (r: bool)
    ensures
        r == any_matches(patterns_view(patterns@), host@),
{
    let mut i: usize = 0;
    while i < patterns.len()
        invariant
            i <= patterns@.len(),
            forall|k: int| 0 <= k < i ==> !pattern_matches(#[trigger] patterns_view(patterns@)[k], host@),
        decreases patterns@.len() - i,
    {
        let m = patterns[i].matches(host);
        proof {
            assert(patterns_view(patterns@)[i as int] == patterns@[i as int]@);
        }
        if m {
            assert(pattern_matches(patterns_view(patterns@)[i as int], host@));
            return true;
        }
        i = i + 1;
    }
    false
}

/// Decides whether a host may be reached: denial is checked first and always
/// wins; an empty allow-list admits everything else; a non-empty one admits
/// only hosts that one of its patterns matches.
pub fn is_domain_allowed(domain: &str, allowed: &Vec<DomainPattern>, denied: &Vec<DomainPattern>) -> (r: bool)
    ensures
        r == host_allowed(domain@, patterns_view(allowed@), patterns_view(denied@)),
{
    if any_pattern_matches(domain, denied) {
        return false;
    }
    if allowed.len() == 0 {
        return true;
    }
    any_pattern_matches(domain, allowed)
}

/// Denial always wins: a host that both an allowed and a denied pattern
/// match is refused.
pub proof fn lemma_denial_wins(host: Seq<char>, allowed: Seq<Seq<char>>, denied: Seq<Seq<char>>, a: int, d: int)
    requires
        0 <= a < allowed.len(),
        0 <= d < denied.len(),
        pattern_matches(allowed[a], host),
        pattern_matches(denied[d], host),
    ensures
        !host_allowed(host, allowed, denied),
{
    assert(any_matches(denied, host));
}

/// With no allowed and no denied patterns, every host is admitted.
pub proof fn lemma_empty_policy_allows(host: Seq<char>)
    ensures
        host_allowed(host, Seq::empty(), Seq::empty()),
{
}

/// With an empty allow-list, exactly the hosts that no denied pattern matches
/// are admitted.
pub proof fn lemma_empty_allow_list_defaults_to_allow(host: Seq<char>, denied: Seq<Seq<char>>)
    ensures
        host_allowed(host, Seq::empty(), denied) <==> !any_matches(denied, host),
{
}

/// A pattern without a star fits exactly one host: itself.
pub proof fn lemma_literal_pattern_fits_only_itself(p: Seq<char>, h: Seq<char>)
    requires
        !p.contains('*'),
    ensures
        pattern_matches(p, h) <==> h == p,
    decreases p.len(),
{
    if p.len() == 0 {
        if h.len() == 0 {
            assert(h =~= p);
        }
    } else {
        assert(p[0] != '*') by {
            assert(p.contains(p[0]));
        }
        let rest = p.drop_first();
        assert(!rest.contains('*')) by {
            if rest.contains('*') {
                let i = choose|i: int| 0 <= i < rest.len() && rest[i] == '*';
                assert(p[i + 1] == '*');
            }
        }
        if h.len() > 0 {
            lemma_literal_pattern_fits_only_itself(rest, h.drop_first());
            if h[0] == p[0] && h.drop_first() == rest {
                assert forall|i: int| 0 <= i < h.len() implies h[i] == p[i] by {
                    if i > 0 {
                        assert(h[i] == h.drop_first()[i - 1]);
                        assert(p[i] == rest[i - 1]);
                    }
                }
                assert(h =~= p);
            }
            if h == p {
                assert(h.drop_first() =~= rest);
            }
        }
    }
}

/// A pattern without a star, as the only allowed pattern and with no denied
/// ones, admits exactly the host equal to it: no substring, prefix or suffix
/// of it, and nothing that contains it.
pub proof fn lemma_exact_pattern_admits_only_itself(p: Seq<char>, host: Seq<char>)
    requires
        !p.contains('*'),
    ensures
        host_allowed(host, seq![p], Seq::empty()) <==> host == p,
{
    lemma_literal_pattern_fits_only_itself(p, host);
    if pattern_matches(p, host) {
        assert(seq![p][0] == p);
        assert(any_matches(seq![p], host));
    }
    if any_matches(seq![p], host) {
        let i = choose|i: int| 0 <= i < 1 && #[trigger] pattern_matches(seq![p][i], host);
        assert(seq![p][i] == p);
    }
}

/// A network policy's allow and deny patterns, as text.
pub struct DomainPolicy {
    pub allowed: Seq<Seq<char>>,
    pub denied: Seq<Seq<char>>,
}

/// Compiled allow and deny patterns: the matcher both proxies consult.
pub struct DomainFilter {
    allowed: Vec<DomainPattern>,
    denied: Vec<DomainPattern>,
}

impl View for DomainFilter {
    type V = DomainPolicy;

    closed spec fn view(&self) -> DomainPolicy {
        DomainPolicy { allowed: patterns_view(self.allowed@), denied: patterns_view(self.denied@) }
    }
}

impl DomainFilter {
    /// Compiles both pattern lists; a pattern that does not compile is a
    /// configuration error.
    pub fn new(allowed: &Vec<String>, denied: &Vec<String>) -> (r: Result<DomainFilter, SandboxError>)
        ensures
            r is Ok <==> all_compile(texts(allowed@)) && all_compile(texts(denied@)),
            r matches Ok(f) ==> f@.allowed == texts(allowed@) && f@.denied == texts(
                denied@,
            ),
            r matches Err(e) ==> e is Config,
    {
        let allowed = compile_patterns(allowed)?;
        let denied = compile_patterns(denied)?;
        Ok(DomainFilter { allowed, denied })
    }

    /// Whether the host may be reached under this policy.
    pub fn is_allowed(&self, host: &str) -> (r: bool)
        ensures
            r == host_allowed(host@, self@.allowed, self@.denied),
    {
        is_domain_allowed(host, &self.allowed, &self.denied)
    }
}

} // verus!
