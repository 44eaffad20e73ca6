//! Which request origins may read a response, from the origins configured at
//! startup: `*`, exact origins, or patterns written between slashes.

use vstd::prelude::*;

use crate::format::texts;

verus! {

#[verifier::external_type_specification]
#[verifier::external_body]
pub struct ExRegex(regex::Regex);

/// `regex::Regex::new` accepts the pattern.
pub uninterp spec fn regex_valid(pattern: Seq<char>) -> bool;

/// The regular expression `pattern` matches somewhere in `text`.
pub uninterp spec fn regex_matches(pattern: Seq<char>, text: Seq<char>) -> bool;

/// A compiled pattern and the text it was compiled from.
pub struct Pattern {
    source: String,
    re: regex::Regex,
}

impl View for Pattern {
    type V = Seq<char>;

    closed spec fn view(&self) -> Seq<char> {
        self.source@
    }
}

impl Pattern {
    /// Relies on `regex::Regex::new`: the pattern compiled, where it is valid.
    #[verifier::external_body]
    pub fn compile(source: &str) -> (r: Option<Pattern>)
        ensures
            r is Some <==> regex_valid(source@),
            r matches Some(p) ==> p@ == source@,
    {
        regex::Regex::new(source).ok().map(|re| Pattern { source: source.to_string(), re })
    }

    /// Relies on `regex::Regex::is_match`: whether the pattern matches in `text`.
    #[verifier::external_body]
    pub fn is_match(&self, text: &str) -> (r: bool)
        ensures
            r == regex_matches(self@, text@),
    {
        self.re.is_match(text)
    }
}

/// One configured origin.
pub enum CorsOrigin {
    /// Origins that the pattern matches.
    Regex(Pattern),
    /// Exactly this origin.
    String(String),
}

/// Who may read responses.
pub enum CorsPolicy {
    /// Any origin.
    Any,
    /// Exactly these origins.
    List(Vec<String>),
    /// Origins that one of these entries admits.
    Matchers(Vec<CorsOrigin>),
}

/// Why the configured origins could not be used.
#[derive(Debug, PartialEq, Eq)]
pub enum CorsError {
    /// The pattern at this position of the configuration does not compile.
    InvalidPattern(usize),
}

/// A configured origin written between slashes, `/.../`, is a pattern.
pub open spec fn is_pattern(o: Seq<char>) -> bool {
    o.len() >= 2 && o[0] == '/' && o[o.len() - 1] == '/'
}

/// The text between the slashes of a pattern origin.
pub open spec fn pattern_source(o: Seq<char>) -> Seq<char> {
    o.subrange(1, o.len() - 1)
}

pub open spec fn starts_or_ends_with_slash(o: Seq<char>) -> bool {
    o.len() >= 1 && (o[0] == '/' || o[o.len() - 1] == '/')
}

/// The configuration is exactly the wildcard `*`.
pub open spec fn is_wildcard(config: Seq<Seq<char>>) -> bool {
    config.len() == 1 && config[0] == "*"@
}

/// Several origins, none of them touching a slash at either end.
pub open spec fn is_plain_list(config: Seq<Seq<char>>) -> bool {
    config.len() > 1 && forall|i: int| 0 <= i < config.len() ==> !starts_or_ends_with_slash(#[trigger] config[i])
}

/// A configured origin admits `origin`.
pub open spec fn entry_admits(entry: Seq<char>, origin: Seq<char>) -> bool {
    if is_pattern(entry) {
        regex_matches(pattern_source(entry), origin)
    } else {
        entry == origin
    }
}

/// Every pattern in the configuration compiles.
pub open spec fn patterns_valid(config: Seq<Seq<char>>) -> bool {
    forall|i: int| 0 <= i < config.len() && is_pattern(#[trigger] config[i]) ==> regex_valid(pattern_source(config[i]))
}

/// Whether the configuration lets `origin` read responses.
pub open spec fn origin_allowed(config: Seq<Seq<char>>, origin: Seq<char>) -> bool {
    if is_wildcard(config) {
        true
    } else if is_plain_list(config) {
        exists|i: int| 0 <= i < config.len() && config[i] == origin
    } else {
        exists|i: int| 0 <= i < config.len() && entry_admits(#[trigger] config[i], origin)
    }
}

/// The entry `e` was read from the configured origin `o`: a pattern over the text
/// between its slashes, or the exact origin.
pub open spec fn entry_from(e: CorsOrigin, o: Seq<char>) -> bool {
    match e {
        CorsOrigin::Regex(p) => is_pattern(o) && p@ == pattern_source(o),
        CorsOrigin::String(t) => !is_pattern(o) && t@ == o,
    }
}

impl CorsOrigin {
    pub open spec fn admits(&self, origin: Seq<char>) -> bool {
        match self {
            CorsOrigin::Regex(p) => regex_matches(p@, origin),
            CorsOrigin::String(s) => s@ == origin,
        }
    }
}

impl CorsPolicy {
    /// The policy follows the configuration `config`.
    pub open spec fn follows(&self, config: Seq<Seq<char>>) -> bool {
        match self {
            CorsPolicy::Any => is_wildcard(config),
            CorsPolicy::List(l) => !is_wildcard(config) && is_plain_list(config) && texts(l@) == config,
            CorsPolicy::Matchers(ms) => !is_wildcard(config) && !is_plain_list(config) && ms.len() == config.len()
                && forall|i: int, o: Seq<char>| 0 <= i < config.len() ==> #[trigger] ms@[i].admits(o) == entry_admits(config[i], o),
        }
    }

    /// The policy admits `origin`.
    pub open spec fn admits(&self, origin: Seq<char>) -> bool {
        match self {
            CorsPolicy::Any => true,
            CorsPolicy::List(l) => exists|i: int| 0 <= i < l.len() && (#[trigger] l@[i])@ == origin,
            CorsPolicy::Matchers(ms) => exists|i: int| 0 <= i < ms.len() && (#[trigger] ms@[i]).admits(origin),
        }
    }

    /// Whether `origin` may read responses.
    pub fn allows(&self, origin: &str) -> (r: bool)
        ensures
            r == self.admits(origin@),
    {
        match self {
            CorsPolicy::Any => true,
            CorsPolicy::List(l) => {
                let target = String::from_str(origin);
                let mut i: usize = 0;
                while i < l.len()
                    invariant
                        i <= l.len(),
                        target@ == origin@,
                        self.admits(origin@) <==> exists|k: int| 0 <= k < l.len() && (#[trigger] l@[k])@ == origin@,
                        forall|k: int| 0 <= k < i ==> (#[trigger] l@[k])@ != origin@,
                    decreases l.len() - i,
                {
                    if l[i] == target {
                        assert(l@[i as int]@ == origin@);
                        return true;
                    }
                    i = i + 1;
                }
                false
            },
            CorsPolicy::Matchers(ms) => {
                let mut i: usize = 0;
                while i < ms.len()
                    invariant
                        i <= ms.len(),
                        self.admits(origin@) <==> exists|k: int| 0 <= k < ms.len() && (#[trigger] ms@[k]).admits(origin@),
                        forall|k: int| 0 <= k < i ==> !(#[trigger] ms@[k]).admits(origin@),
                    decreases ms.len() - i,
                {
                    let hit = match &ms[i] {
                        CorsOrigin::Regex(p) => p.is_match(origin),
                        CorsOrigin::String(s) => *s == String::from_str(origin),
                    };
                    if hit {
                        assert(ms@[i as int].admits(origin@));
                        return true;
                    }
                    i = i + 1;
                }
                false
            },
        }
    }
}

/// A policy admits exactly the origins that the configuration it follows allows.
pub proof fn lemma_policy_follows_config(p: CorsPolicy, config: Seq<Seq<char>>, origin: Seq<char>)
    requires
        p.follows(config),
    ensures
        p.admits(origin) == origin_allowed(config, origin),
{
    match p {
        CorsPolicy::Any => {},
        CorsPolicy::List(l) => {
            if p.admits(origin) {
                let i = choose|i: int| 0 <= i < l.len() && (#[trigger] l@[i])@ == origin;
                assert(config[i] == l@[i]@);
            }
            if origin_allowed(config, origin) {
                let i = choose|i: int| 0 <= i < config.len() && config[i] == origin;
                assert(config[i] == l@[i]@);
            }
        },
        CorsPolicy::Matchers(ms) => {
            if p.admits(origin) {
                let i = choose|i: int| 0 <= i < ms.len() && (#[trigger] ms@[i]).admits(origin);
                assert(entry_admits(config[i], origin));
            }
            if origin_allowed(config, origin) {
                let i = choose|i: int| 0 <= i < config.len() && entry_admits(#[trigger] config[i], origin);
                assert(ms@[i].admits(origin));
            }
        },
    }
}

/// A configuration that is exactly `*` lets every origin read.
pub proof fn lemma_wildcard_allows_any(origin: Seq<char>)
    ensures
        origin_allowed(seq!["*"@], origin),
{
    assert(is_wildcard(seq!["*"@]));
}

/// Reads one configured origin: between slashes, a pattern to compile; else an
/// exact origin.
pub fn cors_origin(o: &str) -> (r: Option<CorsOrigin>)
    ensures
        r is Some <==> (is_pattern(o@) ==> regex_valid(pattern_source(o@))),
        r matches Some(e) ==> forall|x: Seq<char>| #[trigger] e.admits(x) == entry_admits(o@, x),
        r matches Some(e) ==> entry_from(e, o@),
{
    let n = o.unicode_len();
    if n >= 2 && o.get_char(0) == '/' && o.get_char(n - 1) == '/' {
        let source = o.substring_char(1, n - 1);
        match Pattern::compile(source) {
            Some(p) => Some(CorsOrigin::Regex(p)),
            None => None,
        }
    } else {
        Some(CorsOrigin::String(String::from_str(o)))
    }
}

fn touches_slash(o: &str) -> (r: bool)
    ensures
        r == starts_or_ends_with_slash(o@),
{
    let n = o.unicode_len();
    n >= 1 && (o.get_char(0) == '/' || o.get_char(n - 1) == '/')
}

/// Builds the policy once from the configured origins: `*` alone admits all;
/// several origins without slashes form an exact list; otherwise each entry is
/// an exact origin or a compiled pattern, and an origin is admitted where any
/// entry admits it. Fails where a pattern does not compile.
pub fn cors_policy(origins: &Vec<String>) -> (r: Result<CorsPolicy, CorsError>)
    ensures
        match r {
            Ok(p) => p.follows(texts(origins@)) && (p matches CorsPolicy::Matchers(ms) ==> forall|i: int|
                0 <= i < ms.len() ==> entry_from(#[trigger] ms@[i], origins@[i]@)),
            Err(CorsError::InvalidPattern(i)) => i < origins.len() && is_pattern(origins@[i as int]@)
                && !regex_valid(pattern_source(origins@[i as int]@)),
        },
        r is Ok <==> (is_wildcard(texts(origins@)) || is_plain_list(texts(origins@)) || patterns_valid(texts(origins@))),
{
    let ghost config = texts(origins@);
    if origins.len() == 1 && origins[0] == String::from_str("*") {
        return Ok(CorsPolicy::Any);
    }
    assert(!is_wildcard(config));
    if origins.len() > 1 {
        let mut plain = true;
        let mut i: usize = 0;
        while i < origins.len()
            invariant
                config == texts(origins@),
                i <= origins.len(),
                plain == forall|k: int| 0 <= k < i ==> !starts_or_ends_with_slash(#[trigger] config[k]),
            decreases origins.len() - i,
        {
            assert(config[i as int] == origins@[i as int]@);
            if touches_slash(origins[i].as_str()) {
                plain = false;
            }
            i = i + 1;
        }
        if plain {
            let mut list: Vec<String> = Vec::new();
            let mut j: usize = 0;
            while j < origins.len()
                invariant
                    config == texts(origins@),
                    j <= origins.len(),
                    texts(list@) == config.subrange(0, j as int),
                decreases origins.len() - j,
            {
                let ghost before = list@;
                let item = origins[j].clone();
                list.push(item);
                assert(config[j as int] == origins@[j as int]@);
                assert(list@ == before.push(item));
                assert(texts(list@) =~= texts(before).push(item@));
                assert(texts(list@) =~= config.subrange(0, j as int + 1));
                j = j + 1;
            }
            assert(config.subrange(0, j as int) == config);
            return Ok(CorsPolicy::List(list));
        }
    }
    assert(!is_plain_list(config));
    let mut ms: Vec<CorsOrigin> = Vec::new();
    let mut i: usize = 0;
    while i < origins.len()
        invariant
            config == texts(origins@),
            !is_wildcard(config),
            !is_plain_list(config),
            i <= origins.len(),
            ms.len() == i,
            forall|k: int, o: Seq<char>| 0 <= k < i ==> #[trigger] ms@[k].admits(o) == entry_admits(config[k], o),
            forall|k: int| 0 <= k < i && is_pattern(#[trigger] config[k]) ==> regex_valid(pattern_source(config[k])),
            forall|k: int| 0 <= k < i ==> entry_from(#[trigger] ms@[k], origins@[k]@),
        decreases origins.len() - i,
    {
        assert(config[i as int] == origins@[i as int]@);
        match cors_origin(origins[i].as_str()) {
            Some(e) => {
                ms.push(e);
            },
            None => {
                assert(!patterns_valid(config));
                return Err(CorsError::InvalidPattern(i));
            },
        }
        i = i + 1;
    }
    Ok(CorsPolicy::Matchers(ms))
}

} // verus!
