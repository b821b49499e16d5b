//! Configuration resolution.
//!
//! Merges a caller-supplied tokenizer configuration into one fully
//! resolved analyzer configuration. The explicit system-dictionary path
//! always wins; the resource directory is resolved by priority: the
//! explicit resource path if given, else the parent directory of the
//! configuration file if one was named, else the parent directory of the
//! dictionary itself, and left unset when none of these yields a parent
//! (the analyzer library then applies its own default). Resource files
//! are conventionally co-located with the configuration file, which is
//! why that co-location takes precedence over the dictionary's.

use vstd::prelude::*;
use vstd::string::StrSliceExecFns;
use vstd::string::StringExecFns;

verus! {

/// Configuration for creating a tokenizer.
#[derive(Clone, Debug)]
pub struct TokenizerConfig {
    /// Path to the system dictionary file (.dic)
    pub dictionary_path: String,
    /// Optional path to the analyzer's JSON settings file
    pub config_path: Option<String>,
    /// Optional path to the resource directory (where char.def and
    /// unk.def are located); if not provided, the parent directory of
    /// `config_path` or of `dictionary_path` is used
    pub resource_path: Option<String>,
    /// Optional path to a user dictionary file
    pub user_dictionary_path: Option<String>,
}

impl TokenizerConfig {
    /// The configuration that names just a dictionary: every optional
    /// field is left unset, so creating a tokenizer from it is
    /// equivalent to a full creation with only the dictionary path.
    pub fn from_dictionary_path(dictionary_path: String) -> (r: TokenizerConfig)
        ensures
            r.dictionary_path@ == dictionary_path@,
            r.config_path is None,
            r.resource_path is None,
            r.user_dictionary_path is None,
    {
        TokenizerConfig {
            dictionary_path,
            config_path: None,
            resource_path: None,
            user_dictionary_path: None,
        }
    }
}

/// A fully resolved analyzer configuration, ready for the dictionary
/// loader: exactly one concrete dictionary path, and a resource
/// directory that is either concrete or deliberately left to the
/// analyzer library's default.
#[derive(Clone, Debug)]
pub struct ResolvedConfig {
    /// Path of the compiled system dictionary, exactly as the caller
    /// gave it
    pub dictionary_path: String,
    /// Path of the settings file the analyzer is to parse, if one was
    /// named
    pub config_path: Option<String>,
    /// The resolved resource directory, if any of the resolution steps
    /// yielded one
    pub resource_path: Option<String>,
    /// Path of the user dictionary to overlay, if one was named
    pub user_dictionary_path: Option<String>,
}

/// `path` with its trailing separators removed.
pub open spec fn strip_trailing_seps(path: Seq<char>) -> Seq<char>
    decreases path.len(),
{
    if path.len() > 0 && path[path.len() - 1] == '/' {
        strip_trailing_seps(path.drop_last())
    } else {
        path
    }
}

/// Whether `path` holds a separator anywhere.
pub open spec fn has_sep(path: Seq<char>) -> bool {
    exists|i: int| 0 <= i < path.len() && path[i] == '/'
}

/// The index of the last separator in `path`, or -1 when it has none.
pub open spec fn last_sep(path: Seq<char>) -> int
    decreases path.len(),
{
    if path.len() == 0 {
        -1
    } else if path[path.len() - 1] == '/' {
        path.len() - 1
    } else {
        last_sep(path.drop_last())
    }
}

/// The parent directory of a path, as this facade resolves it: the path
/// up to (and not including) the final component and its separators.
/// A path that is empty or consists only of separators has no parent; a
/// bare file name's parent is the empty path; a final component directly
/// under the root has the root `/` as its parent.
pub open spec fn spec_parent_dir(path: Seq<char>) -> Option<Seq<char>> {
    let t = strip_trailing_seps(path);
    if path.len() == 0 {
        None
    } else if t.len() == 0 {
        None
    } else if !has_sep(t) {
        Some(Seq::empty())
    } else {
        let p = strip_trailing_seps(t.subrange(0, last_sep(t) + 1));
        if p.len() == 0 {
            Some("/"@)
        } else {
            Some(p)
        }
    }
}

/// The largest `r <= end` such that `path[..r]` ends in no separator;
/// `path[..r]` is `path[..end]` with its trailing separators removed.
fn trim_trailing_seps(path: &str, end: usize) -> (r: usize)
    requires
        end <= path@.len(),
    ensures
        r <= end,
        path@.subrange(0, r as int) == strip_trailing_seps(path@.subrange(0, end as int)),
        r > 0 ==> path@[r - 1] != '/',
    decreases end,
{
    if end == 0 {
        assert(path@.subrange(0, 0) == strip_trailing_seps(path@.subrange(0, 0)));
        0
    } else if path.get_char(end - 1) == '/' {
        proof {
            let u = path@.subrange(0, end as int);
            assert(u[u.len() - 1] == '/');
            assert(u.drop_last() =~= path@.subrange(0, end - 1));
        }
        trim_trailing_seps(path, end - 1)
    } else {
        proof {
            let u = path@.subrange(0, end as int);
            assert(u[u.len() - 1] != '/');
            assert(strip_trailing_seps(u) == u);
        }
        end
    }
}

/// The index of the last separator strictly before `end`, if any.
fn find_last_sep(path: &str, end: usize) -> (r: Option<usize>)
    requires
        end <= path@.len(),
    ensures
        match r {
            Some(i) => i < end && path@[i as int] == '/' && (forall|k: int|
                i < k < end ==> path@[k] != '/'),
            None => forall|k: int| 0 <= k < end ==> path@[k] != '/',
        },
    decreases end,
{
    if end == 0 {
        None
    } else if path.get_char(end - 1) == '/' {
        Some(end - 1)
    } else {
        find_last_sep(path, end - 1)
    }
}

/// `last_sep` is the position of the rightmost separator.
proof fn lemma_last_sep_at(path: Seq<char>, i: int)
    requires
        0 <= i < path.len(),
        path[i] == '/',
        forall|k: int| i < k < path.len() ==> path[k] != '/',
    ensures
        last_sep(path) == i,
    decreases path.len(),
{
    if path.len() - 1 > i {
        assert(path[path.len() - 1] != '/');
        assert(path.drop_last() =~= path.subrange(0, path.len() - 1));
        lemma_last_sep_at(path.drop_last(), i);
    }
}

/// The parent directory of a path string, under this facade's
/// resolution rule ([`spec_parent_dir`]).
pub fn parent_dir(path: &str) -> (r: Option<String>)
    ensures
        r.deep_view() == spec_parent_dir(path@),
{
    let n = path.unicode_len();
    proof {
        assert(path@.subrange(0, n as int) =~= path@);
    }
    if n == 0 {
        None
    } else {
        let t_end = trim_trailing_seps(path, n);
        let ghost t = strip_trailing_seps(path@);
        proof {
            assert(t == path@.subrange(0, t_end as int));
            assert(t.len() == t_end);
        }
        if t_end == 0 {
            None
        } else {
            match find_last_sep(path, t_end) {
                None => {
                    proof {
                        assert(!has_sep(t)) by {
                            assert(forall|k: int| 0 <= k < t.len() ==> t[k] == path@[k]);
                        }
                    }
                    Some(String::new())
                },
                Some(j) => {
                    proof {
                        assert(t[j as int] == path@[j as int]);
                        assert(forall|k: int| j < k < t.len() ==> t[k] == path@[k]);
                        lemma_last_sep_at(t, j as int);
                        assert(has_sep(t)) by {
                            assert(0 <= j < t.len() && t[j as int] == '/');
                        }
                        assert(t.subrange(0, j + 1) =~= path@.subrange(0, j + 1));
                    }
                    let p_end = trim_trailing_seps(path, j + 1);
                    let ghost p = strip_trailing_seps(t.subrange(0, last_sep(t) + 1));
                    proof {
                        assert(p == path@.subrange(0, p_end as int));
                        assert(p.len() == p_end);
                    }
                    if p_end == 0 {
                        Some(String::from_str("/"))
                    } else {
                        Some(path.substring_char(0, p_end).to_owned())
                    }
                },
            }
        }
    }
}

/// The resource directory that configuration resolution yields, by
/// priority: the explicit resource path; else the parent directory of
/// the configuration file, if one was named and has a parent; else the
/// parent directory of the dictionary; else none.
pub open spec fn spec_resource_dir(
    dictionary_path: Seq<char>,
    config_path: Option<Seq<char>>,
    resource_path: Option<Seq<char>>,
) -> Option<Seq<char>> {
    match resource_path {
        Some(r) => Some(r),
        None => match config_path {
            Some(c) => match spec_parent_dir(c) {
                Some(p) => Some(p),
                None => spec_parent_dir(dictionary_path),
            },
            None => spec_parent_dir(dictionary_path),
        },
    }
}

/// Resolves a caller-supplied configuration into a fully specified
/// analyzer configuration: the explicit dictionary path is carried over
/// verbatim, the settings file and user dictionary are overlaid exactly
/// as given, and the resource directory is resolved by the priority that
/// [`spec_resource_dir`] states. No I/O happens here; parsing the
/// settings file is the analyzer library's work, after this step.
pub fn resolve_config(config: TokenizerConfig) -> (r: ResolvedConfig)
    ensures
        r.dictionary_path@ == config.dictionary_path@,
        r.config_path.deep_view() == config.config_path.deep_view(),
        r.user_dictionary_path.deep_view() == config.user_dictionary_path.deep_view(),
        r.resource_path.deep_view() == spec_resource_dir(
            config.dictionary_path@,
            config.config_path.deep_view(),
            config.resource_path.deep_view(),
        ),
{
    let resource_path: Option<String> = match &config.resource_path {
        Some(explicit) => Some(explicit.clone()),
        None => {
            let from_config: Option<String> = match &config.config_path {
                Some(c) => parent_dir(c.as_str()),
                None => None,
            };
            match from_config {
                Some(p) => Some(p),
                None => parent_dir(config.dictionary_path.as_str()),
            }
        },
    };
    ResolvedConfig {
        dictionary_path: config.dictionary_path,
        config_path: config.config_path,
        resource_path,
        user_dictionary_path: config.user_dictionary_path,
    }
}

} // verus!
