use vstd::prelude::*;
use vstd::string::StrSliceExecFns;
use vstd::string::StringExecFns;
use regex::Regex;

verus! {

#[verifier::external_type_specification]
#[verifier::external_body]
pub struct ExRegex(regex::Regex);

#[verifier::external_type_specification]
#[verifier::external_body]
pub struct ExRegexError(regex::Error);

/// Whether a compiled regex matches somewhere in `name`.
pub uninterp spec fn regex_accepts(re: Regex, name: Seq<char>) -> bool;

/// Relies on `regex::Regex::new`: compiles a pattern, or reports that it is
/// not a valid regex.
#[verifier::external_body]
fn compile(pattern: &str) -> (r: Result<Regex, regex::Error>) {
    Regex::new(pattern)
}

/// Relies on `regex::Regex::is_match`: whether the regex matches anywhere in
/// the haystack, which depends on the regex and the haystack alone.
#[verifier::external_body]
fn regex_is_match(re: &Regex, name: &str) -> (r: bool)
    ensures
        r == regex_accepts(*re, name@),
{
    re.is_match(name)
}

/// Which implementations of the registry a run measures.
pub enum Selection {
    /// Every implementation, in registry order.
    All,
    /// Only the first implementation.
    First,
    /// Only the implementation with exactly this name.
    Named(String),
    /// Every implementation whose name the regex matches, in registry order.
    Matching(Regex),
}

/// Why no selection could be made.
#[derive(Debug, PartialEq, Eq)]
pub enum SelectionError {
    /// The `--filter` argument is not a valid regex.
    InvalidPattern(String),
    /// No implementation has the name given to `--single`.
    NotFound(String),
}

/// The views of a list of strings.
pub open spec fn views(v: Seq<String>) -> Seq<Seq<char>> {
    v.map_values(|s: String| s@)
}

/// Whether a command-line argument looks like a flag.
pub open spec fn is_flag(a: Seq<char>) -> bool {
    a.len() > 0 && a[0] == '-'
}

/// The index of the first occurrence of `w` in `args`, or -1.
pub open spec fn find(args: Seq<Seq<char>>, w: Seq<char>) -> int
    decreases args.len(),
{
    if args.len() == 0 {
        -1
    } else {
        let k = find(args.drop_last(), w);
        if k >= 0 {
            k
        } else if args.last() == w {
            args.len() - 1
        } else {
            -1
        }
    }
}

/// Whether the argument after position `i` is a value rather than a flag.
pub open spec fn has_value(args: Seq<Seq<char>>, i: int) -> bool {
    0 <= i && i + 1 < args.len() && !is_flag(args[i + 1])
}

/// What the command line asks to select, before any regex is compiled.
pub enum Intent {
    All,
    First,
    Named(Seq<char>),
    Pattern(Seq<char>),
}

/// The selection that a command line asks for: `--single [NAME]` wins over
/// `--filter REGEX`; a flag without its value counts as absent for `--filter`
/// and as unnamed for `--single`.
pub open spec fn intent_of(args: Seq<Seq<char>>) -> Intent {
    let s = find(args, "--single"@);
    let f = find(args, "--filter"@);
    if s >= 0 {
        if has_value(args, s) {
            Intent::Named(args[s + 1])
        } else {
            Intent::First
        }
    } else if has_value(args, f) {
        Intent::Pattern(args[f + 1])
    } else {
        Intent::All
    }
}

/// Whether the implementation at index `i` is chosen.
pub open spec fn chosen(sel: Selection, names: Seq<Seq<char>>, i: int) -> bool {
    match sel {
        Selection::All => true,
        Selection::First => i == 0,
        Selection::Named(s) => names[i] == s@ && forall|j: int| 0 <= j < i ==> names[j] != s@,
        Selection::Matching(re) => regex_accepts(re, names[i]),
    }
}

/// The chosen indices below `k`, ascending.
pub open spec fn chosen_upto(sel: Selection, names: Seq<Seq<char>>, k: int) -> Seq<usize>
    decreases k,
{
    if k <= 0 {
        Seq::empty()
    } else {
        let r = chosen_upto(sel, names, k - 1);
        if chosen(sel, names, k - 1) {
            r.push((k - 1) as usize)
        } else {
            r
        }
    }
}

/// Whether some name equals `s`.
pub open spec fn has_name(names: Seq<Seq<char>>, s: Seq<char>) -> bool {
    exists|j: int| 0 <= j < names.len() && names[j] == s
}

/// Whether argument `a` is a flag.
fn arg_is_flag(a: &String) -> (r: bool)
    ensures
        r == is_flag(a@),
{
    let s = a.as_str();
    s.unicode_len() > 0 && s.get_char(0) == '-'
}

/// The index of the first argument equal to `w`, if any.
fn find_arg(args: &Vec<String>, w: &str) -> (r: Option<usize>)
    ensures
        match r {
            Some(i) => find(views(args@), w@) == i as int && i < args.len(),
            None => find(views(args@), w@) == -1,
        },
{
    let ghost v = views(args@);
    let word = String::from_str(w);
    let mut found: Option<usize> = None;
    let mut i: usize = 0;
    while i < args.len()
        invariant
            v == views(args@),
            word@ == w@,
            0 <= i <= args.len(),
            match found {
                Some(k) => find(v.subrange(0, i as int), w@) == k as int && k < i,
                None => find(v.subrange(0, i as int), w@) == -1,
            },
        decreases args.len() - i,
    {
        assert(v.subrange(0, i + 1).drop_last() == v.subrange(0, i as int));
        if found.is_none() && args[i] == word {
            found = Some(i);
        }
        i = i + 1;
    }
    assert(v.subrange(0, args.len() as int) == v);
    found
}

/// Whether `sel` is what `intent` asks for.
pub open spec fn realizes(sel: Selection, intent: Intent) -> bool {
    match intent {
        Intent::All => sel is All,
        Intent::First => sel is First,
        Intent::Named(n) => sel is Named && sel->Named_0@ == n,
        Intent::Pattern(_) => sel is Matching,
    }
}

/// The selection that a command line asks for. Fails only where `--filter`
/// names a pattern that does not compile.
pub fn selection_from_args(args: &Vec<String>) -> (r: Result<Selection, SelectionError>)
    ensures
        match r {
            Ok(sel) => realizes(sel, intent_of(views(args@))),
            Err(e) => intent_of(views(args@)) is Pattern
                && e is InvalidPattern && e->InvalidPattern_0@ == intent_of(views(args@))->Pattern_0,
        },
        !(intent_of(views(args@)) is Pattern) ==> r is Ok,
{
    let ghost v = views(args@);
    let single = find_arg(args, "--single");
    let filter = find_arg(args, "--filter");
    proof {
        reveal_strlit("--single");
        reveal_strlit("--filter");
    }
    match single {
        Some(i) => {
            if i + 1 < args.len() && !arg_is_flag(&args[i + 1]) {
                assert(v[i + 1] == args@[i + 1]@);
                return Ok(Selection::Named(args[i + 1].clone()));
            }
            return Ok(Selection::First);
        },
        None => {},
    }
    match filter {
        Some(i) => {
            if i + 1 < args.len() && !arg_is_flag(&args[i + 1]) {
                assert(v[i + 1] == args@[i + 1]@);
                let pattern = &args[i + 1];
                return match compile(pattern.as_str()) {
                    Ok(re) => Ok(Selection::Matching(re)),
                    Err(_) => Err(SelectionError::InvalidPattern(pattern.clone())),
                };
            }
        },
        None => {},
    }
    Ok(Selection::All)
}

/// The indices of the implementations that `sel` chooses from the registry
/// `names`, in registry order. Fails, before any trial, only when a name is
/// asked for that no implementation has.
pub fn select(sel: &Selection, names: &Vec<String>) -> (r: Result<Vec<usize>, SelectionError>)
    ensures
        match r {
            Ok(v) => v@ == chosen_upto(*sel, views(names@), names.len() as int),
            Err(e) => sel is Named && !has_name(views(names@), sel->Named_0@)
                && e is NotFound && e->NotFound_0@ == sel->Named_0@,
        },
        r is Err <==> (sel is Named && !has_name(views(names@), sel->Named_0@)),
{
    let ghost v = views(names@);
    let mut out: Vec<usize> = Vec::new();
    let mut seen = false;
    let mut i: usize = 0;
    while i < names.len()
        invariant
            v == views(names@),
            0 <= i <= names.len(),
            out@ == chosen_upto(*sel, v, i as int),
            sel is Named ==> (seen <==> exists|j: int| 0 <= j < i && v[j] == sel->Named_0@),
        decreases names.len() - i,
    {
        let pick = match sel {
            Selection::All => true,
            Selection::First => i == 0,
            Selection::Named(s) => !seen && names[i] == *s,
            Selection::Matching(re) => regex_is_match(re, names[i].as_str()),
        };
        if pick {
            out.push(i);
        }
        if let Selection::Named(s) = sel {
            if names[i] == *s {
                seen = true;
            }
        }
        i = i + 1;
    }
    if let Selection::Named(s) = sel {
        if !seen {
            return Err(SelectionError::NotFound(s.clone()));
        }
    }
    Ok(out)
}

/// What a selection chooses is part of what the full registry chooses: a
/// single named implementation is measured as one of the full run's.
pub proof fn lemma_selection_within_all(sel: Selection, names: Seq<Seq<char>>)
    requires
        names.len() <= usize::MAX,
    ensures
        forall|j: int|
            0 <= j < chosen_upto(sel, names, names.len() as int).len() ==> chosen_upto(
                Selection::All,
                names,
                names.len() as int,
            ).contains(#[trigger] chosen_upto(sel, names, names.len() as int)[j]),
{
    let n = names.len() as int;
    lemma_chosen_below(sel, names, n);
    lemma_all_upto(names, n);
    assert forall|j: int| 0 <= j < chosen_upto(sel, names, n).len() implies chosen_upto(
        Selection::All,
        names,
        n,
    ).contains(#[trigger] chosen_upto(sel, names, n)[j]) by {
        let x = chosen_upto(sel, names, n)[j];
        assert(chosen_upto(Selection::All, names, n)[x as int] == x);
    }
}

/// Every chosen index lies below the bound.
proof fn lemma_chosen_below(sel: Selection, names: Seq<Seq<char>>, k: int)
    requires
        k <= usize::MAX + 1,
    ensures
        forall|j: int|
            0 <= j < chosen_upto(sel, names, k).len() ==> (#[trigger] chosen_upto(sel, names, k)[j])
                < k,
    decreases k,
{
    if k > 0 {
        lemma_chosen_below(sel, names, k - 1);
        let prev = chosen_upto(sel, names, k - 1);
        assert forall|j: int| 0 <= j < chosen_upto(sel, names, k).len() implies (#[trigger] chosen_upto(
            sel,
            names,
            k,
        )[j]) < k by {
            if j < prev.len() {
                assert(chosen_upto(sel, names, k)[j] == prev[j]);
            }
        }
    }
}

/// Selecting all gives every index below the bound, in order.
proof fn lemma_all_upto(names: Seq<Seq<char>>, k: int)
    requires
        k <= usize::MAX + 1,
    ensures
        k >= 0 ==> chosen_upto(Selection::All, names, k).len() == k,
        forall|i: int| 0 <= i < k ==> #[trigger] chosen_upto(Selection::All, names, k)[i] == i,
    decreases k,
{
    if k > 0 {
        lemma_all_upto(names, k - 1);
    }
}

/// A pattern that matches no implementation's name selects nothing, and is no
/// error.
pub proof fn lemma_no_match_selects_nothing(re: Regex, names: Seq<Seq<char>>)
    requires
        forall|i: int| 0 <= i < names.len() ==> !regex_accepts(re, #[trigger] names[i]),
    ensures
        chosen_upto(Selection::Matching(re), names, names.len() as int).len() == 0,
{
    lemma_no_match_upto(re, names, names.len() as int);
}

proof fn lemma_no_match_upto(re: Regex, names: Seq<Seq<char>>, k: int)
    requires
        k <= names.len(),
        forall|i: int| 0 <= i < names.len() ==> !regex_accepts(re, #[trigger] names[i]),
    ensures
        chosen_upto(Selection::Matching(re), names, k).len() == 0,
    decreases k,
{
    if k > 0 {
        lemma_no_match_upto(re, names, k - 1);
    }
}

} // verus!
