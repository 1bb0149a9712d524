//! Existence-probe support: which candidate strings stand for the command, and
//! which filesystem paths must be tested, in order, to decide whether an
//! invocable executable exists. The filesystem test itself is the shell's:
//! the command exists exactly when some listed path is a file, and the shell
//! probes the paths in the order given here.

use vstd::prelude::*;

use crate::text::{is_sep, join_spec, join_under, trim_spec, trim_str};

verus! {

/// The views of a sequence of owned strings.
pub open spec fn str_views(v: Seq<String>) -> Seq<Seq<char>> {
    v.map_values(|x: String| x@)
}

/// Whether the command string names a path rather than a bare command: it
/// holds a path separator, or (on Windows) starts with a drive prefix.
pub open spec fn has_path_components_spec(s: Seq<char>, windows: bool) -> bool {
    (exists|i: int| 0 <= i < s.len() && is_sep(#[trigger] s[i], windows))
        || (windows && s.len() >= 2 && s[1] == ':')
}

/// Whether the command string names a path rather than a bare command.
pub fn has_path_components(binary: &str, windows: bool) -> (b: bool)
    ensures
        b == has_path_components_spec(binary@, windows),
{
    let n = binary.unicode_len();
    if windows && n >= 2 && binary.get_char(1) == ':' {
        return true;
    }
    let mut i: usize = 0;
    while i < n
        invariant
            0 <= i <= n,
            n == binary@.len(),
            forall|k: int| 0 <= k < i ==> !is_sep(#[trigger] binary@[k], windows),
        decreases n - i,
    {
        let c = binary.get_char(i);
        if c == '/' || (windows && c == '\\') {
            return true;
        }
        i = i + 1;
    }
    false
}

/// Whether the dot at index `i` marks an executable suffix: it stands inside
/// the final path component, after that component's first character.
pub open spec fn dot_marks_suffix(s: Seq<char>, i: int, windows: bool) -> bool {
    &&& 0 < i < s.len()
    &&& s[i] == '.'
    &&& !is_sep(s[i - 1], windows)
    &&& forall|k: int| i < k < s.len() ==> !is_sep(#[trigger] s[k], windows)
}

/// Whether the command string already carries an executable suffix.
pub open spec fn has_suffix(s: Seq<char>, windows: bool) -> bool {
    exists|i: int| dot_marks_suffix(s, i, windows)
}

/// Whether the command string already carries an executable suffix.
fn str_has_suffix(s: &str, windows: bool) -> (b: bool)
    ensures
        b == has_suffix(s@, windows),
{
    let n = s.unicode_len();
    let mut k: usize = n;
    let mut found = false;
    let mut stop = false;
    while k > 0 && !stop
        invariant
            0 <= k <= n,
            n == s@.len(),
            !stop ==> forall|m: int| k <= m < n ==> !is_sep(#[trigger] s@[m], windows),
            !stop ==> (found <==> exists|i: int| k <= i < n && dot_marks_suffix(s@, i, windows)),
            stop ==> (found == has_suffix(s@, windows)),
        decreases k, (if stop { 0int } else { 1int }),
    {
        let c = s.get_char(k - 1);
        if c == '/' || (windows && c == '\\') {
            proof {
                assert(is_sep(s@[k - 1], windows));
                assert forall|i: int| dot_marks_suffix(s@, i, windows) implies k <= i < n by {
                    if i < k - 1 {
                        assert(!is_sep(s@[k - 1], windows));
                    } else if i == k - 1 {
                        assert(s@[i] == '.');
                    }
                }
            }
            stop = true;
        } else {
            let mut qualifies = false;
            if c == '.' && k >= 2 {
                let prev = s.get_char(k - 2);
                if !(prev == '/' || (windows && prev == '\\')) {
                    qualifies = true;
                }
            }
            proof {
                if qualifies {
                    assert(dot_marks_suffix(s@, k - 1, windows));
                }
                assert forall|i: int| k - 1 <= i < n && dot_marks_suffix(
                    s@,
                    i,
                    windows,
                ) implies (i == k - 1 && qualifies) || (k <= i < n && dot_marks_suffix(
                    s@,
                    i,
                    windows,
                )) by {
                    if i == k - 1 {
                        assert(s@[i] == '.');
                        assert(i > 0);
                        assert(!is_sep(s@[i - 1], windows));
                    }
                }
            }
            found = found || qualifies;
            k = k - 1;
        }
    }
    proof {
        if !stop {
            assert(k == 0);
            assert forall|i: int| dot_marks_suffix(s@, i, windows) implies 0 <= i < n by {}
        }
    }
    found
}

/// The index of the first `;` in `s`, or `s.len()` where there is none.
pub open spec fn first_semi(s: Seq<char>) -> int
    decreases s.len(),
{
    if s.len() == 0 {
        0
    } else if s[0] == ';' {
        0
    } else {
        1 + first_semi(s.subrange(1, s.len() as int))
    }
}

proof fn lemma_first_semi_bounds(s: Seq<char>)
    ensures
        0 <= first_semi(s) <= s.len(),
    decreases s.len(),
{
    if s.len() > 0 && s[0] != ';' {
        lemma_first_semi_bounds(s.subrange(1, s.len() as int));
    }
}

proof fn lemma_first_semi_at(s: Seq<char>, i: int)
    requires
        0 <= i <= s.len(),
        forall|k: int| 0 <= k < i ==> s[k] != ';',
        i < s.len() ==> s[i] == ';',
    ensures
        first_semi(s) == i,
    decreases s.len(),
{
    if s.len() == 0 {
    } else if s[0] == ';' {
        assert(i == 0);
    } else {
        assert(i >= 1);
        let t = s.subrange(1, s.len() as int);
        lemma_first_semi_at(t, i - 1);
    }
}

/// A suffix entry normalised to start with a dot.
pub open spec fn normalized_suffix(e: Seq<char>) -> Seq<char> {
    if e.len() > 0 && e[0] == '.' {
        e
    } else {
        seq!['.'] + e
    }
}

/// The suffixes drawn from a `;`-separated suffix list: each entry is trimmed,
/// empty entries are dropped, and each kept entry is normalised to start with
/// a dot, in the order listed.
pub open spec fn ext_suffixes(s: Seq<char>) -> Seq<Seq<char>>
    decreases s.len(),
    via ext_suffixes_decreases
{
    let i = first_semi(s);
    let piece = trim_spec(s.subrange(0, i));
    let this: Seq<Seq<char>> = if piece.len() == 0 {
        Seq::empty()
    } else {
        seq![normalized_suffix(piece)]
    };
    if i == s.len() {
        this
    } else {
        this + ext_suffixes(s.subrange(i + 1, s.len() as int))
    }
}

#[via_fn]
proof fn ext_suffixes_decreases(s: Seq<char>) {
    lemma_first_semi_bounds(s);
}

/// The suffix list consulted when the platform's suffix-list variable is not
/// set.
pub open spec fn default_pathext() -> Seq<char> {
    ".COM;.EXE;.BAT;.CMD"@
}

/// Splits a `;`-separated suffix list into normalised suffixes.
fn pathext_suffixes(pathext: &str) -> (out: Vec<String>)
    ensures
        str_views(out@) == ext_suffixes(pathext@),
{
    let n = pathext.unicode_len();
    let mut out: Vec<String> = Vec::new();
    let mut start: usize = 0;
    let mut done = false;
    proof {
        assert(pathext@.subrange(0, n as int) =~= pathext@);
        assert(str_views(out@) =~= Seq::<Seq<char>>::empty());
        assert(str_views(out@) + ext_suffixes(pathext@.subrange(0, n as int)) =~= ext_suffixes(
            pathext@,
        ));
    }
    while !done
        invariant
            0 <= start <= n,
            n == pathext@.len(),
            !done ==> ext_suffixes(pathext@) == str_views(out@) + ext_suffixes(
                pathext@.subrange(start as int, n as int),
            ),
            done ==> str_views(out@) == ext_suffixes(pathext@),
        decreases n - start, (if done { 0int } else { 1int }),
    {
        let ghost rest = pathext@.subrange(start as int, n as int);
        let mut end: usize = start;
        while end < n && pathext.get_char(end) != ';'
            invariant
                start <= end <= n,
                n == pathext@.len(),
                forall|k: int| start <= k < end ==> #[trigger] pathext@[k] != ';',
            decreases n - end,
        {
            end = end + 1;
        }
        proof {
            assert forall|k: int| 0 <= k < end - start implies rest[k] != ';' by {
                assert(rest[k] == pathext@[start + k]);
            }
            if end < n {
                assert(rest[end - start] == pathext@[end as int]);
            }
            lemma_first_semi_at(rest, end - start);
        }
        let piece = pathext.substring_char(start, end);
        let trimmed = trim_str(piece);
        proof {
            assert(rest.subrange(0, end - start) =~= pathext@.subrange(start as int, end as int));
        }
        let ghost before = str_views(out@);
        let ghost piece_spec = trim_spec(rest.subrange(0, first_semi(rest)));
        proof {
            assert(trimmed@ == piece_spec);
        }
        if trimmed.as_str().unicode_len() > 0 {
            if trimmed.as_str().get_char(0) == '.' {
                proof {
                    assert(normalized_suffix(piece_spec) == piece_spec);
                }
                out.push(trimmed);
            } else {
                let dotted = String::from_str(".").concat(trimmed.as_str());
                proof {
                    reveal_strlit(".");
                    assert(dotted@ =~= normalized_suffix(piece_spec));
                }
                out.push(dotted);
            }
            proof {
                assert(str_views(out@) =~= before + seq![normalized_suffix(piece_spec)]);
            }
        } else {
            proof {
                assert(str_views(out@) =~= before + Seq::<Seq<char>>::empty());
            }
        }
        proof {
            let ghost this: Seq<Seq<char>> = if piece_spec.len() == 0 {
                Seq::empty()
            } else {
                seq![normalized_suffix(piece_spec)]
            };
            assert(str_views(out@) =~= before + this);
        }
        if end == n {
            proof {
                assert(first_semi(rest) == rest.len());
                assert(str_views(out@) =~= ext_suffixes(pathext@));
            }
            done = true;
        } else {
            proof {
                assert(rest.subrange(end - start + 1, rest.len() as int) =~= pathext@.subrange(
                    end + 1,
                    n as int,
                ));
                let tail = ext_suffixes(pathext@.subrange(end + 1, n as int));
                assert(ext_suffixes(pathext@) =~= str_views(out@) + tail);
            }
            start = end + 1;
        }
    }
    out
}

/// The candidate command strings the prober must consider: the command itself,
/// and — on Windows, when the command carries no suffix — the command with
/// each listed executable suffix appended, in list order.
pub open spec fn candidates_spec(
    binary: Seq<char>,
    windows: bool,
    pathext: Option<Seq<char>>,
) -> Seq<Seq<char>> {
    let base: Seq<Seq<char>> = seq![binary];
    if windows && !has_suffix(binary, windows) {
        let p = match pathext {
            Option::Some(p) => p,
            Option::None => default_pathext(),
        };
        base + ext_suffixes(p).map_values(|e: Seq<char>| binary + e)
    } else {
        base
    }
}

/// Builds the candidate command strings for `binary`. `pathext` is the
/// platform's executable-suffix-list variable, where it is set.
pub fn executable_candidates(binary: &str, windows: bool, pathext: Option<&str>) -> (out: Vec<
    String,
>)
    ensures
        str_views(out@) == candidates_spec(
            binary@,
            windows,
            match pathext {
                Option::Some(p) => Option::Some(p@),
                Option::None => Option::None,
            },
        ),
{
    let mut out: Vec<String> = Vec::new();
    out.push(String::from_str(binary));
    proof {
        assert(str_views(out@) =~= seq![binary@]);
    }
    if windows && !str_has_suffix(binary, windows) {
        let suffixes = match pathext {
            Option::Some(p) => pathext_suffixes(p),
            Option::None => pathext_suffixes(".COM;.EXE;.BAT;.CMD"),
        };
        let ghost suffix_views = str_views(suffixes@);
        let n = suffixes.len();
        let mut j: usize = 0;
        while j < n
            invariant
                0 <= j <= n,
                n == suffixes@.len(),
                suffix_views == str_views(suffixes@),
                str_views(out@) =~= seq![binary@] + suffix_views.subrange(0, j as int).map_values(
                    |e: Seq<char>| binary@ + e,
                ),
            decreases n - j,
        {
            proof {
                assert(suffixes@[j as int]@ == suffix_views[j as int]);
            }
            let ghost before = str_views(out@);
            let cand = String::from_str(binary).concat(suffixes[j].as_str());
            out.push(cand);
            proof {
                assert(str_views(out@) =~= before.push(binary@ + suffix_views[j as int]));
                assert(suffix_views.subrange(0, j + 1).map_values(|e: Seq<char>| binary@ + e)
                    =~= suffix_views.subrange(0, j as int).map_values(
                    |e: Seq<char>| binary@ + e,
                ).push(binary@ + suffix_views[j as int]));
                assert(str_views(out@) =~= seq![binary@] + suffix_views.subrange(
                    0,
                    j + 1,
                ).map_values(|e: Seq<char>| binary@ + e));
            }
            j = j + 1;
        }
        proof {
            assert(suffix_views.subrange(0, n as int) =~= suffix_views);
        }
    }
    out
}

/// Every candidate joined beneath every directory, directory order first.
pub open spec fn joined_candidates(
    dirs: Seq<Seq<char>>,
    cands: Seq<Seq<char>>,
    windows: bool,
) -> Seq<Seq<char>>
    decreases dirs.len(),
{
    if dirs.len() == 0 {
        Seq::empty()
    } else {
        cands.map_values(|c: Seq<char>| join_spec(dirs[0], c, windows)) + joined_candidates(
            dirs.subrange(1, dirs.len() as int),
            cands,
            windows,
        )
    }
}

/// The ordered paths whose existence decides whether the command exists: none
/// for a blank command; the candidates alone for a command that names a path;
/// otherwise the candidates as given, followed by each candidate joined under
/// each search directory.
pub open spec fn probe_paths_spec(
    binary: Seq<char>,
    windows: bool,
    pathext: Option<Seq<char>>,
    dirs: Seq<Seq<char>>,
) -> Seq<Seq<char>> {
    let t = trim_spec(binary);
    if t.len() == 0 {
        Seq::empty()
    } else {
        let cands = candidates_spec(t, windows, pathext);
        if has_path_components_spec(t, windows) {
            cands
        } else {
            cands + joined_candidates(dirs, cands, windows)
        }
    }
}

/// Builds the ordered list of filesystem paths to test for the command.
/// The command exists exactly when one of them is a file; the shell probes
/// them in order and stops at the first hit. `path_dirs` holds the
/// directories of the platform search-path variable, in order.
pub fn command_probe_paths(
    binary: &str,
    windows: bool,
    pathext: Option<&str>,
    path_dirs: &Vec<String>,
) -> (out: Vec<String>)
    ensures
        str_views(out@) == probe_paths_spec(
            binary@,
            windows,
            match pathext {
                Option::Some(p) => Option::Some(p@),
                Option::None => Option::None,
            },
            str_views(path_dirs@),
        ),
{
    let trimmed = trim_str(binary);
    if trimmed.as_str().unicode_len() == 0 {
        let out: Vec<String> = Vec::new();
        proof {
            assert(str_views(out@) =~= Seq::<Seq<char>>::empty());
        }
        return out;
    }
    let mut out = executable_candidates(trimmed.as_str(), windows, pathext);
    if has_path_components(trimmed.as_str(), windows) {
        return out;
    }
    let ghost cands = str_views(out@);
    let ghost dir_views = str_views(path_dirs@);
    let ghost full = cands + joined_candidates(dir_views, cands, windows);
    let n_c = out.len();
    let n_d = path_dirs.len();
    proof {
        assert(dir_views.subrange(0, n_d as int) =~= dir_views);
        assert(cands.subrange(0, n_c as int) =~= cands);
    }
    let mut i: usize = 0;
    while i < n_d
        invariant
            0 <= i <= n_d,
            n_d == path_dirs@.len(),
            n_c == cands.len(),
            n_c <= out@.len(),
            cands =~= str_views(out@).subrange(0, n_c as int),
            dir_views == str_views(path_dirs@),
            full == cands + joined_candidates(dir_views, cands, windows),
            full =~= str_views(out@) + joined_candidates(
                dir_views.subrange(i as int, n_d as int),
                cands,
                windows,
            ),
        decreases n_d - i,
    {
        let ghost before = str_views(out@);
        let mut j: usize = 0;
        while j < n_c
            invariant
                0 <= j <= n_c,
                0 <= i < n_d,
                n_d == path_dirs@.len(),
                n_c == cands.len(),
                n_c <= before.len() <= out@.len(),
                dir_views == str_views(path_dirs@),
                cands =~= before.subrange(0, n_c as int),
                str_views(out@) =~= before + cands.subrange(0, j as int).map_values(
                    |c: Seq<char>| join_spec(dir_views[i as int], c, windows),
                ),
            decreases n_c - j,
        {
            proof {
                assert(str_views(out@)[j as int] == before[j as int]);
                assert(before[j as int] == cands[j as int]);
                assert(out@[j as int]@ == str_views(out@)[j as int]);
                assert(path_dirs@[i as int]@ == dir_views[i as int]);
            }
            let ghost mid = str_views(out@);
            let joined = join_under(path_dirs[i].as_str(), out[j].as_str(), windows);
            out.push(joined);
            proof {
                assert(joined@ == join_spec(dir_views[i as int], cands[j as int], windows));
                assert(str_views(out@) =~= mid.push(
                    join_spec(dir_views[i as int], cands[j as int], windows),
                ));
                assert(cands.subrange(0, j + 1).map_values(
                    |c: Seq<char>| join_spec(dir_views[i as int], c, windows),
                ) =~= cands.subrange(0, j as int).map_values(
                    |c: Seq<char>| join_spec(dir_views[i as int], c, windows),
                ).push(join_spec(dir_views[i as int], cands[j as int], windows)));
                assert(str_views(out@) =~= before + cands.subrange(0, j + 1).map_values(
                    |c: Seq<char>| join_spec(dir_views[i as int], c, windows),
                ));
            }
            j = j + 1;
        }
        proof {
            assert(cands.subrange(0, n_c as int) =~= cands);
            let tail = dir_views.subrange(i as int, n_d as int);
            assert(tail.len() > 0);
            assert(tail[0] == dir_views[i as int]);
            assert(tail.subrange(1, tail.len() as int) =~= dir_views.subrange(i + 1, n_d as int));
            assert(cands.map_values(|c: Seq<char>| join_spec(tail[0], c, windows)) =~= cands
                .map_values(|c: Seq<char>| join_spec(dir_views[i as int], c, windows)));
            assert(joined_candidates(tail, cands, windows) == cands.map_values(
                |c: Seq<char>| join_spec(tail[0], c, windows),
            ) + joined_candidates(dir_views.subrange(i + 1, n_d as int), cands, windows));
            assert(full =~= str_views(out@) + joined_candidates(
                dir_views.subrange(i + 1, n_d as int),
                cands,
                windows,
            ));
            assert(cands =~= str_views(out@).subrange(0, n_c as int));
        }
        i = i + 1;
    }
    proof {
        assert(joined_candidates(dir_views.subrange(i as int, n_d as int), cands, windows)
            =~= Seq::<Seq<char>>::empty());
        assert(str_views(out@) =~= full);
    }
    out
}

} // verus!
