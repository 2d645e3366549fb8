//! Choosing the configuration file among the candidate locations.
use vstd::prelude::*;

use crate::applier::texts;

verus! {

/// A candidate location of the configuration file, and whether a file is there.
#[derive(Debug)]
pub struct Candidate {
    pub path: String,
    pub exists: bool,
}

/// No candidate location holds a configuration file; `searched` lists the
/// locations looked in, separated by ", ", or reads "<none>" when there were none.
#[derive(Debug)]
pub struct ConfigNotFound {
    pub searched: String,
}

/// The paths joined with ", ".
pub open spec fn joined(paths: Seq<Seq<char>>) -> Seq<char>
    decreases paths.len(),
{
    if paths.len() == 0 {
        Seq::empty()
    } else if paths.len() == 1 {
        paths[0]
    } else {
        joined(paths.drop_last()) + ", "@ + paths.last()
    }
}

/// The list of searched locations that the error reports.
pub open spec fn searched_text(cs: Seq<Candidate>) -> Seq<char> {
    if cs.len() == 0 {
        "<none>"@
    } else {
        joined(cs.map_values(|c: Candidate| c.path@))
    }
}

/// Candidate `i` is the first that exists.
pub open spec fn first_existing(cs: Seq<Candidate>, i: int) -> bool {
    0 <= i < cs.len() && cs[i].exists && forall|j: int| 0 <= j < i ==> !cs[j].exists
}

/// The first candidate, in order, where a configuration file exists; when
/// none does, an error that lists every candidate.
pub fn ensure_config_file(candidates: &Vec<Candidate>) -> (r: Result<String, ConfigNotFound>)
    ensures
        r matches Ok(p) ==> exists|i: int| first_existing(candidates@, i) && p@ == candidates@[i].path@,
        r is Err <==> forall|i: int| 0 <= i < candidates@.len() ==> !candidates@[i].exists,
        r matches Err(e) ==> e.searched@ == searched_text(candidates@),
{
    let mut i: usize = 0;
    while i < candidates.len()
        invariant
            i <= candidates@.len(),
            forall|j: int| 0 <= j < i ==> !candidates@[j].exists,
        decreases candidates@.len() - i,
    {
        if candidates[i].exists {
            assert(first_existing(candidates@, i as int));
            return Ok(candidates[i].path.clone());
        }
        i = i + 1;
    }
    if candidates.len() == 0 {
        return Err(ConfigNotFound { searched: "<none>".to_owned() });
    }
    let ghost views = candidates@.map_values(|c: Candidate| c.path@);
    let mut text = candidates[0].path.clone();
    let mut k: usize = 1;
    assert(views.subrange(0, 1).drop_last() =~= Seq::<Seq<char>>::empty());
    while k < candidates.len()
        invariant
            1 <= k <= candidates@.len(),
            views == candidates@.map_values(|c: Candidate| c.path@),
            text@ == joined(views.subrange(0, k as int)),
        decreases candidates@.len() - k,
    {
        text.append(", ");
        text.append(candidates[k].path.as_str());
        assert(views.subrange(0, k + 1).drop_last() =~= views.subrange(0, k as int));
        k = k + 1;
    }
    assert(views.subrange(0, k as int) =~= views);
    Err(ConfigNotFound { searched: text })
}


/// The path that `Path::join` makes of `base` and the relative `name`.
pub uninterp spec fn path_joined(base: Seq<char>, name: Seq<char>) -> Seq<char>;

/// Whether `Path`'s equality, which compares components, holds of two paths.
pub uninterp spec fn paths_equal(a: Seq<char>, b: Seq<char>) -> bool;

/// Relies on `Path::join` with a relative `name`: the result depends on the
/// two strings alone.
#[verifier::external_body]
fn join_path(base: &str, name: &str) -> (r: String)
    ensures
        r@ == path_joined(base@, name@),
{
    std::path::Path::new(base).join(name).to_string_lossy().into_owned()
}

/// Relies on `PartialEq` for `Path`: the answer depends on the two strings alone.
#[verifier::external_body]
fn same_path(a: &str, b: &str) -> (r: bool)
    ensures
        r == paths_equal(a@, b@),
{
    std::path::Path::new(a) == std::path::Path::new(b)
}

/// The pieces of `s` between ':' separators, empty ones included, in order.
pub open spec fn pieces(s: Seq<char>) -> Seq<Seq<char>>
    decreases s.len(),
{
    if s.len() == 0 {
        seq![Seq::empty()]
    } else {
        let p = pieces(s.drop_last());
        if s.last() == ':' {
            p.push(Seq::empty())
        } else {
            p.update(p.len() - 1, p.last().push(s.last()))
        }
    }
}

/// The test that keeps a piece: it is not empty.
pub open spec fn nonempty() -> spec_fn(Seq<char>) -> bool {
    |p: Seq<char>| p.len() > 0
}

/// The non-empty entries of a ':'-separated directory list.
pub open spec fn dir_entries(s: Seq<char>) -> Seq<Seq<char>> {
    pieces(s).filter(nonempty())
}

proof fn lemma_pieces_nonempty(s: Seq<char>)
    ensures
        pieces(s).len() >= 1,
    decreases s.len(),
{
    if s.len() > 0 {
        lemma_pieces_nonempty(s.drop_last());
    }
}

/// The entries of a ':'-separated directory list that are not empty.
pub fn split_dirs(s: &str) -> (r: Vec<String>)
    ensures
        texts(r@) == dir_entries(s@),
{
    let n = s.unicode_len();
    let mut done: Vec<String> = Vec::new();
    let mut start: usize = 0;
    let mut i: usize = 0;
    proof {
        assert(s@.subrange(0, 0) =~= Seq::<char>::empty());
    }
    while i < n
        invariant
            n == s@.len(),
            start <= i <= n,
            pieces(s@.subrange(0, i as int)).len() >= 1,
            texts(done@) == pieces(s@.subrange(0, i as int)).drop_last().filter(nonempty()),
            s@.subrange(start as int, i as int) == pieces(s@.subrange(0, i as int)).last(),
        decreases n - i,
    {
        let ghost pre = s@.subrange(0, i as int);
        let ghost next = s@.subrange(0, i + 1);
        proof {
            assert(next.drop_last() =~= pre);
            lemma_pieces_nonempty(next);
        }
        let c = s.get_char(i);
        if c == ':' {
            if start < i {
                let piece = s.substring_char(start, i).to_owned();
                done.push(piece);
            }
            proof {
                let p = pieces(pre);
                assert(pieces(next) == p.push(Seq::empty()));
                assert(pieces(next).drop_last() =~= p);
                assert(p =~= p.drop_last().push(p.last()));
                reveal(Seq::filter);
                assert(texts(done@) =~= p.filter(nonempty()));
                assert(s@.subrange(i + 1, i + 1) =~= Seq::<char>::empty());
            }
            start = i + 1;
        } else {
            proof {
                let p = pieces(pre);
                assert(pieces(next) == p.update(p.len() - 1, p.last().push(c)));
                assert(pieces(next).drop_last() =~= p.drop_last());
                assert(s@.subrange(start as int, i + 1) =~= p.last().push(c));
            }
        }
        i = i + 1;
    }
    proof {
        assert(s@.subrange(0, n as int) =~= s@);
        let p = pieces(s@);
        assert(p =~= p.drop_last().push(p.last()));
        reveal(Seq::filter);
    }
    if start < n {
        let piece = s.substring_char(start, n).to_owned();
        done.push(piece);
    }
    proof {
        reveal(Seq::filter);
        assert(texts(done@) =~= dir_entries(s@));
    }
    done
}


/// The directory that holds this daemon's configuration file.
pub open spec fn config_dir_name() -> Seq<char> {
    "scx-power-sync-dbus"@
}

/// The configuration file's name.
pub open spec fn config_file_name() -> Seq<char> {
    "config.yaml"@
}

/// The configuration file's path under a configuration directory `base`.
pub open spec fn config_under(base: Seq<char>) -> Seq<char> {
    path_joined(path_joined(base, config_dir_name()), config_file_name())
}

/// `config_under` as a function value.
pub open spec fn config_under_fn() -> spec_fn(Seq<char>) -> Seq<char> {
    |e: Seq<char>| config_under(e)
}

pub open spec fn opt_view(o: Option<&str>) -> Option<Seq<char>> {
    match o {
        Some(s) => Some(s@),
        None => None,
    }
}

/// The candidate locations in the order of search, before duplicates are
/// dropped: under `$HOME/.config`; under `$XDG_CONFIG_HOME` when it is set
/// and not empty; under each non-empty entry of `$XDG_CONFIG_DIRS`, or
/// under `/etc/xdg` when it is not set; and last under `/etc`.
pub open spec fn raw_search_paths(
    home: Option<Seq<char>>,
    xdg_home: Option<Seq<char>>,
    xdg_dirs: Option<Seq<char>>,
) -> Seq<Seq<char>> {
    (match home {
        Some(h) => seq![config_under(path_joined(h, ".config"@))],
        None => seq![],
    }) + (match xdg_home {
        Some(x) => if x.len() > 0 {
            seq![config_under(x)]
        } else {
            seq![]
        },
        None => seq![],
    }) + (match xdg_dirs {
        Some(d) => dir_entries(d).map_values(config_under_fn()),
        None => seq![config_under("/etc/xdg"@)],
    }) + seq![config_under("/etc"@)]
}

/// `p` equals, as a path, one of `paths`.
pub open spec fn has_path(paths: Seq<Seq<char>>, p: Seq<char>) -> bool {
    exists|k: int| 0 <= k < paths.len() && paths_equal(paths[k], p)
}

/// The paths in order, each left out when it equals an earlier one kept.
pub open spec fn dedup_paths(s: Seq<Seq<char>>) -> Seq<Seq<char>>
    decreases s.len(),
{
    if s.len() == 0 {
        s
    } else {
        let d = dedup_paths(s.drop_last());
        if has_path(d, s.last()) {
            d
        } else {
            d.push(s.last())
        }
    }
}

fn push_new(paths: &mut Vec<String>, p: String)
    ensures
        has_path(texts(old(paths)@), p@) ==> final(paths)@ == old(paths)@,
        !has_path(texts(old(paths)@), p@) ==> final(paths)@ == old(paths)@.push(p),
{
    let mut k: usize = 0;
    while k < paths.len()
        invariant
            k <= paths@.len(),
            forall|j: int| 0 <= j < k ==> !paths_equal(texts(paths@)[j], p@),
        decreases paths@.len() - k,
    {
        if same_path(paths[k].as_str(), p.as_str()) {
            assert(paths_equal(texts(paths@)[k as int], p@));
            return;
        }
        k = k + 1;
    }
    paths.push(p);
}

fn config_path_under(base: &str) -> (r: String)
    ensures
        r@ == config_under(base@),
{
    let dir = join_path(base, "scx-power-sync-dbus");
    join_path(dir.as_str(), "config.yaml")
}

/// The locations where the configuration file is looked for, in order and
/// without duplicates, given the values of `HOME`, `XDG_CONFIG_HOME` and
/// `XDG_CONFIG_DIRS` (each absent when unset).
pub fn config_search_paths(
    home: Option<&str>,
    xdg_config_home: Option<&str>,
    xdg_config_dirs: Option<&str>,
) -> (r: Vec<String>)
    ensures
        texts(r@) == dedup_paths(
            raw_search_paths(opt_view(home), opt_view(xdg_config_home), opt_view(xdg_config_dirs)),
        ),
{
    let ghost head: Seq<Seq<char>> = match home {
        Some(h) => seq![config_under(path_joined(h@, ".config"@))],
        None => seq![],
    };
    let mut raw: Vec<String> = Vec::new();
    if let Some(h) = home {
        let base = join_path(h, ".config");
        raw.push(config_path_under(base.as_str()));
    }
    assert(texts(raw@) =~= head);
    let ghost head2 = texts(raw@);
    if let Some(x) = xdg_config_home {
        if !x.is_empty() {
            raw.push(config_path_under(x));
        }
    }
    let ghost mid: Seq<Seq<char>> = match opt_view(xdg_config_home) {
        Some(x) => if x.len() > 0 {
            seq![config_under(x)]
        } else {
            seq![]
        },
        None => seq![],
    };
    assert(texts(raw@) =~= head + mid);
    let ghost before = texts(raw@);
    match xdg_config_dirs {
        Some(d) => {
            let entries = split_dirs(d);
            let ghost es = dir_entries(d@);
            let mut i: usize = 0;
            while i < entries.len()
                invariant
                    texts(entries@) == es,
                    i <= entries@.len(),
                    texts(raw@) == before + es.take(i as int).map_values(config_under_fn()),
                decreases entries@.len() - i,
            {
                let ghost old_raw = raw@;
                assert(texts(entries@)[i as int] == entries@[i as int]@);
                raw.push(config_path_under(entries[i].as_str()));
                assert(texts(raw@) =~= texts(old_raw).push(config_under(es[i as int])));
                assert(es.take(i + 1).map_values(config_under_fn()) =~= es.take(
                    i as int,
                ).map_values(config_under_fn()).push(config_under(es[i as int])));
                assert(texts(raw@) =~= before + es.take(i + 1).map_values(config_under_fn()));
                i = i + 1;
            }
            assert(es.take(i as int) =~= es);
        },
        None => {
            raw.push(config_path_under("/etc/xdg"));
            assert(texts(raw@) =~= before + seq![config_under("/etc/xdg"@)]);
        },
    }
    let ghost before_last = texts(raw@);
    raw.push(config_path_under("/etc"));
    assert(texts(raw@) =~= before_last + seq![config_under("/etc"@)]);
    let ghost all = texts(raw@);
    assert(all =~= raw_search_paths(opt_view(home), opt_view(xdg_config_home), opt_view(xdg_config_dirs)));
    let mut paths: Vec<String> = Vec::new();
    let mut i: usize = 0;
    assert(all.take(0) =~= Seq::<Seq<char>>::empty());
    while i < raw.len()
        invariant
            all == texts(raw@),
            i <= raw@.len(),
            texts(paths@) == dedup_paths(all.take(i as int)),
        decreases raw@.len() - i,
    {
        assert(all.take(i + 1).drop_last() =~= all.take(i as int));
        let ghost prev = paths@;
        push_new(&mut paths, raw[i].clone());
        proof {
            if has_path(texts(prev), all[i as int]) {
                assert(texts(paths@) == texts(prev));
            } else {
                assert(texts(paths@) =~= texts(prev).push(all[i as int]));
            }
        }
        i = i + 1;
    }
    assert(all.take(i as int) =~= all);
    paths
}

} // verus!
