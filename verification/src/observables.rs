use vstd::prelude::*;

use crate::text::str_eq;

verus! {

broadcast use vstd::string::group_string_axioms;

/// The texts of the matches of regular expression `pattern` in `text`, left
/// to right and not overlapping (`Regex::find_iter`), or `None` when the
/// pattern does not compile.
pub uninterp spec fn regex_find_all(pattern: Seq<char>, text: Seq<char>) -> Option<Seq<Seq<char>>>;

/// The texts of a list of strings.
pub open spec fn texts(v: Seq<String>) -> Seq<Seq<char>> {
    Seq::new(v.len(), |i: int| v[i]@)
}

/// Compiles `pattern` with the regex crate and lists the texts of its
/// matches in `text`; believed to be `regex_find_all(pattern, text)`.
#[verifier::external_body]
fn find_all(pattern: &str, text: &str) -> (r: Option<Vec<String>>)
    ensures
        match r {
            Some(v) => regex_find_all(pattern@, text@) == Some(texts(v@)),
            None => regex_find_all(pattern@, text@) is None,
        },
{
    match regex::Regex::new(pattern) {
        Ok(re) => Some(re.find_iter(text).map(|m| m.as_str().to_string()).collect()),
        Err(_) => None,
    }
}

/// An indicator found in a text, with its kind.
pub struct Observable {
    pub observable: String,
    pub obs_type: String,
}

/// The distinct texts of `s`, each where it first occurs.
pub open spec fn distinct_first(s: Seq<Seq<char>>) -> Seq<Seq<char>>
    decreases s.len(),
{
    if s.len() == 0 {
        seq![]
    } else {
        let d = distinct_first(s.drop_last());
        if d.contains(s.last()) {
            d
        } else {
            d.push(s.last())
        }
    }
}

/// The pattern of each kind of indicator, in the order they are reported:
/// IPv4 address, domain, SHA-1, SHA-256, e-mail address, MD5, URL.
pub open spec fn observable_kinds() -> Seq<(Seq<char>, Seq<char>)> {
    seq![
        ("\\b(?:\\d{1,3}\\.){3}\\d{1,3}\\b"@, "ipv4"@),
        ("\\b(?:[a-zA-Z0-9-]+\\.)+[a-zA-Z]{2,}\\b"@, "domain"@),
        ("\\b[a-fA-F0-9]{40}\\b"@, "sha1"@),
        ("\\b[a-fA-F0-9]{64}\\b"@, "sha256"@),
        ("\\b[A-Za-z0-9._%+-]+@[A-Za-z0-9.-]+\\.[A-Z|a-z]{2,}\\b"@, "email"@),
        ("\\b[a-fA-F0-9]{32}\\b"@, "md5"@),
        ("https?://\\S+"@, "url"@),
    ]
}

/// The indicators a text holds, kind after kind, without repeats, as
/// (text, kind) pairs; `None` when a pattern does not compile.
pub open spec fn observables_of(kinds: Seq<(Seq<char>, Seq<char>)>, text: Seq<char>) -> Option<
    Seq<(Seq<char>, Seq<char>)>,
>
    decreases kinds.len(),
{
    if kinds.len() == 0 {
        Some(seq![])
    } else {
        match (observables_of(kinds.drop_last(), text), regex_find_all(kinds.last().0, text)) {
            (Some(prev), Some(found)) => Some(
                prev + distinct_first(found).map_values(|m: Seq<char>| (m, kinds.last().1)),
            ),
            _ => None,
        }
    }
}

/// The (text, kind) pairs of a list of observables.
pub open spec fn observables_view(v: Seq<Observable>) -> Seq<(Seq<char>, Seq<char>)> {
    Seq::new(v.len(), |i: int| (v[i].observable@, v[i].obs_type@))
}

fn contains_text(v: &Vec<String>, t: &String) -> (b: bool)
    ensures
        b == texts(v@).contains(t@),
{
    let mut i: usize = 0;
    while i < v.len()
        invariant
            i <= v@.len(),
            forall|j: int| 0 <= j < i ==> v@[j]@ != t@,
        decreases v@.len() - i,
    {
        if str_eq(v[i].as_str(), t.as_str()) {
            assert(texts(v@)[i as int] == t@);
            return true;
        }
        i += 1;
    }
    assert(!texts(v@).contains(t@)) by {
        if texts(v@).contains(t@) {
            let j = choose|j: int| 0 <= j < texts(v@).len() && texts(v@)[j] == t@;
            assert(v@[j]@ == t@);
        }
    }
    false
}

/// The distinct strings of `v`, each where it first occurs.
fn dedup_texts(v: Vec<String>) -> (d: Vec<String>)
    ensures
        texts(d@) == distinct_first(texts(v@)),
{
    let ghost all = texts(v@);
    let mut d: Vec<String> = Vec::new();
    let mut i: usize = 0;
    assert(all.subrange(0, 0) =~= Seq::<Seq<char>>::empty());
    assert(texts(d@) =~= Seq::<Seq<char>>::empty());
    while i < v.len()
        invariant
            i <= v@.len(),
            all == texts(v@),
            texts(d@) == distinct_first(all.subrange(0, i as int)),
        decreases v@.len() - i,
    {
        let s = &v[i];
        proof {
            assert(all.subrange(0, i + 1).drop_last() =~= all.subrange(0, i as int));
            assert(all.subrange(0, i + 1).last() == s@);
        }
        if !contains_text(&d, s) {
            let ghost before = texts(d@);
            d.push(s.clone());
            assert(texts(d@) =~= before.push(s@));
        }
        i += 1;
    }
    assert(all.subrange(0, v@.len() as int) =~= all);
    d
}

fn kind_pattern(k: usize) -> (r: (&'static str, &'static str))
    requires
        k < 7,
    ensures
        (r.0@, r.1@) == observable_kinds()[k as int],
{
    if k == 0 {
        ("\\b(?:\\d{1,3}\\.){3}\\d{1,3}\\b", "ipv4")
    } else if k == 1 {
        ("\\b(?:[a-zA-Z0-9-]+\\.)+[a-zA-Z]{2,}\\b", "domain")
    } else if k == 2 {
        ("\\b[a-fA-F0-9]{40}\\b", "sha1")
    } else if k == 3 {
        ("\\b[a-fA-F0-9]{64}\\b", "sha256")
    } else if k == 4 {
        ("\\b[A-Za-z0-9._%+-]+@[A-Za-z0-9.-]+\\.[A-Z|a-z]{2,}\\b", "email")
    } else if k == 5 {
        ("\\b[a-fA-F0-9]{32}\\b", "md5")
    } else {
        ("https?://\\S+", "url")
    }
}

/// The indicators in a text (IPv4 addresses, domains, SHA-1, SHA-256,
/// e-mail addresses, MD5 hashes, URLs), each kind without repeats, as
/// `observables_of` says; `None` when a pattern does not compile.
pub fn grab_observables(text: &str) -> (r: Option<Vec<Observable>>)
    ensures
        match r {
            Some(v) => observables_of(observable_kinds(), text@) == Some(observables_view(v@)),
            None => observables_of(observable_kinds(), text@) is None,
        },
{
    let mut out: Vec<Observable> = Vec::new();
    let mut k: usize = 0;
    assert(observable_kinds().subrange(0, 0) =~= Seq::<(Seq<char>, Seq<char>)>::empty());
    assert(observables_view(out@) =~= Seq::<(Seq<char>, Seq<char>)>::empty());
    while k < 7
        invariant
            k <= 7,
            observables_of(observable_kinds().subrange(0, k as int), text@) == Some(
                observables_view(out@),
            ),
        decreases 7 - k,
    {
        let (pattern, label) = kind_pattern(k);
        let ghost kinds = observable_kinds().subrange(0, k + 1);
        proof {
            assert(kinds.drop_last() =~= observable_kinds().subrange(0, k as int));
            assert(kinds.last() == observable_kinds()[k as int]);
        }
        let found = match find_all(pattern, text) {
            Some(v) => v,
            None => {
                proof {
                    assert(observables_of(kinds, text@) is None);
                    lemma_observables_none(observable_kinds(), text@, k as int + 1);
                }
                return None;
            },
        };
        let unique = dedup_texts(found);
        let ghost before = observables_view(out@);
        let mut j: usize = 0;
        while j < unique.len()
            invariant
                j <= unique@.len(),
                label@ == kinds.last().1,
                observables_view(out@) == before + texts(unique@).subrange(0, j as int).map_values(
                    |m: Seq<char>| (m, kinds.last().1),
                ),
            decreases unique@.len() - j,
        {
            let ghost prev = observables_view(out@);
            out.push(Observable { observable: unique[j].clone(), obs_type: label.to_string() });
            assert(observables_view(out@) =~= prev.push((unique@[j as int]@, label@)));
            assert(texts(unique@).subrange(0, j + 1).map_values(|m: Seq<char>| (m, kinds.last().1))
                =~= texts(unique@).subrange(0, j as int).map_values(
                |m: Seq<char>| (m, kinds.last().1),
            ).push((unique@[j as int]@, label@)));
            j += 1;
        }
        assert(texts(unique@).subrange(0, unique@.len() as int) =~= texts(unique@));
        k += 1;
    }
    assert(observable_kinds().subrange(0, 7) =~= observable_kinds());
    Some(out)
}

proof fn lemma_observables_none(kinds: Seq<(Seq<char>, Seq<char>)>, text: Seq<char>, n: int)
    requires
        1 <= n <= kinds.len(),
        observables_of(kinds.subrange(0, n), text) is None,
    ensures
        observables_of(kinds, text) is None,
    decreases kinds.len() - n,
{
    if n < kinds.len() {
        let s = kinds.subrange(0, n + 1);
        assert(s.drop_last() =~= kinds.subrange(0, n));
        lemma_observables_none(kinds, text, n + 1);
    } else {
        assert(kinds.subrange(0, n) =~= kinds);
    }
}

/// The lines of the observables file: a header, then `observable,type` per
/// indicator.
pub open spec fn observable_lines_spec(v: Seq<(Seq<char>, Seq<char>)>) -> Seq<Seq<char>> {
    seq!["observable,type"@] + Seq::new(v.len(), |i: int| v[i].0 + ","@ + v[i].1)
}

/// The lines written for a list of observables.
pub fn observable_lines(obs: &Vec<Observable>) -> (lines: Vec<String>)
    ensures
        texts(lines@) == observable_lines_spec(observables_view(obs@)),
{
    let mut lines: Vec<String> = Vec::new();
    lines.push("observable,type".to_string());
    let mut i: usize = 0;
    while i < obs.len()
        invariant
            i <= obs@.len(),
            texts(lines@) == observable_lines_spec(observables_view(obs@.subrange(0, i as int))),
        decreases obs@.len() - i,
    {
        let mut line = obs[i].observable.clone();
        line.append(",");
        line.append(obs[i].obs_type.as_str());
        let ghost prev = texts(lines@);
        lines.push(line);
        assert(texts(lines@) =~= prev.push(line@));
        assert(observable_lines_spec(observables_view(obs@.subrange(0, i + 1))) =~= observable_lines_spec(
            observables_view(obs@.subrange(0, i as int)),
        ).push(line@));
        i += 1;
    }
    assert(obs@.subrange(0, obs@.len() as int) =~= obs@);
    lines
}

proof fn lemma_distinct_first(s: Seq<Seq<char>>)
    ensures
        distinct_first(s).no_duplicates(),
        forall|x: Seq<char>| distinct_first(s).contains(x) <==> s.contains(x),
    decreases s.len(),
{
    if s.len() > 0 {
        lemma_distinct_first(s.drop_last());
        let d = distinct_first(s.drop_last());
        assert forall|x: Seq<char>| distinct_first(s).contains(x) <==> s.contains(x) by {
            lemma_contains_split(s, x);
            if !d.contains(s.last()) {
                lemma_push_contains(d, s.last(), x);
            }
        }
    }
}

proof fn lemma_contains_split(s: Seq<Seq<char>>, x: Seq<char>)
    requires
        s.len() > 0,
    ensures
        s.contains(x) <==> (s.drop_last().contains(x) || x == s.last()),
{
    if s.contains(x) && x != s.last() {
        let i = choose|i: int| 0 <= i < s.len() && s[i] == x;
        assert(i != s.len() - 1);
        assert(s.drop_last()[i] == x);
    }
    if s.drop_last().contains(x) {
        let i = choose|i: int| 0 <= i < s.drop_last().len() && s.drop_last()[i] == x;
        assert(s[i] == x);
    }
    if x == s.last() {
        assert(s[s.len() - 1] == x);
    }
}

proof fn lemma_push_contains(d: Seq<Seq<char>>, y: Seq<char>, x: Seq<char>)
    ensures
        d.push(y).contains(x) <==> (d.contains(x) || x == y),
{
    lemma_contains_split(d.push(y), x);
    assert(d.push(y).drop_last() =~= d);
}

/// Labelling distinct texts with one kind keeps the pairs distinct.
proof fn lemma_labeled_no_dup(found: Seq<Seq<char>>, label: Seq<char>)
    requires
        found.no_duplicates(),
    ensures
        found.map_values(|m: Seq<char>| (m, label)).no_duplicates(),
{
    let v = found.map_values(|m: Seq<char>| (m, label));
    assert forall|i: int, j: int| 0 <= i < v.len() && 0 <= j < v.len() && i != j implies v[i] != v[j] by {
        assert(v[i].0 == found[i]);
        assert(v[j].0 == found[j]);
    }
}

/// The indicators reported for a text hold no pair twice: each kind's
/// matches are reported once each, and the kinds' names differ.
pub proof fn lemma_observables_unique(kinds: Seq<(Seq<char>, Seq<char>)>, text: Seq<char>)
    requires
        forall|i: int, j: int| 0 <= i < j < kinds.len() ==> kinds[i].1 != kinds[j].1,
        observables_of(kinds, text) is Some,
    ensures
        observables_of(kinds, text)->Some_0.no_duplicates(),
        forall|k: int|
            0 <= k < observables_of(kinds, text)->Some_0.len() ==> exists|i: int|
                0 <= i < kinds.len() && (#[trigger] observables_of(kinds, text)->Some_0[k]).1 == kinds[i].1,
    decreases kinds.len(),
{
    if kinds.len() > 0 {
        let prev_kinds = kinds.drop_last();
        lemma_observables_unique(prev_kinds, text);
        let prev = observables_of(prev_kinds, text)->Some_0;
        let found = regex_find_all(kinds.last().0, text)->Some_0;
        let label = kinds.last().1;
        lemma_distinct_first(found);
        let added = distinct_first(found).map_values(|m: Seq<char>| (m, label));
        lemma_labeled_no_dup(distinct_first(found), label);
        let all = observables_of(kinds, text)->Some_0;
        assert(all == prev + added);
        assert forall|k: int| 0 <= k < prev.len() implies (#[trigger] prev[k]).1 != label by {
            let i = choose|i: int| 0 <= i < prev_kinds.len() && prev[k].1 == prev_kinds[i].1;
            assert(prev_kinds[i] == kinds[i]);
        }
        assert forall|a: int, b: int| 0 <= a < all.len() && 0 <= b < all.len() && a != b implies all[a] != all[b] by {
            if a < prev.len() && b >= prev.len() {
                assert(all[b] == added[b - prev.len()]);
                assert(all[a] == prev[a]);
            } else if b < prev.len() && a >= prev.len() {
                assert(all[a] == added[a - prev.len()]);
                assert(all[b] == prev[b]);
            } else if a < prev.len() {
                assert(all[a] == prev[a] && all[b] == prev[b]);
            } else {
                assert(all[a] == added[a - prev.len()] && all[b] == added[b - prev.len()]);
            }
        }
        assert forall|k: int| 0 <= k < all.len() implies exists|i: int|
            0 <= i < kinds.len() && (#[trigger] all[k]).1 == kinds[i].1 by {
            if k < prev.len() {
                let i = choose|i: int| 0 <= i < prev_kinds.len() && prev[k].1 == prev_kinds[i].1;
                assert(all[k] == prev[k]);
                assert(prev_kinds[i] == kinds[i]);
            } else {
                assert(all[k] == added[k - prev.len()]);
                assert(all[k].1 == kinds[kinds.len() - 1].1);
            }
        }
    }
}

/// In a run over kinds with distinct labels, the indicators reported with
/// the label of kind `i` are exactly the matches of kind `i`'s pattern.
proof fn lemma_kind_members(kinds: Seq<(Seq<char>, Seq<char>)>, text: Seq<char>, i: int, x: Seq<char>)
    requires
        0 <= i < kinds.len(),
        forall|a: int, b: int| 0 <= a < b < kinds.len() ==> kinds[a].1 != kinds[b].1,
        observables_of(kinds, text) is Some,
    ensures
        regex_find_all(kinds[i].0, text) is Some,
        observables_of(kinds, text)->Some_0.contains((x, kinds[i].1)) <==> regex_find_all(
            kinds[i].0,
            text,
        )->Some_0.contains(x),
    decreases kinds.len(),
{
    let prev_kinds = kinds.drop_last();
    let n = kinds.len() - 1;
    let label = kinds.last().1;
    assert(observables_of(prev_kinds, text) is Some && regex_find_all(kinds.last().0, text) is Some);
    let prev = observables_of(prev_kinds, text)->Some_0;
    let found = regex_find_all(kinds.last().0, text)->Some_0;
    let added = distinct_first(found).map_values(|m: Seq<char>| (m, label));
    let all = observables_of(kinds, text)->Some_0;
    assert(all == prev + added);
    lemma_distinct_first(found);
    let lx = kinds[i].1;
    // Where `(x, lx)` can sit in `all`.
    assert(all.contains((x, lx)) <==> prev.contains((x, lx)) || added.contains((x, lx))) by {
        if all.contains((x, lx)) {
            let k = choose|k: int| 0 <= k < all.len() && all[k] == (x, lx);
            if k < prev.len() {
                assert(prev[k] == all[k]);
            } else {
                assert(added[k - prev.len()] == all[k]);
            }
        }
        if prev.contains((x, lx)) {
            let k = choose|k: int| 0 <= k < prev.len() && prev[k] == (x, lx);
            assert(all[k] == prev[k]);
        }
        if added.contains((x, lx)) {
            let k = choose|k: int| 0 <= k < added.len() && added[k] == (x, lx);
            assert(all[k + prev.len()] == added[k]);
        }
    }
    // The added pairs all carry the last label.
    assert(added.contains((x, lx)) <==> lx == label && distinct_first(found).contains(x)) by {
        if added.contains((x, lx)) {
            let k = choose|k: int| 0 <= k < added.len() && added[k] == (x, lx);
            assert(distinct_first(found)[k] == x);
        }
        if lx == label && distinct_first(found).contains(x) {
            let k = choose|k: int| 0 <= k < distinct_first(found).len() && distinct_first(found)[k] == x;
            assert(added[k] == (x, lx));
        }
    }
    if i == n {
        if prev_kinds.len() > 0 {
            lemma_observables_unique(prev_kinds, text);
            if prev.contains((x, lx)) {
                let k = choose|k: int| 0 <= k < prev.len() && prev[k] == (x, lx);
                let j = choose|j: int| 0 <= j < prev_kinds.len() && (#[trigger] prev[k]).1 == prev_kinds[j].1;
                assert(prev_kinds[j] == kinds[j]);
                assert(false);
            }
        } else {
            assert(prev.len() == 0);
        }
    } else {
        assert(lx != label);
        assert(prev_kinds[i] == kinds[i]);
        lemma_kind_members(prev_kinds, text, i, x);
    }
}

/// Each kind of indicator is reported by its own label: a text is reported
/// as `ipv4`, `domain`, `sha1`, `sha256`, `email`, `md5` or `url` exactly
/// when it is a match of that kind's pattern (dotted quads, dotted names,
/// 40, 64 or 32 hex digits, `name@host.tld`, `http(s)://...`).
pub proof fn lemma_observables_by_kind(text: Seq<char>, x: Seq<char>)
    requires
        observables_of(observable_kinds(), text) is Some,
    ensures
        ({
            let obs = observables_of(observable_kinds(), text)->Some_0;
            &&& obs.contains((x, "ipv4"@)) <==> regex_find_all(
                "\\b(?:\\d{1,3}\\.){3}\\d{1,3}\\b"@,
                text,
            )->Some_0.contains(x)
            &&& obs.contains((x, "domain"@)) <==> regex_find_all(
                "\\b(?:[a-zA-Z0-9-]+\\.)+[a-zA-Z]{2,}\\b"@,
                text,
            )->Some_0.contains(x)
            &&& obs.contains((x, "sha1"@)) <==> regex_find_all("\\b[a-fA-F0-9]{40}\\b"@, text)->Some_0.contains(x)
            &&& obs.contains((x, "sha256"@)) <==> regex_find_all("\\b[a-fA-F0-9]{64}\\b"@, text)->Some_0.contains(x)
            &&& obs.contains((x, "email"@)) <==> regex_find_all(
                "\\b[A-Za-z0-9._%+-]+@[A-Za-z0-9.-]+\\.[A-Z|a-z]{2,}\\b"@,
                text,
            )->Some_0.contains(x)
            &&& obs.contains((x, "md5"@)) <==> regex_find_all("\\b[a-fA-F0-9]{32}\\b"@, text)->Some_0.contains(x)
            &&& obs.contains((x, "url"@)) <==> regex_find_all("https?://\\S+"@, text)->Some_0.contains(x)
        }),
{
    let kinds = observable_kinds();
    reveal_strlit("ipv4");
    reveal_strlit("domain");
    reveal_strlit("sha1");
    reveal_strlit("sha256");
    reveal_strlit("email");
    reveal_strlit("md5");
    reveal_strlit("url");
    assert("ipv4"@.len() == 4 && "sha1"@.len() == 4 && "ipv4"@[0] != "sha1"@[0]);
    assert("domain"@.len() == 6 && "sha256"@.len() == 6 && "domain"@[0] != "sha256"@[0]);
    assert("email"@.len() == 5 && "md5"@.len() == 3 && "url"@.len() == 3 && "md5"@[0] != "url"@[0]);
    assert forall|a: int, b: int| 0 <= a < b < kinds.len() implies kinds[a].1 != kinds[b].1 by {}
    lemma_kind_members(kinds, text, 0, x);
    lemma_kind_members(kinds, text, 1, x);
    lemma_kind_members(kinds, text, 2, x);
    lemma_kind_members(kinds, text, 3, x);
    lemma_kind_members(kinds, text, 4, x);
    lemma_kind_members(kinds, text, 5, x);
    lemma_kind_members(kinds, text, 6, x);
}

} // verus!
