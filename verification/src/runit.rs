//! The supervision-directory convention: one directory per service, holding
//! a `down` sentinel file, and a `supervise` control subdirectory with `stat`
//! (textual run state) and `pid` (decimal process id) files.  The record
//! itself carries only the service's path and name; every derived fact is
//! computed from file contents handed in by the caller, so that a missing or
//! garbled file degrades a single field and never aborts anything.

use vstd::prelude::*;

use crate::errors::VsvError;
use crate::strutil::{
    has_substring, is_dec_numeral, lemma_lex_le_total, lemma_lex_le_trans, lex_le, parse_u64,
    spec_dec_val, spec_trim, str_contains, str_le, trim_str,
};

verus! {

broadcast use vstd::seq_lib::group_to_multiset_ensures;

/// Run state recorded by the supervisor in a service's `stat` file.
#[derive(Clone, Copy, Debug, PartialEq, Eq, Structural)]
pub enum RunitServiceState {
    Run,
    Down,
    Finish,
    Unknown,
}

/// One supervised service: the directory that represents it and its display
/// name (the directory's base name, or the fixed log-companion marker).
#[derive(Debug)]
pub struct RunitService {
    pub path: String,
    pub name: String,
}

/// The state a `stat` file's content decodes to: its trimmed text must be
/// exactly `run`, `down` or `finish`; anything else, including unreadable
/// content, is `Unknown`.
pub open spec fn spec_state_of(content: Option<Seq<char>>) -> RunitServiceState {
    match content {
        Option::None => RunitServiceState::Unknown,
        Option::Some(s) => if spec_trim(s) == "run"@ {
            RunitServiceState::Run
        } else if spec_trim(s) == "down"@ {
            RunitServiceState::Down
        } else if spec_trim(s) == "finish"@ {
            RunitServiceState::Finish
        } else {
            RunitServiceState::Unknown
        },
    }
}

/// Whether a `pid` file's content parses: its trimmed text must be a
/// non-empty string of digits whose value is positive and fits in 64 bits.
pub open spec fn pid_parses(content: Option<Seq<char>>) -> bool {
    match content {
        Option::None => false,
        Option::Some(s) => is_dec_numeral(spec_trim(s)) && spec_dec_val(spec_trim(s)) <= u64::MAX
            && spec_dec_val(spec_trim(s)) > 0,
    }
}

/// The process id a `pid` file's content parses to.
pub open spec fn spec_pid_of(content: Option<Seq<char>>) -> nat
    recommends
        pid_parses(content),
{
    match content {
        Option::None => 0,
        Option::Some(s) => spec_dec_val(spec_trim(s)),
    }
}

impl RunitService {
    /// Make a record for the service directory `path` named `name`.
    pub fn new(name: &str, path: &str) -> (r: Self)
        ensures
            r.name@ == name@,
            r.path@ == path@,
    {
        RunitService { path: path.to_owned(), name: name.to_owned() }
    }

    /// The sentinel file whose presence marks the service disabled.
    pub fn down_path(&self) -> (r: String)
        ensures
            r@ == self.path@ + "/down"@,
    {
        let mut r = self.path.clone();
        r.append("/down");
        r
    }

    /// The control subdirectory whose presence marks a directory as a real
    /// service.
    pub fn supervise_path(&self) -> (r: String)
        ensures
            r@ == self.path@ + "/supervise"@,
    {
        let mut r = self.path.clone();
        r.append("/supervise");
        r
    }

    /// The control file holding the supervised process id.
    pub fn pid_path(&self) -> (r: String)
        ensures
            r@ == self.path@ + "/supervise/pid"@,
    {
        let mut r = self.path.clone();
        r.append("/supervise/pid");
        r
    }

    /// The status file holding the textual run state; its modification time
    /// doubles as the service's start-time proxy.
    pub fn stat_path(&self) -> (r: String)
        ensures
            r@ == self.path@ + "/supervise/stat"@,
    {
        let mut r = self.path.clone();
        r.append("/supervise/stat");
        r
    }

    /// The log-companion directory nested under the service.
    pub fn log_path(&self) -> (r: String)
        ensures
            r@ == self.path@ + "/log"@,
    {
        let mut r = self.path.clone();
        r.append("/log");
        r
    }

    /// Whether the service is enabled, given whether its sentinel file
    /// exists: absence of the sentinel means enabled.
    pub fn enabled(&self, down_exists: bool) -> (r: bool)
        ensures
            r == !down_exists,
    {
        !down_exists
    }

    /// Decode the service's run state from its `stat` file content
    /// (`None` when the file could not be read).  Never an error:
    /// unrecognized content is `Unknown`.
    pub fn get_state(&self, content: &Option<String>) -> (r: RunitServiceState)
        ensures
            r == spec_state_of(content.deep_view()),
    {
        match content {
            Option::None => RunitServiceState::Unknown,
            Option::Some(s) => {
                let t = trim_str(s.as_str());
                if t == String::from_str("run") {
                    RunitServiceState::Run
                } else if t == String::from_str("down") {
                    RunitServiceState::Down
                } else if t == String::from_str("finish") {
                    RunitServiceState::Finish
                } else {
                    RunitServiceState::Unknown
                }
            },
        }
    }

    /// Parse the supervised process id from the `pid` file content (`None`
    /// when the file could not be read).  Yields a pid exactly when the
    /// trimmed content is a positive decimal number.
    pub fn get_pid(&self, content: &Option<String>) -> (r: Option<u64>)
        ensures
            r is Some <==> pid_parses(content.deep_view()),
            r is Some ==> r->0 as nat == spec_pid_of(content.deep_view()),
    {
        match content {
            Option::None => Option::None,
            Option::Some(s) => {
                let t = trim_str(s.as_str());
                match parse_u64(t.as_str()) {
                    Option::None => Option::None,
                    Option::Some(v) => if v > 0 {
                        Option::Some(v)
                    } else {
                        Option::None
                    },
                }
            },
        }
    }
}

/// One entry of a directory listing, as the caller enumerated it: the
/// entry's base name (`None` when it could not be decoded as text) and
/// whether the entry is a directory.
pub struct RawDirEntry {
    pub name: Option<String>,
    pub is_dir: bool,
}

/// A directory entry that discovery admits: a directory with a decodable
/// name that contains the filter string, when one is given.
pub open spec fn entry_admitted(e: RawDirEntry, filter: Option<Seq<char>>) -> bool {
    e.is_dir && e.name is Some && (filter is None || has_substring(e.name->0@, filter->0))
}

/// A directory entry that makes discovery fail: a directory whose name
/// cannot be decoded as text.
pub open spec fn entry_bad(e: RawDirEntry) -> bool {
    e.is_dir && e.name is None
}

/// The `(path, name)` pair of a service record.
pub open spec fn rec_view(r: RunitService) -> (Seq<char>, Seq<char>) {
    (r.path@, r.name@)
}

/// The `(path, name)` pairs of a sequence of service records.
pub open spec fn recs_view(s: Seq<RunitService>) -> Seq<(Seq<char>, Seq<char>)> {
    s.map_values(|r: RunitService| rec_view(r))
}

/// The records one directory entry contributes: nothing when it is not
/// admitted; otherwise the service itself and, when log expansion is on,
/// its log companion named by the fixed `- log` marker.
pub open spec fn entry_records(
    root: Seq<char>,
    e: RawDirEntry,
    log: bool,
    filter: Option<Seq<char>>,
) -> Seq<(Seq<char>, Seq<char>)> {
    if entry_admitted(e, filter) {
        let p = root + "/"@ + e.name->0@;
        if log {
            seq![(p, e.name->0@), (p + "/log"@, "- log"@)]
        } else {
            seq![(p, e.name->0@)]
        }
    } else {
        Seq::empty()
    }
}

/// Every record a directory listing contributes, in enumeration order,
/// before sorting.
pub open spec fn expand_entries(
    root: Seq<char>,
    entries: Seq<RawDirEntry>,
    log: bool,
    filter: Option<Seq<char>>,
) -> Seq<(Seq<char>, Seq<char>)>
    decreases entries.len(),
{
    if entries.len() == 0 {
        Seq::empty()
    } else {
        entry_records(root, entries[0], log, filter) + expand_entries(
            root,
            entries.drop_first(),
            log,
            filter,
        )
    }
}

proof fn lemma_expand_take_succ(
    root: Seq<char>,
    entries: Seq<RawDirEntry>,
    log: bool,
    filter: Option<Seq<char>>,
    i: int,
)
    requires
        0 <= i < entries.len(),
    ensures
        expand_entries(root, entries.take(i + 1), log, filter) =~= expand_entries(
            root,
            entries.take(i),
            log,
            filter,
        ) + entry_records(root, entries[i], log, filter),
    decreases i,
{
    if i == 0 {
        assert(entries.take(1)[0] == entries[0]);
        assert(entries.take(1).drop_first() =~= Seq::<RawDirEntry>::empty());
        assert(entries.take(0) =~= Seq::<RawDirEntry>::empty());
    } else {
        let rest = entries.drop_first();
        lemma_expand_take_succ(root, rest, log, filter, i - 1);
        assert(entries.take(i + 1)[0] == entries[0]);
        assert(entries.take(i + 1).drop_first() =~= rest.take(i));
        assert(entries.take(i)[0] == entries[0]);
        assert(entries.take(i).drop_first() =~= rest.take(i - 1));
        assert(rest[i - 1] == entries[i]);
    }
}

/// The records are in ascending name order (ties allowed).
pub open spec fn services_sorted(s: Seq<RunitService>) -> bool {
    forall|i: int, j: int|
        0 <= i < j < s.len() ==> #[trigger] lex_le(s[i].name@, s[j].name@)
}

/// Insert a record into a name-sorted vector, keeping it sorted; the new
/// record lands after any record with the same name.
fn insert_sorted(v: &mut Vec<RunitService>, x: RunitService)
    requires
        services_sorted(old(v)@),
    ensures
        services_sorted(final(v)@),
        final(v)@.len() == old(v)@.len() + 1,
        recs_view(final(v)@).to_multiset() == recs_view(old(v)@).to_multiset().insert(rec_view(x)),
{
    let mut pos: usize = v.len();
    while pos > 0 && !str_le(v[pos - 1].name.as_str(), x.name.as_str())
        invariant
            0 <= pos <= v@.len(),
            v@ == old(v)@,
            forall|k: int| pos <= k < v@.len() ==> !lex_le(#[trigger] v@[k].name@, x.name@),
        decreases pos,
    {
        pos = pos - 1;
    }
    proof {
        assert forall|k: int| pos <= k < v@.len() implies lex_le(x.name@, #[trigger] v@[k].name@) by {
            lemma_lex_le_total(x.name@, v@[k].name@);
        }
        if pos > 0 {
            assert forall|k: int| 0 <= k < pos implies lex_le(#[trigger] v@[k].name@, x.name@) by {
                if k < pos - 1 {
                    assert(lex_le(v@[k].name@, v@[pos - 1].name@));
                    lemma_lex_le_trans(v@[k].name@, v@[pos - 1].name@, x.name@);
                }
            }
        }
    }
    let ghost pre = v@;
    let ghost xg = x;
    v.insert(pos, x);
    proof {
        pre.insert_ensures(pos as int, xg);
        assert forall|i: int, j: int|
            0 <= i < j < v@.len() implies #[trigger] lex_le(v@[i].name@, v@[j].name@) by {
            if i < pos && j < pos {
                assert(v@[i] == pre[i] && v@[j] == pre[j]);
            } else if i < pos && j == pos {
                assert(v@[i] == pre[i] && v@[j] == xg);
            } else if i < pos && j > pos {
                assert(v@[i] == pre[i] && v@[j] == pre[j - 1]);
                if j - 1 == i {
                    lemma_lex_le_trans(pre[i].name@, xg.name@, pre[j - 1].name@);
                }
            } else if i == pos {
                assert(v@[i] == xg && v@[j] == pre[j - 1]);
            } else {
                assert(v@[i] == pre[i - 1] && v@[j] == pre[j - 1]);
            }
        }
        assert(recs_view(v@) =~= recs_view(pre).insert(pos as int, rec_view(xg)));
        vstd::seq_lib::to_multiset_insert(recs_view(pre), pos as int, rec_view(xg));
    }
}

/// List the services a supervision directory holds, given its raw entries.
///
/// Admits every directory entry whose name contains `filter` (when given),
/// makes a record rooted at `path/<name>` for each, adds a log companion
/// `path/<name>/log` named `- log` when `log` is set, and sorts the whole
/// flat list by name ascending.  A directory entry whose name cannot be
/// decoded is fatal and fails the whole call.
pub fn get_services(path: &str, entries: &Vec<RawDirEntry>, log: bool, filter: &Option<String>) -> (r:
    Result<Vec<RunitService>, VsvError>)
    ensures
        match r {
            Ok(list) => {
                &&& forall|k: int| 0 <= k < entries@.len() ==> !entry_bad(#[trigger] entries@[k])
                &&& services_sorted(list@)
                &&& recs_view(list@).to_multiset() == expand_entries(
                    path@,
                    entries@,
                    log,
                    filter.deep_view(),
                ).to_multiset()
            },
            Err(e) => {
                &&& e is BadServiceName
                &&& exists|k: int| 0 <= k < entries@.len() && entry_bad(#[trigger] entries@[k])
            },
        },
{
    broadcast use vstd::seq_lib::group_to_multiset_ensures;

    let ghost fview = filter.deep_view();
    let len = entries.len();
    let mut out: Vec<RunitService> = Vec::new();
    let mut i: usize = 0;
    proof {
        assert(entries@.take(0) =~= Seq::<RawDirEntry>::empty());
        assert(recs_view(out@) =~= Seq::<(Seq<char>, Seq<char>)>::empty());
    }
    while i < len
        invariant
            0 <= i <= len,
            len == entries@.len(),
            fview == filter.deep_view(),
            services_sorted(out@),
            recs_view(out@).to_multiset() == expand_entries(
                path@,
                entries@.take(i as int),
                log,
                fview,
            ).to_multiset(),
            forall|k: int| 0 <= k < i ==> !entry_bad(#[trigger] entries@[k]),
        decreases len - i,
    {
        let ghost gathered = expand_entries(path@, entries@.take(i as int), log, fview);
        let e = &entries[i];
        if e.is_dir {
            match &e.name {
                Option::None => {
                    proof {
                        assert(entry_bad(entries@[i as int]));
                    }
                    return Err(VsvError::BadServiceName);
                },
                Option::Some(name) => {
                    let keep = match filter {
                        Option::None => true,
                        Option::Some(f) => str_contains(name.as_str(), f.as_str()),
                    };
                    if keep {
                        let mut p = path.to_owned();
                        p.append("/");
                        p.append(name.as_str());
                        let svc = RunitService::new(name.as_str(), p.as_str());
                        let ghost r1 = rec_view(svc);
                        if log {
                            let lp = svc.log_path();
                            let companion = RunitService::new("- log", lp.as_str());
                            let ghost r2 = rec_view(companion);
                            insert_sorted(&mut out, svc);
                            insert_sorted(&mut out, companion);
                            proof {
                                lemma_expand_take_succ(path@, entries@, log, fview, i as int);
                                assert(expand_entries(path@, entries@.take(i + 1), log, fview)
                                    =~= gathered.push(r1).push(r2));
                            }
                        } else {
                            insert_sorted(&mut out, svc);
                            proof {
                                lemma_expand_take_succ(path@, entries@, log, fview, i as int);
                                assert(expand_entries(path@, entries@.take(i + 1), log, fview)
                                    =~= gathered.push(r1));
                            }
                        }
                    } else {
                        proof {
                            lemma_expand_take_succ(path@, entries@, log, fview, i as int);
                            assert(expand_entries(path@, entries@.take(i + 1), log, fview)
                                =~= gathered);
                        }
                    }
                },
            }
        } else {
            proof {
                lemma_expand_take_succ(path@, entries@, log, fview, i as int);
                assert(expand_entries(path@, entries@.take(i + 1), log, fview) =~= gathered);
            }
        }
        i = i + 1;
    }
    proof {
        assert(entries@.take(len as int) =~= entries@);
    }
    Ok(out)
}

} // verus!
