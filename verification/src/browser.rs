use vstd::prelude::*;

use crate::errors::CoreError;
use crate::paths::{extension_spec, is_hidden, join_spec, parent_of, parent_spec};
use crate::text::{case_eq, case_eq_str, lemma_lex_le_total, lemma_lex_le_trans, lex_le, str_le};
use vstd::multiset::Multiset;

verus! {

/// What one browse call is after: a file, or a folder.
#[derive(Clone, Copy, Debug, PartialEq, Eq, Structural)]
pub enum BrowseMode {
    PickFile,
    PickFolder,
}

/// One raw child of the current directory, as the caller read it off the
/// filesystem: its bare name and whether it is a directory.
#[derive(Debug)]
pub struct RawEntry {
    pub name: String,
    pub is_dir: bool,
}

/// One displayed row of the browser: a presentation label, the path and
/// directory flag it travels with, and the hidden classification (which
/// affects presentation only, never ordering or filtering).
#[derive(Debug)]
pub struct DirEntry {
    pub label: String,
    pub path: String,
    pub is_dir: bool,
    pub hidden: bool,
}

/// How one resolved selection ends a navigation step.
#[derive(Debug)]
pub enum Outcome {
    /// The cancellation sentinel: no selection, terminal.
    Cancelled,
    /// A path was resolved, terminal.
    Chosen(String),
    /// The browser descended into a subdirectory; read it and go again.
    Descend,
}

/// The views of an optional list of extension strings.
pub open spec fn filter_views(f: Option<Vec<String>>) -> Option<Seq<Seq<char>>> {
    match f {
        Option::None => Option::None,
        Option::Some(v) => Option::Some(crate::asset::views_of_strings(v@)),
    }
}

/// The extension `e` matches some member of the filter `f` up to ASCII
/// case.
pub open spec fn ext_listed(e: Seq<char>, f: Seq<Seq<char>>) -> bool {
    exists|i: int| 0 <= i < f.len() && case_eq(e, f[i])
}

/// Whether a file of this name qualifies under the optional extension
/// filter: with no filter every file does; with one, only a file whose
/// extension matches some listed extension up to ASCII case. A file
/// without an extension never qualifies when a filter is given.
pub open spec fn qualifies(name: Seq<char>, filter: Option<Seq<Seq<char>>>) -> bool {
    match filter {
        Option::None => true,
        Option::Some(f) => match extension_spec(name) {
            Option::Some(e) => ext_listed(e, f),
            Option::None => false,
        },
    }
}

/// Decides `qualifies` for a file name.
pub fn name_qualifies(name: &str, filter: &Option<Vec<String>>) -> (r: bool)
    ensures
        r == qualifies(name@, filter_views(*filter)),
{
    match filter {
        Option::None => true,
        Option::Some(exts) => {
            match crate::paths::extension_of(name) {
                Option::Some(e) => {
                    let ghost fv = crate::asset::views_of_strings(exts@);
                    proof {
                        assert(filter_views(*filter) == Option::Some(fv));
                    }
                    let n = exts.len();
                    let mut i: usize = 0;
                    while i < n
                        invariant
                            i <= n,
                            n == exts@.len(),
                            fv == crate::asset::views_of_strings(exts@),
                            filter_views(*filter) == Option::Some(fv),
                            extension_spec(name@) == Option::Some(e@),
                            forall|j: int| 0 <= j < i ==> !case_eq(e@, fv[j]),
                        decreases n - i,
                    {
                        if case_eq_str(e.as_str(), exts[i].as_str()) {
                            proof {
                                assert(fv[i as int] == exts@[i as int]@);
                                assert(case_eq(e@, fv[i as int]));
                                assert(ext_listed(e@, fv));
                                assert(qualifies(name@, filter_views(*filter)));
                            }
                            return true;
                        }
                        i = i + 1;
                    }
                    false
                },
                Option::None => false,
            }
        },
    }
}

/// The multiset of all names in a raw listing.
pub open spec fn names_ms(s: Seq<RawEntry>) -> Multiset<Seq<char>>
    decreases s.len(),
{
    if s.len() == 0 {
        Multiset::empty()
    } else {
        names_ms(s.drop_last()).insert(s.last().name@)
    }
}

/// The multiset of names of the real subdirectories in a raw listing.
pub open spec fn dir_names_ms(s: Seq<RawEntry>) -> Multiset<Seq<char>>
    decreases s.len(),
{
    if s.len() == 0 {
        Multiset::empty()
    } else if s.last().is_dir {
        dir_names_ms(s.drop_last()).insert(s.last().name@)
    } else {
        dir_names_ms(s.drop_last())
    }
}

/// The multiset of names of the real files in a raw listing that qualify
/// under the filter.
pub open spec fn file_names_ms(s: Seq<RawEntry>, filter: Option<Seq<Seq<char>>>) -> Multiset<
    Seq<char>,
>
    decreases s.len(),
{
    if s.len() == 0 {
        Multiset::empty()
    } else if !s.last().is_dir && qualifies(s.last().name@, filter) {
        file_names_ms(s.drop_last(), filter).insert(s.last().name@)
    } else {
        file_names_ms(s.drop_last(), filter)
    }
}

/// The multiset of labels of a displayed region.
pub open spec fn labels_ms(s: Seq<DirEntry>) -> Multiset<Seq<char>>
    decreases s.len(),
{
    if s.len() == 0 {
        Multiset::empty()
    } else {
        labels_ms(s.drop_last()).insert(s.last().label@)
    }
}

/// A raw listing has as many names as entries.
proof fn lemma_names_ms_len(s: Seq<RawEntry>)
    ensures
        names_ms(s).len() == s.len(),
    decreases s.len(),
{
    broadcast use vstd::multiset::group_multiset_axioms;

    if s.len() > 0 {
        lemma_names_ms_len(s.drop_last());
    }
}

/// Inserting one entry anywhere inserts exactly its name into the name
/// multiset.
proof fn lemma_names_ms_insert(s: Seq<RawEntry>, k: int, e: RawEntry)
    requires
        0 <= k <= s.len(),
    ensures
        names_ms(s.insert(k, e)) == names_ms(s).insert(e.name@),
    decreases s.len(),
{
    broadcast use vstd::multiset::group_multiset_axioms;

    if k == s.len() {
        assert(s.insert(k, e) =~= s.push(e));
        assert(s.push(e).drop_last() =~= s);
        assert(s.push(e).last() == e);
    } else {
        let t = s.insert(k, e);
        assert(t.drop_last() =~= s.drop_last().insert(k, e)) by {
            s.insert_ensures(k, e);
            s.drop_last().insert_ensures(k, e);
        }
        assert(t.last() == s.last()) by {
            s.insert_ensures(k, e);
        }
        lemma_names_ms_insert(s.drop_last(), k, e);
        assert(names_ms(t) == names_ms(s.drop_last()).insert(e.name@).insert(s.last().name@));
        assert(names_ms(s.drop_last()).insert(e.name@).insert(s.last().name@) =~= names_ms(
            s.drop_last(),
        ).insert(s.last().name@).insert(e.name@));
    }
}

/// The names of a raw listing, in ascending order.
pub open spec fn entries_sorted(s: Seq<RawEntry>) -> bool {
    forall|i: int, j: int| 0 <= i < j < s.len() ==> lex_le(s[i].name@, s[j].name@)
}

/// Sorts a raw listing ascending by name. The entries are exactly those
/// given, by name; insertion sort, so no recursion and no stack growth.
fn sort_entries(v: Vec<RawEntry>) -> (r: Vec<RawEntry>)
    ensures
        entries_sorted(r@),
        names_ms(r@) == names_ms(v@),
        r@.len() == v@.len(),
{
    let ghost all = names_ms(v@);
    let mut src = v;
    let mut out: Vec<RawEntry> = Vec::new();
    proof {
        broadcast use vstd::multiset::group_multiset_axioms;

        assert(names_ms(out@).add(names_ms(src@)) =~= all);
    }
    while src.len() > 0
        invariant
            entries_sorted(out@),
            names_ms(out@).add(names_ms(src@)) == all,
            out@.len() + src@.len() == v@.len(),
        decreases src@.len(),
    {
        let ghost src0 = src@;
        let ghost out0 = out@;
        let e = match src.pop() {
            Option::Some(x) => x,
            Option::None => {
                proof {
                    assert(false);
                }
                RawEntry { name: String::new(), is_dir: false }
            },
        };
        proof {
            assert(src0.drop_last() =~= src@);
            assert(names_ms(src0) == names_ms(src@).insert(e.name@));
        }
        let mut k: usize = 0;
        while k < out.len() && str_le(out[k].name.as_str(), e.name.as_str())
            invariant
                k <= out@.len(),
                out@ == out0,
                forall|j: int| 0 <= j < k ==> lex_le(out@[j].name@, e.name@),
            decreases out@.len() - k,
        {
            k = k + 1;
        }
        proof {
            broadcast use vstd::multiset::group_multiset_axioms;

            assert forall|j: int| k <= j < out0.len() implies lex_le(
                e.name@,
                out0[j].name@,
            ) by {
                lemma_lex_le_total(out0[k as int].name@, e.name@);
                if j > k {
                    lemma_lex_le_trans(e.name@, out0[k as int].name@, out0[j].name@);
                }
            }
        }
        out.insert(k, e);
        proof {
            broadcast use vstd::multiset::group_multiset_axioms;

            out0.insert_ensures(k as int, e);
            lemma_names_ms_insert(out0, k as int, e);
            assert(names_ms(out@) == names_ms(out0).insert(e.name@));
            assert(names_ms(out0).insert(e.name@).add(names_ms(src@)) =~= names_ms(
                out0,
            ).add(names_ms(src@).insert(e.name@)));
            assert forall|i: int, j: int| 0 <= i < j < out@.len() implies lex_le(
                out@[i].name@,
                out@[j].name@,
            ) by {
                if j < k {
                    assert(out@[i] == out0[i] && out@[j] == out0[j]);
                } else if i < k && j == k {
                    assert(out@[i] == out0[i] && out@[j] == e);
                } else if i < k && j > k {
                    assert(out@[i] == out0[i] && out@[j] == out0[j - 1]);
                } else if i == k {
                    assert(out@[i] == e && out@[j] == out0[j - 1]);
                } else {
                    assert(out@[i] == out0[i - 1] && out@[j] == out0[j - 1]);
                }
            }
        }
    }
    proof {
        broadcast use vstd::multiset::group_multiset_axioms;

        assert(names_ms(src@) =~= Multiset::empty());
        assert(names_ms(out@).add(Multiset::empty()) =~= names_ms(out@));
        lemma_names_ms_len(out@);
        lemma_names_ms_len(v@);
    }
    out
}

/// A displayed region whose labels are exactly the names of a raw
/// listing, in order, has the same label multiset.
proof fn lemma_labels_names_ms(d: Seq<DirEntry>, s: Seq<RawEntry>)
    requires
        d.len() == s.len(),
        forall|t: int| 0 <= t < d.len() ==> d[t].label@ == s[t].name@,
    ensures
        labels_ms(d) == names_ms(s),
    decreases d.len(),
{
    if d.len() > 0 {
        lemma_labels_names_ms(d.drop_last(), s.drop_last());
    }
}

/// The stateful hierarchical browser: one value of it resolves one user
/// choice (a file path, a folder path, or cancellation) over a series of
/// navigation steps. The caller reads directories and prompts; the
/// browser builds each displayed list and resolves each selection.
#[derive(Debug)]
pub struct Browser {
    pub mode: BrowseMode,
    pub filter: Option<Vec<String>>,
    pub dir: String,
}

impl Browser {
    /// How many sentinel rows head the displayed list: Cancel, then in
    /// folder mode the current directory, then the parent when there is
    /// one.
    pub open spec fn sentinel_count(self) -> int {
        1 + (if self.mode == BrowseMode::PickFolder {
            1int
        } else {
            0int
        }) + (if parent_spec(self.dir@) is Some {
            1int
        } else {
            0int
        })
    }

    /// How many real subdirectory rows the listing of `raw` holds.
    pub open spec fn dir_count(self, raw: Seq<RawEntry>) -> int {
        dir_names_ms(raw).len() as int
    }

    /// How many real file rows the listing of `raw` holds: none at all
    /// in folder mode.
    pub open spec fn file_count(self, raw: Seq<RawEntry>) -> int {
        if self.mode == BrowseMode::PickFile {
            file_names_ms(raw, filter_views(self.filter)).len() as int
        } else {
            0
        }
    }

    /// Every row of the region `[a, b)` carries this directory flag, a
    /// path joined from the current directory and its label, and the
    /// hidden classification of its label.
    pub open spec fn region_ok(self, r: Seq<DirEntry>, a: int, b: int, dir_flag: bool) -> bool {
        forall|i: int| a <= i < b ==> {
            &&& (#[trigger] r[i]).is_dir == dir_flag
            &&& r[i].path@ == join_spec(self.dir@, r[i].label@)
            &&& r[i].hidden == is_hidden(r[i].label@)
        }
    }

    /// The labels of the region `[a, b)` ascend.
    pub open spec fn region_sorted(r: Seq<DirEntry>, a: int, b: int) -> bool {
        forall|i: int, j: int| a <= i < j < b ==> lex_le(r[i].label@, r[j].label@)
    }

    /// What the displayed list of one navigation step looks like:
    /// the cancellation sentinel first, the folder-mode and parent
    /// sentinels after it, then every real subdirectory sorted ascending
    /// by name, then (in file mode only) every qualifying real file
    /// sorted ascending by name.
    pub open spec fn listing_ok(self, raw: Seq<RawEntry>, r: Seq<DirEntry>) -> bool {
        let ns = self.sentinel_count();
        let nd = self.dir_count(raw);
        let nf = self.file_count(raw);
        &&& r.len() == ns + nd + nf
        &&& r[0].label@ == "Cancel"@
        &&& r[0].path@.len() == 0
        &&& !r[0].is_dir
        &&& !r[0].hidden
        &&& (self.mode == BrowseMode::PickFolder ==> {
            &&& r[1].label@ == "Select current directory"@
            &&& r[1].path@ == self.dir@
            &&& r[1].is_dir
            &&& !r[1].hidden
        })
        &&& (parent_spec(self.dir@) matches Option::Some(p) ==> {
            let pi: int = if self.mode == BrowseMode::PickFolder {
                2
            } else {
                1
            };
            &&& r[pi].label@ == "Parent directory"@
            &&& r[pi].path@ == p
            &&& r[pi].is_dir
            &&& !r[pi].hidden
        })
        &&& self.region_ok(r, ns, ns + nd, true)
        &&& Self::region_sorted(r, ns, ns + nd)
        &&& labels_ms(r.subrange(ns, ns + nd)) == dir_names_ms(raw)
        &&& self.region_ok(r, ns + nd, ns + nd + nf, false)
        &&& Self::region_sorted(r, ns + nd, ns + nd + nf)
        &&& (self.mode == BrowseMode::PickFile ==> labels_ms(r.subrange(ns + nd, ns + nd + nf))
            == file_names_ms(raw, filter_views(self.filter)))
    }

    /// Opens a browse operation. The starting directory is the parent of
    /// the default path when one is given, else the caller's fallback
    /// (its home directory, or failing that its working directory);
    /// failure to resolve either is `IOError`.
    pub fn new(
        mode: BrowseMode,
        filter: Option<Vec<String>>,
        default_path: Option<String>,
        fallback: Option<String>,
    ) -> (r: Result<Browser, CoreError>)
        ensures
            match r {
                Ok(b) => {
                    &&& b.mode == mode
                    &&& b.filter == filter
                    &&& match default_path {
                        Option::Some(d) => parent_spec(d@) == Option::Some(b.dir@),
                        Option::None => fallback matches Option::Some(f) && b.dir == f,
                    }
                },
                Err(e) => {
                    &&& e == CoreError::IOError
                    &&& match default_path {
                        Option::Some(d) => parent_spec(d@) is None,
                        Option::None => fallback is None,
                    }
                },
            },
    {
        let dir = match default_path {
            Option::Some(d) => match parent_of(d.as_str()) {
                Option::Some(p) => p,
                Option::None => {
                    return Err(CoreError::IOError);
                },
            },
            Option::None => match fallback {
                Option::Some(f) => f,
                Option::None => {
                    return Err(CoreError::IOError);
                },
            },
        };
        Ok(Browser { mode, filter, dir })
    }

    /// Builds the displayed entry list of one navigation step from the
    /// raw children of the current directory, as `listing_ok` states.
    pub fn entries(&self, raw: &Vec<RawEntry>) -> (r: Vec<DirEntry>)
        ensures
            self.listing_ok(raw@, r@),
    {
        let ghost fview = filter_views(self.filter);
        let mut dirs: Vec<RawEntry> = Vec::new();
        let mut files: Vec<RawEntry> = Vec::new();
        let n = raw.len();
        let mut i: usize = 0;
        while i < n
            invariant
                i <= n,
                n == raw@.len(),
                fview == filter_views(self.filter),
                names_ms(dirs@) == dir_names_ms(raw@.take(i as int)),
                names_ms(files@) == (if self.mode == BrowseMode::PickFile {
                    file_names_ms(raw@.take(i as int), fview)
                } else {
                    Multiset::empty()
                }),
            decreases n - i,
        {
            proof {
                assert(raw@.take(i + 1).drop_last() =~= raw@.take(i as int));
                assert(raw@.take(i + 1).last() == raw@[i as int]);
            }
            let ghost dirs0 = dirs@;
            let ghost files0 = files@;
            let ent = &raw[i];
            if ent.is_dir {
                dirs.push(RawEntry { name: ent.name.clone(), is_dir: true });
                proof {
                    assert(dirs@.drop_last() =~= dirs0);
                    assert(dirs@.last().name@ == raw@[i as int].name@);
                }
            } else if self.mode == BrowseMode::PickFile {
                if name_qualifies(ent.name.as_str(), &self.filter) {
                    files.push(RawEntry { name: ent.name.clone(), is_dir: false });
                    proof {
                        assert(files@.drop_last() =~= files0);
                        assert(files@.last().name@ == raw@[i as int].name@);
                    }
                }
            }
            i = i + 1;
        }
        proof {
            assert(raw@.take(n as int) =~= raw@);
        }
        let mut out: Vec<DirEntry> = Vec::new();
        out.push(
            DirEntry {
                label: "Cancel".to_owned(),
                path: String::new(),
                is_dir: false,
                hidden: false,
            },
        );
        if self.mode == BrowseMode::PickFolder {
            out.push(
                DirEntry {
                    label: "Select current directory".to_owned(),
                    path: self.dir.clone(),
                    is_dir: true,
                    hidden: false,
                },
            );
        }
        match parent_of(self.dir.as_str()) {
            Option::Some(p) => {
                out.push(
                    DirEntry { label: "Parent directory".to_owned(), path: p, is_dir: true, hidden: false },
                );
            },
            Option::None => {},
        }
        let ghost base = out@;
        let ghost ns = self.sentinel_count();
        proof {
            assert(base.len() == ns);
            assert(base[0].label@ == "Cancel"@);
            assert(base[0].path@.len() == 0);
            assert(!base[0].is_dir);
            assert(!base[0].hidden);
            if self.mode == BrowseMode::PickFolder {
                assert(base[1].label@ == "Select current directory"@);
                assert(base[1].path@ == self.dir@);
                assert(base[1].is_dir);
                assert(!base[1].hidden);
            }
            if parent_spec(self.dir@) is Some {
                let pi: int = if self.mode == BrowseMode::PickFolder {
                    2
                } else {
                    1
                };
                assert(base[pi].label@ == "Parent directory"@);
                assert(base[pi].path@ == parent_spec(self.dir@)->Some_0);
                assert(base[pi].is_dir);
                assert(!base[pi].hidden);
            }
        }
        let sorted_dirs = sort_entries(dirs);
        let nd = sorted_dirs.len();
        proof {
            lemma_names_ms_len(sorted_dirs@);
            assert(nd as int == self.dir_count(raw@));
        }
        let mut j: usize = 0;
        while j < nd
            invariant
                0 <= ns,
                j <= nd,
                nd == sorted_dirs@.len(),
                entries_sorted(sorted_dirs@),
                out@.len() == ns + j,
                out@.take(ns as int) == base,
                forall|t: int| 0 <= t < j ==> {
                    &&& (#[trigger] out@[ns + t]).label == sorted_dirs@[t].name
                    &&& out@[ns + t].is_dir
                    &&& out@[ns + t].path@ == join_spec(self.dir@, sorted_dirs@[t].name@)
                    &&& out@[ns + t].hidden == is_hidden(sorted_dirs@[t].name@)
                },
            decreases nd - j,
        {
            let ghost out0 = out@;
            let nm = sorted_dirs[j].name.clone();
            let pth = crate::paths::join_path(self.dir.as_str(), nm.as_str());
            let hid = crate::paths::hidden_name(nm.as_str());
            let ent = DirEntry { label: nm, path: pth, is_dir: true, hidden: hid };
            let ghost gent = ent;
            out.push(ent);
            proof {
                assert(out@ == out0.push(gent));
                assert forall|t: int| 0 <= t < ns + j implies out@[t] == out0[t] by {}
                assert(out@.take(ns as int) =~= out0.take(ns as int));
                assert(out@[ns + j] == gent);
            }
            j = j + 1;
        }
        let ghost dirs_done = out@;
        proof {
            assert forall|t: int| 0 <= t < nd implies dirs_done.subrange(
                ns as int,
                ns + nd as int,
            )[t].label@ == sorted_dirs@[t].name@ by {
                assert(dirs_done.subrange(ns as int, ns + nd as int)[t] == dirs_done[ns + t]);
            }
            lemma_labels_names_ms(
                dirs_done.subrange(ns as int, ns + nd as int),
                sorted_dirs@,
            );
        }
        let sorted_files = sort_entries(files);
        let nf = sorted_files.len();
        proof {
            lemma_names_ms_len(sorted_files@);
            assert(nf as int == self.file_count(raw@));
        }
        let mut k: usize = 0;
        while k < nf
            invariant
                0 <= ns,
                dirs_done.len() == ns + nd,
                k <= nf,
                nf == sorted_files@.len(),
                entries_sorted(sorted_files@),
                out@.len() == ns + nd + k,
                out@.take(ns + nd as int) == dirs_done,
                forall|t: int| 0 <= t < k ==> {
                    &&& (#[trigger] out@[ns + nd + t]).label == sorted_files@[t].name
                    &&& !out@[ns + nd + t].is_dir
                    &&& out@[ns + nd + t].path@ == join_spec(self.dir@, sorted_files@[t].name@)
                    &&& out@[ns + nd + t].hidden == is_hidden(sorted_files@[t].name@)
                },
            decreases nf - k,
        {
            let ghost out0 = out@;
            let nm = sorted_files[k].name.clone();
            let pth = crate::paths::join_path(self.dir.as_str(), nm.as_str());
            let hid = crate::paths::hidden_name(nm.as_str());
            let ent = DirEntry { label: nm, path: pth, is_dir: false, hidden: hid };
            let ghost gent = ent;
            out.push(ent);
            proof {
                assert(out@ == out0.push(gent));
                assert forall|t: int| 0 <= t < ns + nd + k implies out@[t] == out0[t] by {}
                assert(out@.take(ns + nd as int) =~= out0.take(ns + nd as int));
                assert(out@[ns + nd + k] == gent);
            }
            k = k + 1;
        }
        proof {
            assert forall|t: int| 0 <= t < ns + nd implies out@[t] == dirs_done[t] by {
                assert(out@.take(ns + nd as int)[t] == out@[t]);
            }
            assert(out@.subrange(ns as int, ns + nd as int) =~= dirs_done.subrange(
                ns as int,
                ns + nd as int,
            ));
            assert forall|t: int| 0 <= t < nf implies out@.subrange(
                ns + nd as int,
                ns + nd + nf as int,
            )[t].label@ == sorted_files@[t].name@ by {
                assert(out@.subrange(ns + nd as int, ns + nd + nf as int)[t] == out@[ns + nd
                    + t]);
            }
            lemma_labels_names_ms(
                out@.subrange(ns + nd as int, ns + nd + nf as int),
                sorted_files@,
            );
            assert forall|t: int| 0 <= t < ns implies out@[t] == base[t] by {
                assert(dirs_done.take(ns as int)[t] == dirs_done[t]);
            }
            assert forall|i2: int| ns <= i2 < ns + nd implies {
                &&& (#[trigger] out@[i2]).is_dir
                &&& out@[i2].path@ == join_spec(self.dir@, out@[i2].label@)
                &&& out@[i2].hidden == is_hidden(out@[i2].label@)
                &&& out@[i2].label@ == sorted_dirs@[i2 - ns].name@
            } by {
                let t = i2 - ns;
                assert(out@[ns + t] == dirs_done[ns + t]);
                assert(dirs_done[ns + t].label == sorted_dirs@[t].name);
            }
            assert forall|i2: int| ns + nd <= i2 < ns + nd + nf implies {
                &&& !(#[trigger] out@[i2]).is_dir
                &&& out@[i2].path@ == join_spec(self.dir@, out@[i2].label@)
                &&& out@[i2].hidden == is_hidden(out@[i2].label@)
                &&& out@[i2].label@ == sorted_files@[i2 - ns - nd].name@
            } by {
                let t = i2 - ns - nd;
                assert(out@[ns + nd + t].label == sorted_files@[t].name);
            }
            assert forall|i2: int, j2: int| ns <= i2 < j2 < ns + nd implies lex_le(
                out@[i2].label@,
                out@[j2].label@,
            ) by {
                assert(out@[i2].label@ == sorted_dirs@[i2 - ns].name@);
                assert(out@[j2].label@ == sorted_dirs@[j2 - ns].name@);
                assert(lex_le(sorted_dirs@[i2 - ns].name@, sorted_dirs@[j2 - ns].name@));
            }
            assert forall|i2: int, j2: int| ns + nd <= i2 < j2 < ns + nd + nf implies lex_le(
                out@[i2].label@,
                out@[j2].label@,
            ) by {
                assert(out@[i2].label@ == sorted_files@[i2 - ns - nd].name@);
                assert(out@[j2].label@ == sorted_files@[j2 - ns - nd].name@);
                assert(lex_le(sorted_files@[i2 - ns - nd].name@, sorted_files@[j2 - ns - nd].name@));
            }
            assert(out@.len() == ns + nd + nf);
            assert(out@[0] == base[0]);
            assert(self.region_ok(out@, ns, ns + nd, true));
            assert(Self::region_sorted(out@, ns, ns + nd));
            assert(labels_ms(out@.subrange(ns, ns + nd)) == dir_names_ms(raw@));
            assert(self.region_ok(out@, ns + nd, ns + nd + nf, false));
            assert(Self::region_sorted(out@, ns + nd, ns + nd + nf));
            assert(self.mode == BrowseMode::PickFile ==> labels_ms(
                out@.subrange(ns + nd, ns + nd + nf),
            ) == file_names_ms(raw@, filter_views(self.filter)));
            assert(self.listing_ok(raw@, out@));
        }
        out
    }

    /// Resolves one selection from a displayed list: index 0 cancels; in
    /// folder mode index 1 resolves the current directory; a directory
    /// row descends (the browser moves there); a file row resolves that
    /// file.
    pub fn resolve(&mut self, entries: &Vec<DirEntry>, choice: usize) -> (r: Outcome)
        requires
            choice < entries@.len(),
        ensures
            final(self).mode == old(self).mode,
            final(self).filter == old(self).filter,
            choice == 0 ==> (r matches Outcome::Cancelled) && final(self).dir == old(self).dir,
            (choice == 1 && old(self).mode == BrowseMode::PickFolder) ==> (r matches
                Outcome::Chosen(p) && p@ == entries@[1].path@) && final(self).dir == old(self).dir,
            (choice > 0 && !(choice == 1 && old(self).mode == BrowseMode::PickFolder)
                && entries@[choice as int].is_dir) ==> (r matches Outcome::Descend)
                && final(self).dir@ == entries@[choice as int].path@,
            (choice > 0 && !(choice == 1 && old(self).mode == BrowseMode::PickFolder)
                && !entries@[choice as int].is_dir) ==> (r matches Outcome::Chosen(p) && p@
                == entries@[choice as int].path@) && final(self).dir == old(self).dir,
    {
        if choice == 0 {
            return Outcome::Cancelled;
        }
        if choice == 1 && self.mode == BrowseMode::PickFolder {
            return Outcome::Chosen(entries[choice].path.clone());
        }
        if entries[choice].is_dir {
            self.dir = entries[choice].path.clone();
            Outcome::Descend
        } else {
            Outcome::Chosen(entries[choice].path.clone())
        }
    }
}

} // verus!
